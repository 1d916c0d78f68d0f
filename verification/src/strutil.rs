//! String conventions used by the projection: suffix and prefix stripping,
//! splitting a pattern on its alternation delimiter, and the character class
//! of enumeration segments.

use vstd::prelude::*;

verus! {

/// Whether `suf` is a suffix of `s`.
pub open spec fn has_suffix(s: Seq<char>, suf: Seq<char>) -> bool {
    suf.len() <= s.len() && s.subrange(s.len() - suf.len(), s.len() as int) == suf
}

/// `s` with one trailing occurrence of `suf` removed, if present.
pub open spec fn strip_suffix_one(s: Seq<char>, suf: Seq<char>) -> Seq<char> {
    if has_suffix(s, suf) {
        s.subrange(0, s.len() - suf.len())
    } else {
        s
    }
}

/// `s` with every trailing repetition of `suf` removed.
pub open spec fn strip_suffix_all(s: Seq<char>, suf: Seq<char>) -> Seq<char>
    decreases s.len(),
{
    if suf.len() > 0 && has_suffix(s, suf) {
        strip_suffix_all(s.subrange(0, s.len() - suf.len()), suf)
    } else {
        s
    }
}

/// Whether `pre` is a prefix of `s`.
pub open spec fn has_prefix(s: Seq<char>, pre: Seq<char>) -> bool {
    pre.len() <= s.len() && s.subrange(0, pre.len() as int) == pre
}

/// `s` with one leading occurrence of `pre` removed, if present.
pub open spec fn strip_prefix_one(s: Seq<char>, pre: Seq<char>) -> Seq<char> {
    if has_prefix(s, pre) {
        s.subrange(pre.len() as int, s.len() as int)
    } else {
        s
    }
}

/// The segments of `s` between occurrences of `sep`, in order. Separators at
/// the ends and adjacent separators yield empty segments, and the empty
/// string yields one empty segment.
pub open spec fn split_chars(s: Seq<char>, sep: char) -> Seq<Seq<char>>
    decreases s.len(),
{
    if s.len() == 0 {
        seq![Seq::<char>::empty()]
    } else if s[0] == sep {
        seq![Seq::<char>::empty()] + split_chars(s.drop_first(), sep)
    } else {
        let r = split_chars(s.drop_first(), sep);
        seq![seq![s[0]] + r[0]] + r.drop_first()
    }
}

/// Splitting yields at least one segment.
pub proof fn lemma_split_chars_len(s: Seq<char>, sep: char)
    ensures
        split_chars(s, sep).len() >= 1,
    decreases s.len(),
{
    if s.len() == 0 {
    } else {
        lemma_split_chars_len(s.drop_first(), sep);
    }
}

/// What `char::is_alphanumeric` returns: whether the character counts as a
/// letter or a digit. The result depends on the character alone.
pub uninterp spec fn is_letter_or_digit(c: char) -> bool;

/// Relies on `char::is_alphanumeric`: true exactly for the characters the
/// standard library classifies as letters or digits, a function of the
/// character alone.
pub assume_specification[ char::is_alphanumeric ](c: char) -> (r: bool)
    ensures
        r == is_letter_or_digit(c),
;

/// A character allowed inside an enumeration segment.
pub open spec fn enum_char_ok(c: char) -> bool {
    is_letter_or_digit(c) || c == '_' || c == '-'
}

/// A pattern segment that denotes one closed enumeration value.
pub open spec fn enum_segment_ok(s: Seq<char>) -> bool {
    forall|i: int| 0 <= i < s.len() ==> enum_char_ok(s[i])
}

/// Every segment of the list denotes one closed enumeration value.
pub open spec fn all_enum_segments_ok(parts: Seq<Seq<char>>) -> bool {
    forall|i: int| 0 <= i < parts.len() ==> enum_segment_ok(parts[i])
}

/// Character-wise string equality.
pub fn str_eq(a: &str, b: &str) -> (r: bool)
    ensures
        r == (a@ == b@),
{
    let la = a.unicode_len();
    let lb = b.unicode_len();
    if la != lb {
        return false;
    }
    let mut i: usize = 0;
    while i < la
        invariant
            la == a@.len(),
            la == b@.len(),
            0 <= i <= la,
            forall|j: int| 0 <= j < i ==> a@[j] == b@[j],
        decreases la - i,
    {
        if a.get_char(i) != b.get_char(i) {
            return false;
        }
        i += 1;
    }
    proof {
        assert(a@ =~= b@);
    }
    true
}

/// Whether `s` ends with `suf`, character for character.
pub fn ends_with(s: &str, suf: &str) -> (r: bool)
    ensures
        r == has_suffix(s@, suf@),
{
    let ls = s.unicode_len();
    let lsuf = suf.unicode_len();
    if lsuf > ls {
        return false;
    }
    let start = ls - lsuf;
    let mut i: usize = 0;
    while i < lsuf
        invariant
            ls == s@.len(),
            lsuf == suf@.len(),
            start == ls - lsuf,
            lsuf <= ls,
            0 <= i <= lsuf,
            forall|j: int| 0 <= j < i ==> s@[start + j] == suf@[j],
        decreases lsuf - i,
    {
        if s.get_char(start + i) != suf.get_char(i) {
            proof {
                assert(s@.subrange(s@.len() - suf@.len(), s@.len() as int)[i as int] == s@[
                    start + i
                ]);
            }
            return false;
        }
        i += 1;
    }
    proof {
        assert(s@.subrange(s@.len() - suf@.len(), s@.len() as int) =~= suf@);
    }
    true
}

/// Whether `s` starts with `pre`, character for character.
pub fn starts_with(s: &str, pre: &str) -> (r: bool)
    ensures
        r == has_prefix(s@, pre@),
{
    let ls = s.unicode_len();
    let lpre = pre.unicode_len();
    if lpre > ls {
        return false;
    }
    let mut i: usize = 0;
    while i < lpre
        invariant
            ls == s@.len(),
            lpre == pre@.len(),
            lpre <= ls,
            0 <= i <= lpre,
            forall|j: int| 0 <= j < i ==> s@[j] == pre@[j],
        decreases lpre - i,
    {
        if s.get_char(i) != pre.get_char(i) {
            proof {
                assert(s@.subrange(0, pre@.len() as int)[i as int] == s@[i as int]);
            }
            return false;
        }
        i += 1;
    }
    proof {
        assert(s@.subrange(0, pre@.len() as int) =~= pre@);
    }
    true
}

/// `s` with one trailing occurrence of `suf` removed, if present.
pub fn strip_suffix(s: &str, suf: &str) -> (r: String)
    ensures
        r@ == strip_suffix_one(s@, suf@),
{
    if ends_with(s, suf) {
        let ls = s.unicode_len();
        let lsuf = suf.unicode_len();
        s.substring_char(0, ls - lsuf).to_owned()
    } else {
        s.to_owned()
    }
}

/// `s` with every trailing repetition of `suf` removed.
pub fn strip_suffix_repeated(s: &str, suf: &str) -> (r: String)
    ensures
        r@ == strip_suffix_all(s@, suf@),
    decreases s@.len(),
{
    let lsuf = suf.unicode_len();
    if lsuf > 0 && ends_with(s, suf) {
        let ls = s.unicode_len();
        let head = s.substring_char(0, ls - lsuf);
        strip_suffix_repeated(head, suf)
    } else {
        s.to_owned()
    }
}

/// `s` with one leading occurrence of `pre` removed, if present.
pub fn strip_prefix(s: &str, pre: &str) -> (r: String)
    ensures
        r@ == strip_prefix_one(s@, pre@),
{
    if starts_with(s, pre) {
        let ls = s.unicode_len();
        let lpre = pre.unicode_len();
        s.substring_char(lpre, ls).to_owned()
    } else {
        s.to_owned()
    }
}

/// The segments of `s` between occurrences of `sep`, in order.
pub fn split_on(s: &str, sep: char) -> (r: Vec<String>)
    ensures
        r.deep_view() == split_chars(s@, sep),
    decreases s@.len(),
{
    let len = s.unicode_len();
    if len == 0 {
        let mut out: Vec<String> = Vec::new();
        out.push(String::new());
        proof {
            assert(out.deep_view() =~~= split_chars(s@, sep));
        }
        out
    } else {
        let c = s.get_char(0);
        let rest = s.substring_char(1, len);
        proof {
            assert(rest@ =~= s@.drop_first());
        }
        let mut r = split_on(rest, sep);
        if c == sep {
            let mut out: Vec<String> = Vec::new();
            out.push(String::new());
            out.append(&mut r);
            proof {
                assert(out.deep_view() =~~= split_chars(s@, sep));
            }
            out
        } else {
            proof {
                lemma_split_chars_len(rest@, sep);
                assert(r.deep_view().len() >= 1);
            }
            let first = r.remove(0);
            let mut head = s.substring_char(0, 1).to_owned();
            head.append(first.as_str());
            let mut out: Vec<String> = Vec::new();
            out.push(head);
            out.append(&mut r);
            proof {
                assert(head@ =~= seq![s@[0]] + split_chars(rest@, sep)[0]);
                assert(out.deep_view() =~~= split_chars(s@, sep));
            }
            out
        }
    }
}

/// Whether every character of `s` is a letter, a digit, an underscore or a
/// hyphen.
pub fn enum_segment_check(s: &str) -> (r: bool)
    ensures
        r == enum_segment_ok(s@),
{
    let len = s.unicode_len();
    let mut i: usize = 0;
    while i < len
        invariant
            len == s@.len(),
            0 <= i <= len,
            forall|j: int| 0 <= j < i ==> enum_char_ok(s@[j]),
        decreases len - i,
    {
        let c = s.get_char(i);
        if !(c.is_alphanumeric() || c == '_' || c == '-') {
            return false;
        }
        i += 1;
    }
    true
}

/// Whether every segment consists only of letters, digits, underscores and
/// hyphens.
pub fn all_enum_segments_check(parts: &Vec<String>) -> (r: bool)
    ensures
        r == all_enum_segments_ok(parts.deep_view()),
{
    let mut i: usize = 0;
    while i < parts.len()
        invariant
            0 <= i <= parts.len(),
            forall|j: int| 0 <= j < i ==> enum_segment_ok(parts.deep_view()[j]),
        decreases parts.len() - i,
    {
        if !enum_segment_check(parts[i].as_str()) {
            proof {
                assert(parts.deep_view()[i as int] == parts@[i as int]@);
            }
            return false;
        }
        i += 1;
    }
    true
}

} // verus!
