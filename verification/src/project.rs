//! Projection of a resolved declaration tree into the catalog. The projector
//! walks the tree in document order and emits one scalar type per scalar
//! declaration, one record type per plain record, and one record type per
//! choice group whose name ends in `Choice`; record types derived from choice
//! groups come first in the output, then the plain ones, the two blocks never
//! interleaved.

use vstd::prelude::*;

use crate::catalog::{ComplexType, ComplexTypeV, Field, FieldV, SimpleType, SimpleTypeV, XmlSchema, XmlSchemaV};
use crate::decl::{
    clone_opt_string, clone_strings, ChoiceGroupDecl, ChoiceGroupDeclV, Declaration, DeclarationV,
    Facet, FacetV, FieldDecl, FieldDeclV, Modifier, RecordDecl, RecordDeclV, ScalarDecl,
    ScalarDeclV, Subtype, SubtypeV,
};
use crate::strutil::{
    all_enum_segments_check, all_enum_segments_ok, ends_with, has_suffix, split_chars, split_on,
    str_eq, strip_prefix, strip_prefix_one, strip_suffix, strip_suffix_all, strip_suffix_one,
    strip_suffix_repeated,
};

verus! {

/// The suffix that marks a choice group for projection.
pub open spec fn choice_suffix() -> Seq<char> {
    seq!['C', 'h', 'o', 'i', 'c', 'e']
}

/// The conventional type-name suffix removed from projected names.
pub open spec fn type_suffix() -> Seq<char> {
    seq!['T', 'y', 'p', 'e']
}

/// The separator of the conventional field-comment prefix `<name> => `.
pub open spec fn doc_sep() -> Seq<char> {
    seq![' ', '=', '>', ' ']
}

/// The sentinel alternation segment meaning "free-form templated value
/// allowed", dropped from the head of a pattern before the enumeration test.
pub open spec fn pattern_sentinel() -> Seq<char> {
    seq!['.', '*', '[', '\\', '[', '\\', ']', '`', '$', ']', '.', '*']
}

/// A projected field's documentation: the raw comment with one conventional
/// `<fieldName> => ` prefix stripped if present, otherwise copied verbatim.
pub open spec fn project_doc(name: Seq<char>, doc: Option<Seq<char>>) -> Option<Seq<char>> {
    match doc {
        None => None,
        Some(c) => Some(strip_prefix_one(c, name + doc_sep())),
    }
}

/// One projected field: name, type name and default copied verbatim, the doc
/// prefix stripped, and `required` exactly when the `Optional` modifier is
/// absent.
pub open spec fn project_field(f: FieldDeclV) -> FieldV {
    FieldV {
        name: f.name,
        default: f.default,
        ty_name: f.ty_name,
        doc: project_doc(f.name, f.doc),
        required: !f.modifiers.contains(Modifier::Optional),
    }
}

/// A projected field list, in order, excluding every field whose own name
/// ends in `Choice`: such a field denotes a nested polymorphic group that is
/// projected independently and never inlined.
pub open spec fn project_fields(fs: Seq<FieldDeclV>) -> Seq<FieldV>
    decreases fs.len(),
{
    if fs.len() == 0 {
        Seq::empty()
    } else {
        let rest = project_fields(fs.drop_last());
        if has_suffix(fs.last().name, choice_suffix()) {
            rest
        } else {
            rest.push(project_field(fs.last()))
        }
    }
}

/// The alternation segments of a pattern, with the sentinel head dropped.
pub open spec fn pattern_parts(p: Seq<char>) -> Seq<Seq<char>> {
    let parts = split_chars(p, '|');
    if parts.len() > 0 && parts[0] == pattern_sentinel() {
        parts.drop_first()
    } else {
        parts
    }
}

/// The enumeration derived from one pattern: its segments when every segment
/// consists only of letters, digits, underscores and hyphens, otherwise
/// whatever an earlier facet derived.
pub open spec fn pattern_options(p: Seq<char>, prev: Option<Seq<Seq<char>>>) -> Option<
    Seq<Seq<char>>,
> {
    if all_enum_segments_ok(pattern_parts(p)) {
        Some(pattern_parts(p))
    } else {
        prev
    }
}

/// The pattern and options a scalar's facet list yields, facets read in
/// order: the pattern is the latest `Pattern` facet's raw text, the options
/// come from the latest `Pattern` facet that passes the enumeration test.
pub open spec fn scalar_pattern_options(facets: Seq<FacetV>) -> (Option<Seq<char>>, Option<
    Seq<Seq<char>>,
>)
    decreases facets.len(),
{
    if facets.len() == 0 {
        (None, None)
    } else {
        let prev = scalar_pattern_options(facets.drop_last());
        match facets.last() {
            FacetV::Pattern(p) => (Some(p), pattern_options(p, prev.1)),
            FacetV::Other => prev,
        }
    }
}

/// One projected scalar type: name and doc copied verbatim.
pub open spec fn project_scalar(s: ScalarDeclV) -> SimpleTypeV {
    SimpleTypeV {
        name: s.name,
        doc: s.doc,
        pattern: scalar_pattern_options(s.facets).0,
        options: scalar_pattern_options(s.facets).1,
    }
}

/// The flattened fields a choice group's subtypes contribute, in subtype
/// order; only record-shaped subtypes contribute.
pub open spec fn subtype_fields(ss: Seq<SubtypeV>) -> Seq<FieldV>
    decreases ss.len(),
{
    if ss.len() == 0 {
        Seq::empty()
    } else {
        subtype_fields(ss.drop_last()) + (match ss.last() {
            SubtypeV::Record(r) => project_fields(r.fields),
            SubtypeV::Other => Seq::empty(),
        })
    }
}

/// One record type derived from a choice group: the trailing `Choice` suffix
/// removed from the name, then a trailing `Type` suffix if present; the case
/// names become the children; the subtypes' fields are concatenated.
pub open spec fn project_choice(cg: ChoiceGroupDeclV) -> ComplexTypeV {
    ComplexTypeV {
        name: strip_suffix_one(strip_suffix_one(cg.name, choice_suffix()), type_suffix()),
        doc: cg.doc,
        fields: subtype_fields(cg.subtypes),
        children: Some(cg.cases),
    }
}

/// One record type derived from a plain record: every trailing `Type`
/// repetition removed from the name, no children. Unlike a choice-group
/// name, which loses one `Choice` and then one `Type`, a plain record's name
/// is trimmed repeatedly.
pub open spec fn project_plain(r: RecordDeclV) -> ComplexTypeV {
    ComplexTypeV {
        name: strip_suffix_all(r.name, type_suffix()),
        doc: r.doc,
        fields: project_fields(r.fields),
        children: None,
    }
}

/// The record types derived from choice groups, in parse order. A choice
/// group whose name does not end in `Choice` is not projected.
pub open spec fn choice_records(ds: Seq<DeclarationV>) -> Seq<ComplexTypeV>
    decreases ds.len(),
{
    if ds.len() == 0 {
        Seq::empty()
    } else {
        choice_records(ds.drop_last()) + (match ds.last() {
            DeclarationV::ChoiceGroup(cg) => if has_suffix(cg.name, choice_suffix()) {
                seq![project_choice(cg)]
            } else {
                Seq::empty()
            },
            _ => Seq::empty(),
        })
    }
}

/// The record types derived from plain records, in parse order.
pub open spec fn plain_records(ds: Seq<DeclarationV>) -> Seq<ComplexTypeV>
    decreases ds.len(),
{
    if ds.len() == 0 {
        Seq::empty()
    } else {
        plain_records(ds.drop_last()) + (match ds.last() {
            DeclarationV::Record(r) => seq![project_plain(r)],
            _ => Seq::empty(),
        })
    }
}

/// The scalar types, in parse order.
pub open spec fn scalar_types(ds: Seq<DeclarationV>) -> Seq<SimpleTypeV>
    decreases ds.len(),
{
    if ds.len() == 0 {
        Seq::empty()
    } else {
        scalar_types(ds.drop_last()) + (match ds.last() {
            DeclarationV::Scalar(s) => seq![project_scalar(s)],
            _ => Seq::empty(),
        })
    }
}

/// The whole catalog of a resolved tree: scalar types in parse order, and the
/// choice-group-derived record types followed by the plain ones.
pub open spec fn project_schema(ds: Seq<DeclarationV>) -> XmlSchemaV {
    XmlSchemaV {
        simple_types: scalar_types(ds),
        complex_types: choice_records(ds) + plain_records(ds),
    }
}

/// Law: the catalog lists every record type derived from a choice group
/// before every record type derived from a plain record, each block in
/// original parse order, the two blocks concatenated and never interleaved.
pub proof fn lemma_record_type_order(ds: Seq<DeclarationV>)
    ensures
        project_schema(ds).complex_types == choice_records(ds) + plain_records(ds),
{
}

/// Whether the `Optional` modifier is absent from the list.
pub fn field_required(modifiers: &Vec<Modifier>) -> (r: bool)
    ensures
        r == !modifiers@.contains(Modifier::Optional),
{
    let mut i: usize = 0;
    while i < modifiers.len()
        invariant
            0 <= i <= modifiers@.len(),
            forall|j: int| 0 <= j < i ==> modifiers@[j] != Modifier::Optional,
        decreases modifiers@.len() - i,
    {
        if modifiers[i] == Modifier::Optional {
            return false;
        }
        i += 1;
    }
    true
}

/// Strips one conventional `<name> => ` prefix from a field comment, if
/// present.
fn strip_doc_prefix(name: &str, c: &str) -> (r: String)
    ensures
        r@ == strip_prefix_one(c@, name@ + doc_sep()),
{
    let mut pre = name.to_owned();
    pre.append(" => ");
    proof {
        reveal_strlit(" => ");
        assert(" => "@ =~= doc_sep());
        assert(pre@ == name@ + doc_sep());
    }
    strip_prefix(c, pre.as_str())
}

/// A projected field's documentation.
fn project_doc_exec(name: &str, doc: &Option<String>) -> (r: Option<String>)
    ensures
        r.deep_view() == project_doc(name@, doc.deep_view()),
{
    match doc {
        None => None,
        Some(c) => Some(strip_doc_prefix(name, c.as_str())),
    }
}

/// Projects one field: name, type name and default verbatim, the doc prefix
/// stripped, and `required` exactly when `Optional` is absent.
pub fn project_field_exec(f: &FieldDecl) -> (r: Field)
    ensures
        r@ == project_field(f@),
        r.required == !f@.modifiers.contains(Modifier::Optional),
{
    let r = Field {
        name: f.name.clone(),
        default: clone_opt_string(&f.default),
        ty_name: f.ty_name.clone(),
        doc: project_doc_exec(f.name.as_str(), &f.doc),
        required: field_required(&f.modifiers),
    };
    proof {
        assert(r@ =~= project_field(f@));
    }
    r
}

/// Whether a name carries the `Choice` suffix.
pub fn has_choice_suffix(s: &str) -> (r: bool)
    ensures
        r == has_suffix(s@, choice_suffix()),
{
    proof {
        reveal_strlit("Choice");
        assert("Choice"@ =~= choice_suffix());
    }
    ends_with(s, "Choice")
}

/// Removes one trailing `Type` suffix, if present.
fn strip_type_suffix(s: &str) -> (r: String)
    ensures
        r@ == strip_suffix_one(s@, type_suffix()),
{
    proof {
        reveal_strlit("Type");
        assert("Type"@ =~= type_suffix());
    }
    strip_suffix(s, "Type")
}

/// Removes every trailing `Type` repetition.
fn strip_type_suffix_repeated(s: &str) -> (r: String)
    ensures
        r@ == strip_suffix_all(s@, type_suffix()),
{
    proof {
        reveal_strlit("Type");
        assert("Type"@ =~= type_suffix());
    }
    strip_suffix_repeated(s, "Type")
}

/// Removes one trailing `Choice` suffix, if present.
fn strip_choice_suffix(s: &str) -> (r: String)
    ensures
        r@ == strip_suffix_one(s@, choice_suffix()),
{
    proof {
        reveal_strlit("Choice");
        assert("Choice"@ =~= choice_suffix());
    }
    strip_suffix(s, "Choice")
}

/// Projects a field list, dropping every field whose name ends in `Choice`.
pub fn project_fields_exec(fs: &Vec<FieldDecl>) -> (r: Vec<Field>)
    ensures
        r.deep_view() == project_fields(fs.deep_view()),
{
    let mut out: Vec<Field> = Vec::new();
    let mut i: usize = 0;
    while i < fs.len()
        invariant
            0 <= i <= fs@.len(),
            out.deep_view() == project_fields(fs.deep_view().take(i as int)),
        decreases fs@.len() - i,
    {
        let ghost pre = out.deep_view();
        proof {
            assert(fs.deep_view().take(i as int + 1).drop_last() =~= fs.deep_view().take(i as int));
            assert(fs.deep_view().take(i as int + 1).last() == fs@[i as int]@);
        }
        if !has_choice_suffix(fs[i].name.as_str()) {
            let e = project_field_exec(&fs[i]);
            out.push(e);
            proof {
                assert(forall|j: int| 0 <= j < pre.len() ==> out.deep_view()[j] == pre[j]);
                assert(out.deep_view() =~= pre.push(e@));
            }
        }
        i += 1;
    }
    proof {
        assert(fs.deep_view().take(fs@.len() as int) =~= fs.deep_view());
    }
    out
}

/// Whether a segment is exactly the sentinel head.
fn is_sentinel(s: &str) -> (r: bool)
    ensures
        r == (s@ == pattern_sentinel()),
{
    proof {
        reveal_strlit(".*[\\[\\]`$].*");
        assert(".*[\\[\\]`$].*"@ =~= pattern_sentinel());
    }
    str_eq(s, ".*[\\[\\]`$].*")
}

/// Projects one scalar declaration, reading its facets in order.
pub fn project_scalar_exec(s: &ScalarDecl) -> (r: SimpleType)
    ensures
        r@ == project_scalar(s@),
{
    let mut pattern: Option<String> = None;
    let mut options: Option<Vec<String>> = None;
    let mut i: usize = 0;
    while i < s.facets.len()
        invariant
            0 <= i <= s.facets@.len(),
            pattern.deep_view() == scalar_pattern_options(s.facets.deep_view().take(i as int)).0,
            options.deep_view() == scalar_pattern_options(s.facets.deep_view().take(i as int)).1,
        decreases s.facets@.len() - i,
    {
        proof {
            assert(s.facets.deep_view().take(i as int + 1).drop_last() =~= s.facets.deep_view()
                .take(i as int));
            assert(s.facets.deep_view().take(i as int + 1).last() == s.facets@[i as int]@);
        }
        match &s.facets[i] {
            Facet::Pattern(p) => {
                let mut parts = split_on(p.as_str(), '|');
                let ghost parts0 = parts.deep_view();
                if parts.len() > 0 && is_sentinel(parts[0].as_str()) {
                    proof {
                        assert(parts.deep_view()[0] == parts@[0]@);
                    }
                    let _sentinel = parts.remove(0);
                    proof {
                        assert(forall|j: int|
                            0 <= j < parts@.len() ==> parts.deep_view()[j] == parts0[j + 1]);
                        assert(parts.deep_view() =~= parts0.drop_first());
                        assert(parts.deep_view() =~= pattern_parts(p@));
                    }
                } else {
                    proof {
                        if parts@.len() > 0 {
                            assert(parts.deep_view()[0] == parts@[0]@);
                        }
                        assert(parts.deep_view() =~= pattern_parts(p@));
                    }
                }
                if all_enum_segments_check(&parts) {
                    options = Some(clone_strings(&parts));
                }
                pattern = Some(p.clone());
            },
            Facet::Other => {},
        }
        i += 1;
    }
    let r = SimpleType { name: s.name.clone(), doc: clone_opt_string(&s.doc), pattern, options };
    proof {
        assert(s.facets.deep_view().take(s.facets@.len() as int) =~= s.facets.deep_view());
        assert(r@ =~= project_scalar(s@));
    }
    r
}

/// The flattened fields of a choice group's subtypes, in subtype order.
fn subtype_fields_exec(ss: &Vec<Subtype>) -> (r: Vec<Field>)
    ensures
        r.deep_view() == subtype_fields(ss.deep_view()),
{
    let mut out: Vec<Field> = Vec::new();
    let mut i: usize = 0;
    while i < ss.len()
        invariant
            0 <= i <= ss@.len(),
            out.deep_view() == subtype_fields(ss.deep_view().take(i as int)),
        decreases ss@.len() - i,
    {
        let ghost pre = out.deep_view();
        proof {
            assert(ss.deep_view().take(i as int + 1).drop_last() =~= ss.deep_view().take(i as int));
            assert(ss.deep_view().take(i as int + 1).last() == ss@[i as int]@);
        }
        match &ss[i] {
            Subtype::Record(r) => {
                let mut fs = project_fields_exec(&r.fields);
                let ghost fsv = fs.deep_view();
                out.append(&mut fs);
                proof {
                    assert(out.deep_view() =~= pre + fsv);
                }
            },
            Subtype::Other => {
                proof {
                    assert(out.deep_view() =~= pre + Seq::<FieldV>::empty());
                }
            },
        }
        i += 1;
    }
    proof {
        assert(ss.deep_view().take(ss@.len() as int) =~= ss.deep_view());
    }
    out
}

/// Projects one choice group into its owning record type.
pub fn project_choice_exec(cg: &ChoiceGroupDecl) -> (r: ComplexType)
    ensures
        r@ == project_choice(cg@),
{
    let stripped = strip_choice_suffix(cg.name.as_str());
    let name = strip_type_suffix(stripped.as_str());
    let r = ComplexType {
        name,
        doc: clone_opt_string(&cg.doc),
        fields: subtype_fields_exec(&cg.subtypes),
        children: Some(clone_strings(&cg.cases)),
    };
    proof {
        assert(r@ =~= project_choice(cg@));
    }
    r
}

/// Projects one plain record into a record type without children.
pub fn project_plain_exec(rec: &RecordDecl) -> (r: ComplexType)
    ensures
        r@ == project_plain(rec@),
{
    let r = ComplexType {
        name: strip_type_suffix_repeated(rec.name.as_str()),
        doc: clone_opt_string(&rec.doc),
        fields: project_fields_exec(&rec.fields),
        children: None,
    };
    proof {
        assert(r@ =~= project_plain(rec@));
    }
    r
}

/// Projects a resolved declaration tree into the catalog.
pub fn project_schema_exec(types: &Vec<Declaration>) -> (r: XmlSchema)
    ensures
        r@ == project_schema(types.deep_view()),
{
    let mut simple: Vec<SimpleType> = Vec::new();
    let mut choice: Vec<ComplexType> = Vec::new();
    let mut plain: Vec<ComplexType> = Vec::new();
    let mut i: usize = 0;
    while i < types.len()
        invariant
            0 <= i <= types@.len(),
            simple.deep_view() == scalar_types(types.deep_view().take(i as int)),
            choice.deep_view() == choice_records(types.deep_view().take(i as int)),
            plain.deep_view() == plain_records(types.deep_view().take(i as int)),
        decreases types@.len() - i,
    {
        let ghost pre_s = simple.deep_view();
        let ghost pre_c = choice.deep_view();
        let ghost pre_p = plain.deep_view();
        proof {
            assert(types.deep_view().take(i as int + 1).drop_last() =~= types.deep_view().take(
                i as int,
            ));
            assert(types.deep_view().take(i as int + 1).last() == types@[i as int]@);
        }
        match &types[i] {
            Declaration::Scalar(s) => {
                let e = project_scalar_exec(s);
                simple.push(e);
                proof {
                    assert(forall|j: int| 0 <= j < pre_s.len() ==> simple.deep_view()[j] == pre_s[j]);
                    assert(simple.deep_view() =~= pre_s.push(e@));
                    assert(choice.deep_view() =~= pre_c + Seq::<ComplexTypeV>::empty());
                    assert(plain.deep_view() =~= pre_p + Seq::<ComplexTypeV>::empty());
                }
            },
            Declaration::ChoiceGroup(cg) => {
                if has_choice_suffix(cg.name.as_str()) {
                    let e = project_choice_exec(cg);
                    choice.push(e);
                    proof {
                        assert(forall|j: int|
                            0 <= j < pre_c.len() ==> choice.deep_view()[j] == pre_c[j]);
                        assert(choice.deep_view() =~= pre_c.push(e@));
                        assert(simple.deep_view() =~= pre_s + Seq::<SimpleTypeV>::empty());
                        assert(plain.deep_view() =~= pre_p + Seq::<ComplexTypeV>::empty());
                    }
                } else {
                    proof {
                        assert(simple.deep_view() =~= pre_s + Seq::<SimpleTypeV>::empty());
                        assert(choice.deep_view() =~= pre_c + Seq::<ComplexTypeV>::empty());
                        assert(plain.deep_view() =~= pre_p + Seq::<ComplexTypeV>::empty());
                    }
                }
            },
            Declaration::Record(rec) => {
                let e = project_plain_exec(rec);
                plain.push(e);
                proof {
                    assert(forall|j: int| 0 <= j < pre_p.len() ==> plain.deep_view()[j] == pre_p[j]);
                    assert(plain.deep_view() =~= pre_p.push(e@));
                    assert(simple.deep_view() =~= pre_s + Seq::<SimpleTypeV>::empty());
                    assert(choice.deep_view() =~= pre_c + Seq::<ComplexTypeV>::empty());
                }
            },
            _ => {
                proof {
                    assert(simple.deep_view() =~= pre_s + Seq::<SimpleTypeV>::empty());
                    assert(choice.deep_view() =~= pre_c + Seq::<ComplexTypeV>::empty());
                    assert(plain.deep_view() =~= pre_p + Seq::<ComplexTypeV>::empty());
                }
            },
        }
        i += 1;
    }
    let ghost cv = choice.deep_view();
    let ghost pv = plain.deep_view();
    let mut complex = choice;
    complex.append(&mut plain);
    let r = XmlSchema { simple_types: simple, complex_types: complex };
    proof {
        assert(types.deep_view().take(types@.len() as int) =~= types.deep_view());
        assert(complex.deep_view() =~= cv + pv);
        assert(r@ =~= project_schema(types.deep_view()));
    }
    r
}

} // verus!
