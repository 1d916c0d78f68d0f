//! The symbol table: a name-to-declaration mapping over every top-level
//! record-shaped declaration (complex types and attribute groups). It is
//! built once per invocation and read-only during resolution. On a name
//! collision the later declaration wins; attribute groups are indexed after
//! the type declarations. Scalar bases contribute no fields, so only
//! record-shaped declarations need indexing; an absent name resolves to
//! nothing, which resolution tolerates.

use vstd::prelude::*;

use crate::decl::{clone_record, Declaration, DeclarationV, RecordDecl, RecordDeclV};
use crate::strutil::str_eq;

verus! {

/// One binding of the symbol table.
pub struct SymbolEntry {
    pub name: String,
    pub decl: RecordDecl,
}

/// View of a [`SymbolEntry`].
#[verifier::ext_equal]
pub struct SymbolEntryV {
    pub name: Seq<char>,
    pub decl: RecordDeclV,
}

impl View for SymbolEntry {
    type V = SymbolEntryV;

    open spec fn view(&self) -> SymbolEntryV {
        SymbolEntryV { name: self.name@, decl: self.decl@ }
    }
}

impl DeepView for SymbolEntry {
    type V = SymbolEntryV;

    open spec fn deep_view(&self) -> SymbolEntryV {
        self.view()
    }
}

/// The declaration the table binds `name` to: the latest binding wins.
pub open spec fn lookup(t: Seq<SymbolEntryV>, name: Seq<char>) -> Option<RecordDeclV>
    decreases t.len(),
{
    if t.len() == 0 {
        None
    } else if t.last().name == name {
        Some(t.last().decl)
    } else {
        lookup(t.drop_last(), name)
    }
}

/// The bindings contributed by a list of declarations, in order: one binding
/// per record-shaped declaration, every other kind skipped.
pub open spec fn entries_of(ds: Seq<DeclarationV>) -> Seq<SymbolEntryV>
    decreases ds.len(),
{
    if ds.len() == 0 {
        Seq::empty()
    } else {
        entries_of(ds.drop_last()) + (match ds.last() {
            DeclarationV::Record(r) => seq![SymbolEntryV { name: r.name, decl: r }],
            _ => Seq::empty(),
        })
    }
}

/// The whole symbol table of one invocation: the type declarations' bindings
/// followed by the attribute groups' bindings, so that on a collision an
/// attribute group overrides a type and a later declaration an earlier one.
pub open spec fn table_of(types: Seq<DeclarationV>, groups: Seq<DeclarationV>) -> Seq<
    SymbolEntryV,
> {
    entries_of(types) + entries_of(groups)
}

/// The symbol table of one build invocation.
pub struct SymbolTable {
    pub entries: Vec<SymbolEntry>,
}

impl View for SymbolTable {
    type V = Seq<SymbolEntryV>;

    open spec fn view(&self) -> Seq<SymbolEntryV> {
        self.entries.deep_view()
    }
}

impl SymbolTable {
    /// Finds the latest binding of `name`, if any.
    pub fn lookup(&self, name: &str) -> (r: Option<&RecordDecl>)
        ensures
            match r {
                Some(d) => lookup(self@, name@) == Some(d@),
                None => lookup(self@, name@) is None,
            },
    {
        let mut i: usize = self.entries.len();
        proof {
            assert(self@.len() == self.entries@.len());
            assert(self@.take(self@.len() as int) =~= self@);
        }
        while i > 0
            invariant
                0 <= i <= self.entries.len(),
                self@.len() == self.entries.len(),
                lookup(self@, name@) == lookup(self@.take(i as int), name@),
            decreases i,
        {
            i -= 1;
            proof {
                assert(self@.take(i as int + 1).last() == self@[i as int]);
                assert(self@.take(i as int + 1).drop_last() =~= self@.take(i as int));
            }
            if str_eq(self.entries[i].name.as_str(), name) {
                return Some(&self.entries[i].decl);
            }
        }
        proof {
            assert(self@.take(0) =~= Seq::<SymbolEntryV>::empty());
        }
        None
    }
}

/// Appends the bindings of `ds` to `entries`, in order.
fn push_entries(entries: &mut Vec<SymbolEntry>, ds: &Vec<Declaration>)
    ensures
        final(entries).deep_view() == old(entries).deep_view() + entries_of(ds.deep_view()),
{
    let mut i: usize = 0;
    while i < ds.len()
        invariant
            0 <= i <= ds@.len(),
            entries.deep_view() == old(entries).deep_view() + entries_of(
                ds.deep_view().take(i as int),
            ),
        decreases ds@.len() - i,
    {
        let ghost pre: Seq<SymbolEntryV> = entries.deep_view();
        proof {
            assert(ds.deep_view().take(i as int + 1).drop_last() =~= ds.deep_view().take(i as int));
            assert(ds.deep_view().take(i as int + 1).last() == ds@[i as int]@);
        }
        match &ds[i] {
            Declaration::Record(r) => {
                let e = SymbolEntry { name: r.name.clone(), decl: clone_record(r) };
                proof {
                    assert(ds@[i as int]@ matches DeclarationV::Record(rv) && e@
                        == (SymbolEntryV { name: rv.name, decl: rv }));
                }
                entries.push(e);
                proof {
                    assert(forall|j: int| 0 <= j < pre.len() ==> entries.deep_view()[j] == pre[j]);
                    assert(entries.deep_view() =~= pre.push(e@));
                    assert(entries.deep_view() =~= old(entries).deep_view() + entries_of(
                        ds.deep_view().take(i as int + 1),
                    ));
                }
            },
            _ => {
                proof {
                    assert(entries.deep_view() =~= old(entries).deep_view() + entries_of(
                        ds.deep_view().take(i as int + 1),
                    ));
                }
            },
        }
        i += 1;
    }
    proof {
        assert(ds.deep_view().take(ds@.len() as int) =~= ds.deep_view());
    }
}

/// Builds the symbol table of one invocation: every top-level record-shaped
/// type declaration, then every record-shaped attribute-group declaration.
pub fn build_symbol_table(types: &Vec<Declaration>, attribute_groups: &Vec<Declaration>) -> (t:
    SymbolTable)
    ensures
        t@ == table_of(types.deep_view(), attribute_groups.deep_view()),
{
    let mut entries: Vec<SymbolEntry> = Vec::new();
    push_entries(&mut entries, types);
    push_entries(&mut entries, attribute_groups);
    SymbolTable { entries }
}

} // verus!
