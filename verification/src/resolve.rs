//! Inheritance and mixin resolution. For every record-shaped declaration,
//! top-level or nested inside a choice group, the resolver prepends the base
//! chain's own fields (root-most first) and appends the referenced attribute
//! groups' fields (in reference order). A base or group name absent from the
//! symbol table is tolerated silently: built-in scalar bases are expected to
//! be unindexed. A base chain that revisits a declaration never terminates,
//! so resolution carries fuel equal to the table size: a terminating chain
//! visits pairwise distinct table entries and thus takes at most that many
//! steps, and only a cyclic chain exhausts the fuel, which aborts the whole
//! build with [`CyclicInheritanceError`].

use vstd::prelude::*;

use crate::decl::{
    clone_fields, clone_opt_string, clone_strings, ChoiceGroupDecl, Declaration, DeclarationV,
    FieldDecl, FieldDeclV, RecordDecl, RecordDeclV, Subtype, SubtypeV,
};
use crate::table::{lookup, SymbolEntryV, SymbolTable};

verus! {

/// The build found a base-reference chain that revisits a declaration on its
/// own resolution path; no catalog is produced.
pub struct CyclicInheritanceError;

/// The base chain's contribution to a record's resolved field list: every
/// ancestor's own fields, root-most first. `None` means the fuel ran out
/// while a base still resolved, which at fuel `t.len()` happens exactly on a
/// cyclic chain.
pub open spec fn base_fields(t: Seq<SymbolEntryV>, rec: RecordDeclV, fuel: nat) -> Option<
    Seq<FieldDeclV>,
>
    decreases fuel,
{
    match rec.base {
        None => Some(Seq::empty()),
        Some(b) => match lookup(t, b) {
            None => Some(Seq::empty()),
            Some(bd) => if fuel == 0 {
                None
            } else {
                match base_fields(t, bd, (fuel - 1) as nat) {
                    None => None,
                    Some(bf) => Some(bf + bd.fields),
                }
            },
        },
    }
}

/// The attribute groups' contribution: the referenced groups' own field
/// lists concatenated in reference order, unresolved references dropped.
pub open spec fn group_fields(t: Seq<SymbolEntryV>, refs: Seq<Seq<char>>) -> Seq<FieldDeclV>
    decreases refs.len(),
{
    if refs.len() == 0 {
        Seq::empty()
    } else {
        group_fields(t, refs.drop_last()) + (match lookup(t, refs.last()) {
            Some(gd) => gd.fields,
            None => Seq::empty(),
        })
    }
}

/// One record after resolution: the base chain's own fields, then the
/// record's own fields, then its attribute groups' fields.
pub open spec fn resolved_record(t: Seq<SymbolEntryV>, rec: RecordDeclV, fuel: nat) -> Option<
    RecordDeclV,
> {
    match base_fields(t, rec, fuel) {
        None => None,
        Some(bf) => Some(
            RecordDeclV {
                name: rec.name,
                doc: rec.doc,
                fields: bf + rec.fields + group_fields(t, rec.attribute_groups),
                base: rec.base,
                attribute_groups: rec.attribute_groups,
            },
        ),
    }
}

/// One choice-group subtype after resolution: record-shaped subtypes receive
/// the same treatment as ordinary records, every other kind passes through.
pub open spec fn resolve_subtype(t: Seq<SymbolEntryV>, s: SubtypeV, fuel: nat) -> Option<
    SubtypeV,
> {
    match s {
        SubtypeV::Record(r) => match resolved_record(t, r, fuel) {
            None => None,
            Some(rr) => Some(SubtypeV::Record(rr)),
        },
        SubtypeV::Other => Some(SubtypeV::Other),
    }
}

/// A list of choice-group subtypes after resolution, in order.
pub open spec fn resolve_subtypes(t: Seq<SymbolEntryV>, ss: Seq<SubtypeV>, fuel: nat) -> Option<
    Seq<SubtypeV>,
>
    decreases ss.len(),
{
    if ss.len() == 0 {
        Some(Seq::empty())
    } else {
        match resolve_subtypes(t, ss.drop_last(), fuel) {
            None => None,
            Some(rs) => match resolve_subtype(t, ss.last(), fuel) {
                None => None,
                Some(r) => Some(rs.push(r)),
            },
        }
    }
}

/// One declaration after resolution: records and choice-group subtypes are
/// resolved, every other kind passes through unchanged.
pub open spec fn resolve_decl(t: Seq<SymbolEntryV>, d: DeclarationV, fuel: nat) -> Option<
    DeclarationV,
> {
    match d {
        DeclarationV::Record(r) => match resolved_record(t, r, fuel) {
            None => None,
            Some(rr) => Some(DeclarationV::Record(rr)),
        },
        DeclarationV::ChoiceGroup(cg) => match resolve_subtypes(t, cg.subtypes, fuel) {
            None => None,
            Some(ss) => Some(
                DeclarationV::ChoiceGroup(
                    crate::decl::ChoiceGroupDeclV {
                        name: cg.name,
                        doc: cg.doc,
                        cases: cg.cases,
                        subtypes: ss,
                    },
                ),
            ),
        },
        _ => Some(d),
    }
}

/// The whole declaration list after resolution, in order. `None` means some
/// declaration sits on a cyclic base chain.
pub open spec fn resolve_decls(t: Seq<SymbolEntryV>, ds: Seq<DeclarationV>, fuel: nat) -> Option<
    Seq<DeclarationV>,
>
    decreases ds.len(),
{
    if ds.len() == 0 {
        Some(Seq::empty())
    } else {
        match resolve_decls(t, ds.drop_last(), fuel) {
            None => None,
            Some(rs) => match resolve_decl(t, ds.last(), fuel) {
                None => None,
                Some(r) => Some(rs.push(r)),
            },
        }
    }
}

/// Resolves the base chain of `rec` against the read-only symbol table,
/// returning the ancestors' own fields root-most first, or the cycle error
/// when the fuel runs out while a base still resolves.
pub fn resolve_base_fields(table: &SymbolTable, rec: &RecordDecl, fuel: usize) -> (r: Result<
    Vec<FieldDecl>,
    CyclicInheritanceError,
>)
    ensures
        match r {
            Ok(fs) => base_fields(table@, rec@, fuel as nat) == Some(fs.deep_view()),
            Err(_) => base_fields(table@, rec@, fuel as nat) is None,
        },
    decreases fuel,
{
    match &rec.base {
        None => Ok(Vec::new()),
        Some(b) => match table.lookup(b.as_str()) {
            None => Ok(Vec::new()),
            Some(bd) => {
                if fuel == 0 {
                    Err(CyclicInheritanceError)
                } else {
                    match resolve_base_fields(table, bd, fuel - 1) {
                        Err(e) => Err(e),
                        Ok(mut bf) => {
                            let ghost bfv = bf.deep_view();
                            let mut own = clone_fields(&bd.fields);
                            let ghost ownv = own.deep_view();
                            bf.append(&mut own);
                            proof {
                                assert(bf.deep_view() =~= bfv + ownv);
                            }
                            Ok(bf)
                        },
                    }
                }
            },
        },
    }
}

/// Appends the referenced attribute groups' fields, in reference order,
/// dropping unresolved references.
pub fn resolve_group_fields(table: &SymbolTable, refs: &Vec<String>) -> (r: Vec<FieldDecl>)
    ensures
        r.deep_view() == group_fields(table@, refs.deep_view()),
{
    let mut out: Vec<FieldDecl> = Vec::new();
    let mut i: usize = 0;
    while i < refs.len()
        invariant
            0 <= i <= refs@.len(),
            out.deep_view() == group_fields(table@, refs.deep_view().take(i as int)),
        decreases refs@.len() - i,
    {
        let ghost pre = out.deep_view();
        proof {
            assert(refs.deep_view().take(i as int + 1).drop_last() =~= refs.deep_view().take(
                i as int,
            ));
            assert(refs.deep_view().take(i as int + 1).last() == refs@[i as int]@);
        }
        match table.lookup(refs[i].as_str()) {
            Some(gd) => {
                let mut gf = clone_fields(&gd.fields);
                let ghost gfv = gf.deep_view();
                out.append(&mut gf);
                proof {
                    assert(out.deep_view() =~= pre + gfv);
                }
            },
            None => {
                proof {
                    assert(out.deep_view() =~= pre + Seq::<FieldDeclV>::empty());
                }
            },
        }
        i += 1;
    }
    proof {
        assert(refs.deep_view().take(refs@.len() as int) =~= refs.deep_view());
    }
    out
}

/// Resolves one record: base chain first, then its own fields, then its
/// attribute groups' fields.
pub fn resolve_record(table: &SymbolTable, rec: &RecordDecl, fuel: usize) -> (r: Result<
    RecordDecl,
    CyclicInheritanceError,
>)
    ensures
        match r {
            Ok(rr) => resolved_record(table@, rec@, fuel as nat) == Some(rr@),
            Err(_) => resolved_record(table@, rec@, fuel as nat) is None,
        },
{
    match resolve_base_fields(table, rec, fuel) {
        Err(e) => Err(e),
        Ok(mut fs) => {
            let ghost bfv = fs.deep_view();
            let mut own = clone_fields(&rec.fields);
            let ghost ownv = own.deep_view();
            fs.append(&mut own);
            let mut gf = resolve_group_fields(table, &rec.attribute_groups);
            let ghost gfv = gf.deep_view();
            fs.append(&mut gf);
            proof {
                assert(fs.deep_view() =~= bfv + ownv + gfv);
            }
            Ok(
                RecordDecl {
                    name: rec.name.clone(),
                    doc: clone_opt_string(&rec.doc),
                    fields: fs,
                    base: clone_opt_string(&rec.base),
                    attribute_groups: clone_strings(&rec.attribute_groups),
                },
            )
        },
    }
}

/// Resolves every subtype of a choice group, in order.
fn resolve_subtypes_exec(table: &SymbolTable, ss: &Vec<Subtype>, fuel: usize) -> (r: Result<
    Vec<Subtype>,
    CyclicInheritanceError,
>)
    ensures
        match r {
            Ok(out) => resolve_subtypes(table@, ss.deep_view(), fuel as nat) == Some(
                out.deep_view(),
            ),
            Err(_) => resolve_subtypes(table@, ss.deep_view(), fuel as nat) is None,
        },
{
    let mut out: Vec<Subtype> = Vec::new();
    let mut i: usize = 0;
    while i < ss.len()
        invariant
            0 <= i <= ss@.len(),
            resolve_subtypes(table@, ss.deep_view().take(i as int), fuel as nat) == Some(
                out.deep_view(),
            ),
        decreases ss@.len() - i,
    {
        let ghost pre = out.deep_view();
        proof {
            assert(ss.deep_view().take(i as int + 1).drop_last() =~= ss.deep_view().take(i as int));
            assert(ss.deep_view().take(i as int + 1).last() == ss@[i as int]@);
        }
        match &ss[i] {
            Subtype::Record(r) => {
                match resolve_record(table, r, fuel) {
                    Err(e) => {
                        proof {
                            lemma_resolve_subtypes_element_none(
                                table@,
                                ss.deep_view(),
                                fuel as nat,
                                i as int,
                            );
                        }
                        return Err(e);
                    },
                    Ok(rr) => {
                        let e = Subtype::Record(rr);
                        proof {
                            assert(e@ == SubtypeV::Record(rr@));
                        }
                        out.push(e);
                        proof {
                            assert(forall|j: int|
                                0 <= j < pre.len() ==> out.deep_view()[j] == pre[j]);
                            assert(out.deep_view() =~= pre.push(e@));
                        }
                    },
                }
            },
            Subtype::Other => {
                out.push(Subtype::Other);
                proof {
                    assert(forall|j: int| 0 <= j < pre.len() ==> out.deep_view()[j] == pre[j]);
                    assert(out.deep_view() =~= pre.push(SubtypeV::Other));
                }
            },
        }
        i += 1;
    }
    proof {
        assert(ss.deep_view().take(ss@.len() as int) =~= ss.deep_view());
    }
    Ok(out)
}

/// A subtype on a cyclic chain poisons the whole subtype list.
proof fn lemma_resolve_subtypes_element_none(
    t: Seq<SymbolEntryV>,
    ss: Seq<SubtypeV>,
    fuel: nat,
    j: int,
)
    requires
        0 <= j < ss.len(),
        resolve_subtype(t, ss[j], fuel) is None,
    ensures
        resolve_subtypes(t, ss, fuel) is None,
    decreases ss.len(),
{
    if ss.len() > 0 {
        if j == ss.len() - 1 {
        } else {
            assert(ss.drop_last()[j] == ss[j]);
            lemma_resolve_subtypes_element_none(t, ss.drop_last(), fuel, j);
        }
    }
}

/// A declaration on a cyclic chain poisons the whole declaration list.
proof fn lemma_resolve_decls_element_none(
    t: Seq<SymbolEntryV>,
    ds: Seq<DeclarationV>,
    fuel: nat,
    j: int,
)
    requires
        0 <= j < ds.len(),
        resolve_decl(t, ds[j], fuel) is None,
    ensures
        resolve_decls(t, ds, fuel) is None,
    decreases ds.len(),
{
    if ds.len() > 0 {
        if j == ds.len() - 1 {
        } else {
            assert(ds.drop_last()[j] == ds[j]);
            lemma_resolve_decls_element_none(t, ds.drop_last(), fuel, j);
        }
    }
}

/// Resolves every top-level declaration against the table, in order. This
/// phase runs exactly once per declaration per invocation: each output is
/// computed from the unresolved input alone, so already-resolved fields are
/// never duplicated.
pub fn resolve_declarations(table: &SymbolTable, types: &Vec<Declaration>, fuel: usize) -> (r:
    Result<Vec<Declaration>, CyclicInheritanceError>)
    ensures
        match r {
            Ok(out) => resolve_decls(table@, types.deep_view(), fuel as nat) == Some(
                out.deep_view(),
            ),
            Err(_) => resolve_decls(table@, types.deep_view(), fuel as nat) is None,
        },
{
    let mut out: Vec<Declaration> = Vec::new();
    let mut i: usize = 0;
    while i < types.len()
        invariant
            0 <= i <= types@.len(),
            resolve_decls(table@, types.deep_view().take(i as int), fuel as nat) == Some(
                out.deep_view(),
            ),
        decreases types@.len() - i,
    {
        let ghost pre = out.deep_view();
        proof {
            assert(types.deep_view().take(i as int + 1).drop_last() =~= types.deep_view().take(
                i as int,
            ));
            assert(types.deep_view().take(i as int + 1).last() == types@[i as int]@);
        }
        match &types[i] {
            Declaration::Record(r) => {
                match resolve_record(table, r, fuel) {
                    Err(e) => {
                        proof {
                            lemma_resolve_decls_element_none(
                                table@,
                                types.deep_view(),
                                fuel as nat,
                                i as int,
                            );
                        }
                        return Err(e);
                    },
                    Ok(rr) => {
                        let d = Declaration::Record(rr);
                        out.push(d);
                        proof {
                            assert(forall|j: int|
                                0 <= j < pre.len() ==> out.deep_view()[j] == pre[j]);
                            assert(out.deep_view() =~= pre.push(DeclarationV::Record(rr@)));
                        }
                    },
                }
            },
            Declaration::ChoiceGroup(cg) => {
                match resolve_subtypes_exec(table, &cg.subtypes, fuel) {
                    Err(e) => {
                        proof {
                            lemma_resolve_decls_element_none(
                                table@,
                                types.deep_view(),
                                fuel as nat,
                                i as int,
                            );
                        }
                        return Err(e);
                    },
                    Ok(ss) => {
                        let d = Declaration::ChoiceGroup(
                            ChoiceGroupDecl {
                                name: cg.name.clone(),
                                doc: clone_opt_string(&cg.doc),
                                cases: clone_strings(&cg.cases),
                                subtypes: ss,
                            },
                        );
                        let ghost dv = d@;
                        out.push(d);
                        proof {
                            assert(forall|j: int|
                                0 <= j < pre.len() ==> out.deep_view()[j] == pre[j]);
                            assert(out.deep_view() =~= pre.push(dv));
                        }
                    },
                }
            },
            Declaration::Scalar(s) => {
                let d = Declaration::Scalar(
                    crate::decl::ScalarDecl {
                        name: s.name.clone(),
                        doc: clone_opt_string(&s.doc),
                        facets: clone_facets(&s.facets),
                    },
                );
                let ghost dv = d@;
                out.push(d);
                proof {
                    assert(dv == types@[i as int]@);
                    assert(forall|j: int| 0 <= j < pre.len() ==> out.deep_view()[j] == pre[j]);
                    assert(out.deep_view() =~= pre.push(dv));
                }
            },
            Declaration::Field => {
                out.push(Declaration::Field);
                proof {
                    assert(forall|j: int| 0 <= j < pre.len() ==> out.deep_view()[j] == pre[j]);
                    assert(out.deep_view() =~= pre.push(DeclarationV::Field));
                }
            },
            Declaration::Case => {
                out.push(Declaration::Case);
                proof {
                    assert(forall|j: int| 0 <= j < pre.len() ==> out.deep_view()[j] == pre[j]);
                    assert(out.deep_view() =~= pre.push(DeclarationV::Case));
                }
            },
            Declaration::Alias => {
                out.push(Declaration::Alias);
                proof {
                    assert(forall|j: int| 0 <= j < pre.len() ==> out.deep_view()[j] == pre[j]);
                    assert(out.deep_view() =~= pre.push(DeclarationV::Alias));
                }
            },
            Declaration::Import => {
                out.push(Declaration::Import);
                proof {
                    assert(forall|j: int| 0 <= j < pre.len() ==> out.deep_view()[j] == pre[j]);
                    assert(out.deep_view() =~= pre.push(DeclarationV::Import));
                }
            },
        }
        i += 1;
    }
    proof {
        assert(types.deep_view().take(types@.len() as int) =~= types.deep_view());
    }
    Ok(out)
}

/// The ancestor chain of `rec`: the records its base chain reaches through
/// the table, root-most first. `None` means the fuel ran out while a base
/// still resolved.
pub open spec fn ancestor_chain(t: Seq<SymbolEntryV>, rec: RecordDeclV, fuel: nat) -> Option<
    Seq<RecordDeclV>,
>
    decreases fuel,
{
    match rec.base {
        None => Some(Seq::empty()),
        Some(b) => match lookup(t, b) {
            None => Some(Seq::empty()),
            Some(bd) => if fuel == 0 {
                None
            } else {
                match ancestor_chain(t, bd, (fuel - 1) as nat) {
                    None => None,
                    Some(ch) => Some(ch.push(bd)),
                }
            },
        },
    }
}

/// The concatenation of each chain member's own fields, in chain order.
pub open spec fn chain_own_fields(ch: Seq<RecordDeclV>) -> Seq<FieldDeclV>
    decreases ch.len(),
{
    if ch.len() == 0 {
        Seq::empty()
    } else {
        chain_own_fields(ch.drop_last()) + ch.last().fields
    }
}

/// Law: the base chain's contribution to a record equals the concatenation
/// of each ancestor's own fields, root-most first, and it exists exactly
/// when the ancestor chain does.
pub proof fn lemma_base_fields_are_ancestor_own_fields(
    t: Seq<SymbolEntryV>,
    rec: RecordDeclV,
    fuel: nat,
)
    ensures
        (base_fields(t, rec, fuel) is Some) == (ancestor_chain(t, rec, fuel) is Some),
        base_fields(t, rec, fuel) matches Some(bf) ==> (ancestor_chain(t, rec, fuel) matches Some(
            ch,
        ) && bf == chain_own_fields(ch)),
    decreases fuel,
{
    match rec.base {
        None => {},
        Some(b) => {
            match lookup(t, b) {
                None => {},
                Some(bd) => {
                    if fuel > 0 {
                        lemma_base_fields_are_ancestor_own_fields(t, bd, (fuel - 1) as nat);
                        match ancestor_chain(t, bd, (fuel - 1) as nat) {
                            None => {},
                            Some(ch) => {
                                assert(ch.push(bd).drop_last() =~= ch);
                                assert(ch.push(bd).last() == bd);
                            },
                        }
                    }
                },
            }
        },
    }
}

/// Law: a record with a resolvable ancestor chain resolves to exactly the
/// chain's own fields (root-most first), then the record's own fields, then
/// its attribute groups' fields.
pub proof fn lemma_resolution_concatenates_chain(t: Seq<SymbolEntryV>, rec: RecordDeclV, fuel: nat)
    ensures
        resolved_record(t, rec, fuel) matches Some(r) ==> (ancestor_chain(t, rec, fuel) matches Some(
            ch,
        ) && r.fields == chain_own_fields(ch) + rec.fields + group_fields(
            t,
            rec.attribute_groups,
        )),
{
    lemma_base_fields_are_ancestor_own_fields(t, rec, fuel);
}

/// Law: for a record that references no attribute groups, the resolved field
/// list is exactly the concatenation of each ancestor's own fields, root-most
/// first, followed by the record's own fields.
pub proof fn lemma_resolution_chain_without_groups(
    t: Seq<SymbolEntryV>,
    rec: RecordDeclV,
    fuel: nat,
)
    requires
        rec.attribute_groups.len() == 0,
    ensures
        resolved_record(t, rec, fuel) matches Some(r) ==> (ancestor_chain(t, rec, fuel) matches Some(
            ch,
        ) && r.fields == chain_own_fields(ch) + rec.fields),
{
    lemma_resolution_concatenates_chain(t, rec, fuel);
    assert(group_fields(t, rec.attribute_groups) == Seq::<FieldDeclV>::empty());
    match resolved_record(t, rec, fuel) {
        None => {},
        Some(r) => {
            match ancestor_chain(t, rec, fuel) {
                None => {},
                Some(ch) => {
                    assert(chain_own_fields(ch) + rec.fields + Seq::<FieldDeclV>::empty()
                        =~= chain_own_fields(ch) + rec.fields);
                },
            }
        },
    }
}

/// Law: attribute-group fields stand strictly after every base-chain field
/// and after the record's own fields, group after group in reference order:
/// each further reference contributes its fields at the very end.
pub proof fn lemma_group_fields_reference_order(
    t: Seq<SymbolEntryV>,
    refs: Seq<Seq<char>>,
    g: Seq<char>,
)
    ensures
        group_fields(t, refs.push(g)) == group_fields(t, refs) + (match lookup(t, g) {
            Some(gd) => gd.fields,
            None => Seq::<FieldDeclV>::empty(),
        }),
{
    assert(refs.push(g).drop_last() =~= refs);
    assert(refs.push(g).last() == g);
}

/// Law: resolution is one-shot. A record that inherits nothing and mixes in
/// nothing passes through with its field list unchanged; every resolved field
/// list is computed from the unresolved input alone, so resolving a tree once
/// through the public entry point never duplicates fields.
pub proof fn lemma_resolution_one_shot(t: Seq<SymbolEntryV>, rec: RecordDeclV, fuel: nat)
    requires
        rec.base is None,
        rec.attribute_groups.len() == 0,
    ensures
        resolved_record(t, rec, fuel) == Some(rec),
{
    assert(group_fields(t, rec.attribute_groups) == Seq::<FieldDeclV>::empty());
    assert(Seq::<FieldDeclV>::empty() + rec.fields + Seq::<FieldDeclV>::empty() =~= rec.fields);
    match resolved_record(t, rec, fuel) {
        None => {
            assert(false);
        },
        Some(r) => {
            assert(r =~= rec);
        },
    }
}

/// Law: a record that names itself as its base never resolves, at any fuel:
/// on a cyclic chain the error is inevitable, not an artifact of the fuel
/// the build chooses.
pub proof fn lemma_self_cycle_never_resolves(
    t: Seq<SymbolEntryV>,
    rec: RecordDeclV,
    n: Seq<char>,
    fuel: nat,
)
    requires
        rec.base == Some(n),
        lookup(t, n) == Some(rec),
    ensures
        base_fields(t, rec, fuel) is None,
    decreases fuel,
{
    if fuel > 0 {
        lemma_self_cycle_never_resolves(t, rec, n, (fuel - 1) as nat);
    }
}

/// Law: two records whose bases resolve to each other never resolve, at any
/// fuel.
pub proof fn lemma_mutual_cycle_never_resolves(
    t: Seq<SymbolEntryV>,
    a: RecordDeclV,
    na: Seq<char>,
    b: RecordDeclV,
    nb: Seq<char>,
    fuel: nat,
)
    requires
        a.base == Some(nb),
        lookup(t, nb) == Some(b),
        b.base == Some(na),
        lookup(t, na) == Some(a),
    ensures
        base_fields(t, a, fuel) is None,
    decreases fuel,
{
    if fuel > 0 {
        lemma_mutual_cycle_never_resolves(t, b, nb, a, na, (fuel - 1) as nat);
    }
}

/// Copies a list of facets.
fn clone_facets(v: &Vec<crate::decl::Facet>) -> (r: Vec<crate::decl::Facet>)
    ensures
        r.deep_view() == v.deep_view(),
{
    let mut out: Vec<crate::decl::Facet> = Vec::new();
    let mut i: usize = 0;
    while i < v.len()
        invariant
            0 <= i <= v@.len(),
            out@.len() == i,
            forall|j: int| 0 <= j < i ==> out@[j]@ == v@[j]@,
        decreases v@.len() - i,
    {
        match &v[i] {
            crate::decl::Facet::Pattern(p) => {
                out.push(crate::decl::Facet::Pattern(p.clone()));
            },
            crate::decl::Facet::Other => {
                out.push(crate::decl::Facet::Other);
            },
        }
        i += 1;
    }
    proof {
        assert(out.deep_view() =~= v.deep_view());
    }
    out
}

} // verus!
