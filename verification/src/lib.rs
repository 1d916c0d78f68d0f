//! Schema-resolution and projection engine.
//!
//! The crate turns a tree of typed declarations extracted from an XML Schema
//! document into a normalized catalog of type definitions: scalar types with
//! optional value patterns or enumerations, and record types with typed fields
//! and optional polymorphic child variants.
//!
//! The grammar-level walk that produces the declaration tree from raw XML is
//! an external collaborator; this crate starts from the declaration tree. One
//! build invocation owns its tree and symbol table exclusively and returns one
//! immutable catalog; nothing is shared across invocations.

pub mod catalog;
pub mod decl;
pub mod project;
pub mod resolve;
pub mod segy;
pub mod strutil;
pub mod table;

use vstd::prelude::*;

use crate::catalog::{XmlSchema, XmlSchemaV};
use crate::decl::{Declaration, DeclarationV};
use crate::project::{project_schema, project_schema_exec};
use crate::resolve::{resolve_declarations, resolve_decls, CyclicInheritanceError};
use crate::table::{build_symbol_table, table_of};

verus! {

/// The catalog one declaration tree yields, or `None` when some base chain is
/// cyclic: the symbol table is built over the type declarations and attribute
/// groups, every type declaration is resolved once against the read-only
/// table with fuel equal to the table size (enough for any acyclic chain),
/// and the resolved tree is projected.
pub open spec fn catalog_spec(types: Seq<DeclarationV>, groups: Seq<DeclarationV>) -> Option<
    XmlSchemaV,
> {
    let t = table_of(types, groups);
    match resolve_decls(t, types, t.len()) {
        None => None,
        Some(rs) => Some(project_schema(rs)),
    }
}

/// Builds the schema catalog of one declaration tree: symbol table, then
/// inheritance and mixin resolution, then projection. Fails with
/// [`CyclicInheritanceError`], and produces no catalog, exactly when a
/// base-reference chain revisits a declaration on its own resolution path.
pub fn build_catalog(types: &Vec<Declaration>, attribute_groups: &Vec<Declaration>) -> (r: Result<
    XmlSchema,
    CyclicInheritanceError,
>)
    ensures
        (r is Ok) == (catalog_spec(types.deep_view(), attribute_groups.deep_view()) is Some),
        r matches Ok(c) ==> catalog_spec(types.deep_view(), attribute_groups.deep_view()) == Some(
            c@,
        ),
{
    let table = build_symbol_table(types, attribute_groups);
    let fuel = table.entries.len();
    proof {
        assert(table@.len() == table.entries@.len());
    }
    match resolve_declarations(&table, types, fuel) {
        Err(e) => Err(e),
        Ok(resolved) => Ok(project_schema_exec(&resolved)),
    }
}

/// Law: the build is deterministic. Two builds over identical declaration
/// trees produce structurally equal catalogs, because the catalog is a
/// function of the input tree alone.
pub proof fn lemma_build_deterministic(
    types1: Seq<DeclarationV>,
    groups1: Seq<DeclarationV>,
    types2: Seq<DeclarationV>,
    groups2: Seq<DeclarationV>,
)
    requires
        types1 == types2,
        groups1 == groups2,
    ensures
        catalog_spec(types1, groups1) == catalog_spec(types2, groups2),
{
}

} // verus!
