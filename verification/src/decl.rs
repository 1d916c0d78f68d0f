//! The declaration tree: the typed input that the engine consumes, together
//! with its mathematical view types.

use vstd::prelude::*;

verus! {

/// A modifier attached to a field declaration. A field carrying `Optional`
/// projects with `required = false`.
#[derive(Clone, Copy, PartialEq, Eq, Structural)]
pub enum Modifier {
    Optional,
    Array,
    Empty,
}

/// A constraint on a scalar declaration. Only the `Pattern` kind matters to
/// the projection; every other facet kind is inert here.
pub enum Facet {
    Pattern(String),
    Other,
}

/// View of a [`Facet`].
pub enum FacetV {
    Pattern(Seq<char>),
    Other,
}

/// One field of a record declaration.
pub struct FieldDecl {
    pub name: String,
    pub ty_name: String,
    pub doc: Option<String>,
    pub modifiers: Vec<Modifier>,
    pub default: Option<String>,
}

/// View of a [`FieldDecl`].
#[verifier::ext_equal]
pub struct FieldDeclV {
    pub name: Seq<char>,
    pub ty_name: Seq<char>,
    pub doc: Option<Seq<char>>,
    pub modifiers: Seq<Modifier>,
    pub default: Option<Seq<char>>,
}

/// A record-shaped declaration: a complex type or an attribute group. It may
/// name a base type whose fields are inherited and attribute groups whose
/// fields are mixed in.
pub struct RecordDecl {
    pub name: String,
    pub doc: Option<String>,
    pub fields: Vec<FieldDecl>,
    pub base: Option<String>,
    pub attribute_groups: Vec<String>,
}

/// View of a [`RecordDecl`].
#[verifier::ext_equal]
pub struct RecordDeclV {
    pub name: Seq<char>,
    pub doc: Option<Seq<char>>,
    pub fields: Seq<FieldDeclV>,
    pub base: Option<Seq<char>>,
    pub attribute_groups: Seq<Seq<char>>,
}

/// A scalar declaration: a simple type narrowed by facets.
pub struct ScalarDecl {
    pub name: String,
    pub doc: Option<String>,
    pub facets: Vec<Facet>,
}

/// View of a [`ScalarDecl`].
#[verifier::ext_equal]
pub struct ScalarDeclV {
    pub name: Seq<char>,
    pub doc: Option<Seq<char>>,
    pub facets: Seq<FacetV>,
}

/// One alternative shape inside a choice group. Only record-shaped subtypes
/// contribute fields to the projection.
pub enum Subtype {
    Record(RecordDecl),
    Other,
}

/// View of a [`Subtype`].
pub enum SubtypeV {
    Record(RecordDeclV),
    Other,
}

/// A choice group: a construct allowing exactly one of several alternative
/// child shapes, with one named case and one subtype per alternative.
pub struct ChoiceGroupDecl {
    pub name: String,
    pub doc: Option<String>,
    pub cases: Vec<String>,
    pub subtypes: Vec<Subtype>,
}

/// View of a [`ChoiceGroupDecl`].
#[verifier::ext_equal]
pub struct ChoiceGroupDeclV {
    pub name: Seq<char>,
    pub doc: Option<Seq<char>>,
    pub cases: Seq<Seq<char>>,
    pub subtypes: Seq<SubtypeV>,
}

/// One top-level declaration of the tree. The kinds without payload (a bare
/// field, an individual case, an alias, an import) carry no structure that
/// this engine reads; they are skipped by resolution and projection.
pub enum Declaration {
    Record(RecordDecl),
    Scalar(ScalarDecl),
    ChoiceGroup(ChoiceGroupDecl),
    Field,
    Case,
    Alias,
    Import,
}

/// View of a [`Declaration`].
pub enum DeclarationV {
    Record(RecordDeclV),
    Scalar(ScalarDeclV),
    ChoiceGroup(ChoiceGroupDeclV),
    Field,
    Case,
    Alias,
    Import,
}

impl View for FieldDecl {
    type V = FieldDeclV;

    open spec fn view(&self) -> FieldDeclV {
        FieldDeclV {
            name: self.name@,
            ty_name: self.ty_name@,
            doc: self.doc.deep_view(),
            modifiers: self.modifiers@,
            default: self.default.deep_view(),
        }
    }
}

impl DeepView for FieldDecl {
    type V = FieldDeclV;

    open spec fn deep_view(&self) -> FieldDeclV {
        self.view()
    }
}

impl View for Facet {
    type V = FacetV;

    open spec fn view(&self) -> FacetV {
        match self {
            Facet::Pattern(p) => FacetV::Pattern(p@),
            Facet::Other => FacetV::Other,
        }
    }
}

impl DeepView for Facet {
    type V = FacetV;

    open spec fn deep_view(&self) -> FacetV {
        self.view()
    }
}

impl View for RecordDecl {
    type V = RecordDeclV;

    open spec fn view(&self) -> RecordDeclV {
        RecordDeclV {
            name: self.name@,
            doc: self.doc.deep_view(),
            fields: self.fields.deep_view(),
            base: self.base.deep_view(),
            attribute_groups: self.attribute_groups.deep_view(),
        }
    }
}

impl DeepView for RecordDecl {
    type V = RecordDeclV;

    open spec fn deep_view(&self) -> RecordDeclV {
        self.view()
    }
}

impl View for ScalarDecl {
    type V = ScalarDeclV;

    open spec fn view(&self) -> ScalarDeclV {
        ScalarDeclV { name: self.name@, doc: self.doc.deep_view(), facets: self.facets.deep_view() }
    }
}

impl DeepView for ScalarDecl {
    type V = ScalarDeclV;

    open spec fn deep_view(&self) -> ScalarDeclV {
        self.view()
    }
}

impl View for Subtype {
    type V = SubtypeV;

    open spec fn view(&self) -> SubtypeV {
        match self {
            Subtype::Record(r) => SubtypeV::Record(r@),
            Subtype::Other => SubtypeV::Other,
        }
    }
}

impl DeepView for Subtype {
    type V = SubtypeV;

    open spec fn deep_view(&self) -> SubtypeV {
        self.view()
    }
}

impl View for ChoiceGroupDecl {
    type V = ChoiceGroupDeclV;

    open spec fn view(&self) -> ChoiceGroupDeclV {
        ChoiceGroupDeclV {
            name: self.name@,
            doc: self.doc.deep_view(),
            cases: self.cases.deep_view(),
            subtypes: self.subtypes.deep_view(),
        }
    }
}

impl DeepView for ChoiceGroupDecl {
    type V = ChoiceGroupDeclV;

    open spec fn deep_view(&self) -> ChoiceGroupDeclV {
        self.view()
    }
}

impl View for Declaration {
    type V = DeclarationV;

    open spec fn view(&self) -> DeclarationV {
        match self {
            Declaration::Record(r) => DeclarationV::Record(r@),
            Declaration::Scalar(s) => DeclarationV::Scalar(s@),
            Declaration::ChoiceGroup(c) => DeclarationV::ChoiceGroup(c@),
            Declaration::Field => DeclarationV::Field,
            Declaration::Case => DeclarationV::Case,
            Declaration::Alias => DeclarationV::Alias,
            Declaration::Import => DeclarationV::Import,
        }
    }
}

impl DeepView for Declaration {
    type V = DeclarationV;

    open spec fn deep_view(&self) -> DeclarationV {
        self.view()
    }
}

/// Copies an optional string.
pub fn clone_opt_string(o: &Option<String>) -> (r: Option<String>)
    ensures
        r.deep_view() == o.deep_view(),
{
    match o {
        Some(s) => Some(s.clone()),
        None => None,
    }
}

/// Copies a list of strings.
pub fn clone_strings(v: &Vec<String>) -> (r: Vec<String>)
    ensures
        r.deep_view() == v.deep_view(),
{
    let mut out: Vec<String> = Vec::new();
    let mut i: usize = 0;
    while i < v.len()
        invariant
            0 <= i <= v@.len(),
            out@.len() == i,
            forall|j: int| 0 <= j < i ==> out@[j]@ == v@[j]@,
        decreases v@.len() - i,
    {
        out.push(v[i].clone());
        i += 1;
    }
    proof {
        assert(out.deep_view() =~= v.deep_view());
    }
    out
}

/// Copies a list of modifiers.
pub fn clone_modifiers(v: &Vec<Modifier>) -> (r: Vec<Modifier>)
    ensures
        r@ == v@,
{
    let mut out: Vec<Modifier> = Vec::new();
    let mut i: usize = 0;
    while i < v.len()
        invariant
            0 <= i <= v.len(),
            out@ =~= v@.take(i as int),
        decreases v.len() - i,
    {
        out.push(v[i]);
        proof {
            assert(out@ =~= v@.take(i as int + 1));
        }
        i += 1;
    }
    proof {
        assert(v@.take(v@.len() as int) =~= v@);
    }
    out
}

/// Copies one field declaration.
pub fn clone_field(f: &FieldDecl) -> (r: FieldDecl)
    ensures
        r@ == f@,
{
    FieldDecl {
        name: f.name.clone(),
        ty_name: f.ty_name.clone(),
        doc: clone_opt_string(&f.doc),
        modifiers: clone_modifiers(&f.modifiers),
        default: clone_opt_string(&f.default),
    }
}

/// Copies a list of field declarations.
pub fn clone_fields(v: &Vec<FieldDecl>) -> (r: Vec<FieldDecl>)
    ensures
        r.deep_view() == v.deep_view(),
{
    let mut out: Vec<FieldDecl> = Vec::new();
    let mut i: usize = 0;
    while i < v.len()
        invariant
            0 <= i <= v@.len(),
            out@.len() == i,
            forall|j: int| 0 <= j < i ==> out@[j]@ == v@[j]@,
        decreases v@.len() - i,
    {
        out.push(clone_field(&v[i]));
        i += 1;
    }
    proof {
        assert(out.deep_view() =~= v.deep_view());
    }
    out
}

/// Copies one record declaration.
pub fn clone_record(r: &RecordDecl) -> (c: RecordDecl)
    ensures
        c@ == r@,
{
    RecordDecl {
        name: r.name.clone(),
        doc: clone_opt_string(&r.doc),
        fields: clone_fields(&r.fields),
        base: clone_opt_string(&r.base),
        attribute_groups: clone_strings(&r.attribute_groups),
    }
}

} // verus!
