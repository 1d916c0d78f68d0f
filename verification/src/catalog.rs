//! The output catalog: the immutable, UI-ready projection of one resolved
//! declaration tree.

use vstd::prelude::*;

verus! {

/// A scalar type of the catalog, with its raw value pattern and, where the
/// pattern denotes a closed enumeration, the list of allowed values.
pub struct SimpleType {
    pub name: String,
    pub doc: Option<String>,
    pub pattern: Option<String>,
    pub options: Option<Vec<String>>,
}

/// View of a [`SimpleType`].
#[verifier::ext_equal]
pub struct SimpleTypeV {
    pub name: Seq<char>,
    pub doc: Option<Seq<char>>,
    pub pattern: Option<Seq<char>>,
    pub options: Option<Seq<Seq<char>>>,
}

/// One projected field of a record type.
pub struct Field {
    pub name: String,
    pub default: Option<String>,
    pub ty_name: String,
    pub doc: Option<String>,
    pub required: bool,
}

/// View of a [`Field`].
#[verifier::ext_equal]
pub struct FieldV {
    pub name: Seq<char>,
    pub default: Option<Seq<char>>,
    pub ty_name: Seq<char>,
    pub doc: Option<Seq<char>>,
    pub required: bool,
}

/// A record type of the catalog: its flattened fields and, for a type derived
/// from a choice group, the ordered list of its variant-tag names.
pub struct ComplexType {
    pub name: String,
    pub doc: Option<String>,
    pub fields: Vec<Field>,
    pub children: Option<Vec<String>>,
}

/// View of a [`ComplexType`].
#[verifier::ext_equal]
pub struct ComplexTypeV {
    pub name: Seq<char>,
    pub doc: Option<Seq<char>>,
    pub fields: Seq<FieldV>,
    pub children: Option<Seq<Seq<char>>>,
}

/// The catalog: every projected scalar type and record type, each list in its
/// documented order.
pub struct XmlSchema {
    pub simple_types: Vec<SimpleType>,
    pub complex_types: Vec<ComplexType>,
}

/// View of an [`XmlSchema`].
#[verifier::ext_equal]
pub struct XmlSchemaV {
    pub simple_types: Seq<SimpleTypeV>,
    pub complex_types: Seq<ComplexTypeV>,
}

impl View for SimpleType {
    type V = SimpleTypeV;

    open spec fn view(&self) -> SimpleTypeV {
        SimpleTypeV {
            name: self.name@,
            doc: self.doc.deep_view(),
            pattern: self.pattern.deep_view(),
            options: self.options.deep_view(),
        }
    }
}

impl DeepView for SimpleType {
    type V = SimpleTypeV;

    open spec fn deep_view(&self) -> SimpleTypeV {
        self.view()
    }
}

impl View for Field {
    type V = FieldV;

    open spec fn view(&self) -> FieldV {
        FieldV {
            name: self.name@,
            default: self.default.deep_view(),
            ty_name: self.ty_name@,
            doc: self.doc.deep_view(),
            required: self.required,
        }
    }
}

impl DeepView for Field {
    type V = FieldV;

    open spec fn deep_view(&self) -> FieldV {
        self.view()
    }
}

impl View for ComplexType {
    type V = ComplexTypeV;

    open spec fn view(&self) -> ComplexTypeV {
        ComplexTypeV {
            name: self.name@,
            doc: self.doc.deep_view(),
            fields: self.fields.deep_view(),
            children: self.children.deep_view(),
        }
    }
}

impl DeepView for ComplexType {
    type V = ComplexTypeV;

    open spec fn deep_view(&self) -> ComplexTypeV {
        self.view()
    }
}

impl View for XmlSchema {
    type V = XmlSchemaV;

    open spec fn view(&self) -> XmlSchemaV {
        XmlSchemaV {
            simple_types: self.simple_types.deep_view(),
            complex_types: self.complex_types.deep_view(),
        }
    }
}

impl DeepView for XmlSchema {
    type V = XmlSchemaV;

    open spec fn deep_view(&self) -> XmlSchemaV {
        self.view()
    }
}

impl XmlSchema {
    /// An empty catalog.
    pub fn new() -> (r: XmlSchema)
        ensures
            r@.simple_types == Seq::<SimpleTypeV>::empty(),
            r@.complex_types == Seq::<ComplexTypeV>::empty(),
    {
        let r = XmlSchema { simple_types: Vec::new(), complex_types: Vec::new() };
        proof {
            assert(r@.simple_types =~= Seq::<SimpleTypeV>::empty());
            assert(r@.complex_types =~= Seq::<ComplexTypeV>::empty());
        }
        r
    }
}

} // verus!
