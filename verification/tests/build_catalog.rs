//! End-to-end tests of the catalog builder: inheritance resolution, mixin
//! inlining, cycle detection, and determinism.

use commons_rs::build_catalog;
use commons_rs::decl::{Declaration, FieldDecl, RecordDecl};

fn field(name: &str, ty: &str) -> FieldDecl {
    FieldDecl {
        name: name.to_string(),
        ty_name: ty.to_string(),
        doc: None,
        modifiers: Vec::new(),
        default: None,
    }
}

fn record(name: &str, fields: Vec<FieldDecl>, base: Option<&str>) -> RecordDecl {
    RecordDecl {
        name: name.to_string(),
        doc: None,
        fields,
        base: base.map(|b| b.to_string()),
        attribute_groups: Vec::new(),
    }
}

#[test]
fn three_level_chain_concatenates_rootmost_first() {
    // Grandparent -> Parent -> Leaf: resolved fields of Leaf are the
    // grandparent's own fields, then the parent's, then the leaf's.
    let types = vec![
        Declaration::Record(record("Grandparent", vec![field("g", "int")], None)),
        Declaration::Record(record("Parent", vec![field("p", "int")], Some("Grandparent"))),
        Declaration::Record(record("Leaf", vec![field("l", "int")], Some("Parent"))),
    ];
    let catalog = build_catalog(&types, &Vec::new()).ok().unwrap();
    assert_eq!(catalog.complex_types.len(), 3);
    let leaf = &catalog.complex_types[2];
    assert_eq!(leaf.name, "Leaf");
    let names: Vec<&str> = leaf.fields.iter().map(|f| f.name.as_str()).collect();
    assert_eq!(names, vec!["g", "p", "l"]);
    let parent = &catalog.complex_types[1];
    let names: Vec<&str> = parent.fields.iter().map(|f| f.name.as_str()).collect();
    assert_eq!(names, vec!["g", "p"]);
}

#[test]
fn attribute_groups_append_after_base_chain_in_reference_order() {
    let mut rec = record("Child", vec![field("own", "int")], Some("Base"));
    rec.attribute_groups = vec!["GroupB".to_string(), "GroupA".to_string()];
    let types = vec![
        Declaration::Record(record("Base", vec![field("inherited", "int")], None)),
        Declaration::Record(rec),
    ];
    let groups = vec![
        Declaration::Record(record("GroupA", vec![field("a", "int")], None)),
        Declaration::Record(record("GroupB", vec![field("b", "int")], None)),
    ];
    let catalog = build_catalog(&types, &groups).ok().unwrap();
    let child = &catalog.complex_types[1];
    assert_eq!(child.name, "Child");
    let names: Vec<&str> = child.fields.iter().map(|f| f.name.as_str()).collect();
    assert_eq!(names, vec!["inherited", "own", "b", "a"]);
}

#[test]
fn unresolved_base_leaves_fields_unchanged() {
    // A base that names a built-in type is absent from the table; this is
    // not an error and the record's fields stay as declared.
    let types = vec![Declaration::Record(record(
        "Plain",
        vec![field("x", "int")],
        Some("xsd:string"),
    ))];
    let catalog = build_catalog(&types, &Vec::new()).ok().unwrap();
    let plain = &catalog.complex_types[0];
    assert_eq!(plain.fields.len(), 1);
    assert_eq!(plain.fields[0].name, "x");
}

#[test]
fn unresolved_attribute_group_is_silently_dropped() {
    let mut rec = record("Child", vec![field("own", "int")], None);
    rec.attribute_groups = vec!["Missing".to_string()];
    let types = vec![Declaration::Record(rec)];
    let catalog = build_catalog(&types, &Vec::new()).ok().unwrap();
    let child = &catalog.complex_types[0];
    let names: Vec<&str> = child.fields.iter().map(|f| f.name.as_str()).collect();
    assert_eq!(names, vec!["own"]);
}

#[test]
fn resolution_is_one_shot_and_never_duplicates() {
    // One invocation resolves each declaration exactly once: the base's
    // fields appear exactly once in the child, whatever order the table
    // holds the declarations in.
    let types = vec![
        Declaration::Record(record("Child", vec![field("own", "int")], Some("Base"))),
        Declaration::Record(record("Base", vec![field("inherited", "int")], None)),
    ];
    let catalog = build_catalog(&types, &Vec::new()).ok().unwrap();
    let child = &catalog.complex_types[0];
    let names: Vec<&str> = child.fields.iter().map(|f| f.name.as_str()).collect();
    assert_eq!(names, vec!["inherited", "own"]);
    let base = &catalog.complex_types[1];
    let names: Vec<&str> = base.fields.iter().map(|f| f.name.as_str()).collect();
    assert_eq!(names, vec!["inherited"]);
}

#[test]
fn two_element_base_cycle_fails_with_cyclic_inheritance_error() {
    let types = vec![
        Declaration::Record(record("A", vec![field("a", "int")], Some("B"))),
        Declaration::Record(record("B", vec![field("b", "int")], Some("A"))),
    ];
    let result = build_catalog(&types, &Vec::new());
    assert!(result.is_err());
}

#[test]
fn self_cycle_fails() {
    let types = vec![Declaration::Record(record("A", vec![field("a", "int")], Some("A")))];
    let result = build_catalog(&types, &Vec::new());
    assert!(result.is_err());
}

#[test]
fn identical_inputs_build_structurally_equal_catalogs() {
    let make = || {
        vec![
            Declaration::Record(record("Base", vec![field("inherited", "int")], None)),
            Declaration::Record(record("Child", vec![field("own", "int")], Some("Base"))),
        ]
    };
    let c1 = build_catalog(&make(), &Vec::new()).ok().unwrap();
    let c2 = build_catalog(&make(), &Vec::new()).ok().unwrap();
    assert_eq!(c1.simple_types.len(), c2.simple_types.len());
    assert_eq!(c1.complex_types.len(), c2.complex_types.len());
    for (a, b) in c1.complex_types.iter().zip(c2.complex_types.iter()) {
        assert_eq!(a.name, b.name);
        assert_eq!(a.doc, b.doc);
        assert_eq!(a.children, b.children);
        assert_eq!(a.fields.len(), b.fields.len());
        for (fa, fb) in a.fields.iter().zip(b.fields.iter()) {
            assert_eq!(fa.name, fb.name);
            assert_eq!(fa.ty_name, fb.ty_name);
            assert_eq!(fa.doc, fb.doc);
            assert_eq!(fa.default, fb.default);
            assert_eq!(fa.required, fb.required);
        }
    }
}

#[test]
fn name_collision_later_declaration_wins() {
    // Two declarations named "Base": the child inherits from the later one.
    let types = vec![
        Declaration::Record(record("Base", vec![field("first", "int")], None)),
        Declaration::Record(record("Base", vec![field("second", "int")], None)),
        Declaration::Record(record("Child", vec![field("own", "int")], Some("Base"))),
    ];
    let catalog = build_catalog(&types, &Vec::new()).ok().unwrap();
    let child = &catalog.complex_types[2];
    let names: Vec<&str> = child.fields.iter().map(|f| f.name.as_str()).collect();
    assert_eq!(names, vec!["second", "own"]);
}

#[test]
fn empty_tree_builds_empty_catalog() {
    let catalog = build_catalog(&Vec::new(), &Vec::new()).ok().unwrap();
    assert_eq!(catalog.simple_types.len(), 0);
    assert_eq!(catalog.complex_types.len(), 0);
}
