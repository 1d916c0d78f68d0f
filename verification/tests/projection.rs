//! Tests of the projection: the pattern-enumeration heuristic, choice-group
//! flattening, naming conventions, field modifiers, and output ordering.

use commons_rs::build_catalog;
use commons_rs::decl::{
    ChoiceGroupDecl, Declaration, Facet, FieldDecl, Modifier, RecordDecl, ScalarDecl, Subtype,
};
use commons_rs::project::{project_field_exec, project_scalar_exec};

fn field(name: &str, ty: &str) -> FieldDecl {
    FieldDecl {
        name: name.to_string(),
        ty_name: ty.to_string(),
        doc: None,
        modifiers: Vec::new(),
        default: None,
    }
}

fn record(name: &str, fields: Vec<FieldDecl>) -> RecordDecl {
    RecordDecl { name: name.to_string(), doc: None, fields, base: None, attribute_groups: Vec::new() }
}

fn scalar(name: &str, pattern: &str) -> ScalarDecl {
    ScalarDecl {
        name: name.to_string(),
        doc: None,
        facets: vec![Facet::Pattern(pattern.to_string())],
    }
}

#[test]
fn plain_alternation_becomes_enumeration() {
    let s = project_scalar_exec(&scalar("Mode", "foo|bar|baz"));
    assert_eq!(s.pattern.as_deref(), Some("foo|bar|baz"));
    let options = s.options.unwrap();
    assert_eq!(options, vec!["foo".to_string(), "bar".to_string(), "baz".to_string()]);
}

#[test]
fn sentinel_head_is_stripped_before_enumeration() {
    let s = project_scalar_exec(&scalar("Mode", ".*[\\[\\]`$].*|foo|bar"));
    assert_eq!(s.pattern.as_deref(), Some(".*[\\[\\]`$].*|foo|bar"));
    let options = s.options.unwrap();
    assert_eq!(options, vec!["foo".to_string(), "bar".to_string()]);
}

#[test]
fn open_regex_keeps_pattern_and_no_options() {
    let s = project_scalar_exec(&scalar("Word", "[a-z]+"));
    assert_eq!(s.pattern.as_deref(), Some("[a-z]+"));
    assert!(s.options.is_none());
}

#[test]
fn underscores_and_hyphens_are_enumeration_characters() {
    let s = project_scalar_exec(&scalar("Kind", "a_b|c-d|E2"));
    let options = s.options.unwrap();
    assert_eq!(options, vec!["a_b".to_string(), "c-d".to_string(), "E2".to_string()]);
}

#[test]
fn scalar_without_pattern_facet_has_neither() {
    let s = project_scalar_exec(&ScalarDecl {
        name: "Bare".to_string(),
        doc: None,
        facets: vec![Facet::Other],
    });
    assert!(s.pattern.is_none());
    assert!(s.options.is_none());
}

#[test]
fn non_alphanumeric_segment_blocks_enumeration() {
    let s = project_scalar_exec(&scalar("Addr", "foo|b@r"));
    assert_eq!(s.pattern.as_deref(), Some("foo|b@r"));
    assert!(s.options.is_none());
}

#[test]
fn later_pattern_facet_overrides_pattern_but_keeps_earlier_enumeration() {
    let s = project_scalar_exec(&ScalarDecl {
        name: "Mixed".to_string(),
        doc: None,
        facets: vec![
            Facet::Pattern("a|b".to_string()),
            Facet::Pattern("[x]+".to_string()),
        ],
    });
    assert_eq!(s.pattern.as_deref(), Some("[x]+"));
    assert_eq!(s.options.unwrap(), vec!["a".to_string(), "b".to_string()]);
}

#[test]
fn optional_modifier_clears_required() {
    let mut f = field("count", "int");
    f.modifiers = vec![Modifier::Optional];
    let out = project_field_exec(&f);
    assert!(!out.required);
    let out = project_field_exec(&field("count", "int"));
    assert!(out.required);
    let mut f = field("count", "int");
    f.modifiers = vec![Modifier::Array];
    let out = project_field_exec(&f);
    assert!(out.required);
}

#[test]
fn doc_prefix_with_field_name_is_stripped() {
    let mut f = field("radius", "real");
    f.doc = Some("radius => the radius of the circle".to_string());
    let out = project_field_exec(&f);
    assert_eq!(out.doc.as_deref(), Some("the radius of the circle"));
    let mut f = field("radius", "real");
    f.doc = Some("a plain comment".to_string());
    let out = project_field_exec(&f);
    assert_eq!(out.doc.as_deref(), Some("a plain comment"));
}

#[test]
fn shape_choice_projects_name_children_and_flattened_fields() {
    let cg = ChoiceGroupDecl {
        name: "ShapeChoice".to_string(),
        doc: None,
        cases: vec!["Circle".to_string(), "Square".to_string()],
        subtypes: vec![
            Subtype::Record(record("Circle", vec![field("radius", "real")])),
            Subtype::Record(record("Square", vec![field("side", "real")])),
        ],
    };
    let types = vec![Declaration::ChoiceGroup(cg)];
    let catalog = build_catalog(&types, &Vec::new()).ok().unwrap();
    assert_eq!(catalog.complex_types.len(), 1);
    let shape = &catalog.complex_types[0];
    assert_eq!(shape.name, "Shape");
    assert_eq!(
        shape.children.as_ref().unwrap(),
        &vec!["Circle".to_string(), "Square".to_string()]
    );
    let names: Vec<&str> = shape.fields.iter().map(|f| f.name.as_str()).collect();
    assert_eq!(names, vec!["radius", "side"]);
}

#[test]
fn choice_group_without_choice_suffix_is_not_projected() {
    let cg = ChoiceGroupDecl {
        name: "ShapeUnion".to_string(),
        doc: None,
        cases: vec!["Circle".to_string()],
        subtypes: vec![Subtype::Record(record("Circle", vec![field("radius", "real")]))],
    };
    let catalog = build_catalog(&vec![Declaration::ChoiceGroup(cg)], &Vec::new()).ok().unwrap();
    assert_eq!(catalog.complex_types.len(), 0);
}

#[test]
fn choice_suffixed_fields_never_appear_in_flattened_lists() {
    let rec = record("Outer", vec![field("plain", "int"), field("InnerChoice", "InnerChoice")]);
    let catalog = build_catalog(&vec![Declaration::Record(rec)], &Vec::new()).ok().unwrap();
    let outer = &catalog.complex_types[0];
    let names: Vec<&str> = outer.fields.iter().map(|f| f.name.as_str()).collect();
    assert_eq!(names, vec!["plain"]);
}

#[test]
fn choice_groups_precede_plain_records_in_parse_order() {
    // Parse order [ChoiceGroup A, PlainRecord B, ChoiceGroup C]: the output
    // lists A, C, then B.
    let a = ChoiceGroupDecl {
        name: "AChoice".to_string(),
        doc: None,
        cases: Vec::new(),
        subtypes: Vec::new(),
    };
    let c = ChoiceGroupDecl {
        name: "CChoice".to_string(),
        doc: None,
        cases: Vec::new(),
        subtypes: Vec::new(),
    };
    let types = vec![
        Declaration::ChoiceGroup(a),
        Declaration::Record(record("B", Vec::new())),
        Declaration::ChoiceGroup(c),
    ];
    let catalog = build_catalog(&types, &Vec::new()).ok().unwrap();
    let names: Vec<&str> = catalog.complex_types.iter().map(|t| t.name.as_str()).collect();
    assert_eq!(names, vec!["A", "C", "B"]);
}

#[test]
fn type_suffix_is_trimmed_from_projected_names() {
    let types = vec![
        Declaration::Record(record("WellboreType", Vec::new())),
        Declaration::ChoiceGroup(ChoiceGroupDecl {
            name: "EventTypeChoice".to_string(),
            doc: None,
            cases: Vec::new(),
            subtypes: Vec::new(),
        }),
    ];
    let catalog = build_catalog(&types, &Vec::new()).ok().unwrap();
    let names: Vec<&str> = catalog.complex_types.iter().map(|t| t.name.as_str()).collect();
    assert_eq!(names, vec!["Event", "Wellbore"]);
}

#[test]
fn repeated_type_suffix_is_fully_trimmed_from_plain_record_names() {
    let types = vec![Declaration::Record(record("FooTypeType", Vec::new()))];
    let catalog = build_catalog(&types, &Vec::new()).ok().unwrap();
    assert_eq!(catalog.complex_types[0].name, "Foo");
}

#[test]
fn choice_group_names_lose_one_choice_and_one_type_suffix_only() {
    let types = vec![Declaration::ChoiceGroup(ChoiceGroupDecl {
        name: "FooTypeTypeChoice".to_string(),
        doc: None,
        cases: Vec::new(),
        subtypes: Vec::new(),
    })];
    let catalog = build_catalog(&types, &Vec::new()).ok().unwrap();
    assert_eq!(catalog.complex_types[0].name, "FooType");
}

#[test]
fn scalars_keep_parse_order_and_their_names() {
    let types = vec![
        Declaration::Scalar(scalar("First", "a|b")),
        Declaration::Record(record("Between", Vec::new())),
        Declaration::Scalar(scalar("SecondType", "[0-9]+")),
    ];
    let catalog = build_catalog(&types, &Vec::new()).ok().unwrap();
    let names: Vec<&str> = catalog.simple_types.iter().map(|t| t.name.as_str()).collect();
    // Scalar names are copied verbatim, no suffix trimming.
    assert_eq!(names, vec!["First", "SecondType"]);
}

#[test]
fn inert_declaration_kinds_are_skipped() {
    let types = vec![
        Declaration::Field,
        Declaration::Case,
        Declaration::Alias,
        Declaration::Import,
    ];
    let catalog = build_catalog(&types, &Vec::new()).ok().unwrap();
    assert_eq!(catalog.simple_types.len(), 0);
    assert_eq!(catalog.complex_types.len(), 0);
}

#[test]
fn nested_choice_subtypes_inherit_like_ordinary_records() {
    // A record nested inside a choice group resolves its base like a
    // top-level record.
    let base = record("Common", vec![field("shared", "int")]);
    let mut circle = record("Circle", vec![field("radius", "real")]);
    circle.base = Some("Common".to_string());
    let cg = ChoiceGroupDecl {
        name: "ShapeChoice".to_string(),
        doc: None,
        cases: vec!["Circle".to_string()],
        subtypes: vec![Subtype::Record(circle)],
    };
    let types = vec![Declaration::Record(base), Declaration::ChoiceGroup(cg)];
    let catalog = build_catalog(&types, &Vec::new()).ok().unwrap();
    let shape = &catalog.complex_types[0];
    assert_eq!(shape.name, "Shape");
    let names: Vec<&str> = shape.fields.iter().map(|f| f.name.as_str()).collect();
    assert_eq!(names, vec!["shared", "radius"]);
}

#[test]
fn empty_pattern_and_empty_segments_count_as_enumeration_values() {
    // Splitting keeps empty segments, and an empty segment passes the
    // character test vacuously.
    let s = project_scalar_exec(&scalar("Odd", "a||b"));
    let options = s.options.unwrap();
    assert_eq!(options, vec!["a".to_string(), "".to_string(), "b".to_string()]);
}
