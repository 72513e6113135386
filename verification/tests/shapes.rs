use getset_builder::declaration::{Attribute, Body, Declaration, Field, Generics};
use getset_builder::shape::{get_fields, has_attribute, unsupported_shape, UnsupportedShape};

fn path(leading_colon: bool, segments: &[&str]) -> Attribute {
    Attribute { leading_colon, segments: segments.iter().map(|s| s.to_string()).collect() }
}

fn field_with(attrs: Vec<Attribute>) -> Field {
    Field { name: "x".to_string(), ty: "i32".to_string(), attrs }
}

fn declaration(body: Body) -> Declaration {
    Declaration {
        visibility: "pub".to_string(),
        name: "Shape".to_string(),
        generics: Generics {
            impl_generics: String::new(),
            type_generics: String::new(),
            where_clause: String::new(),
        },
        body,
    }
}

#[test]
fn attribute_ident_is_a_single_segment_without_leading_colon() {
    let attr = Attribute::ident("get");
    assert_eq!(attr, path(false, &["get"]));
    assert!(attr.is_ident("get"));
    assert!(!attr.is_ident("set"));
    assert!(!attr.is_ident("ge"));
    assert!(!attr.is_ident("gett"));
}

#[test]
fn has_attribute_finds_each_marker_by_its_exact_name() {
    let field = field_with(vec![Attribute::ident("get")]);
    assert!(has_attribute(&field, "get"));
    assert!(!has_attribute(&field, "set"));
    assert!(!has_attribute(&field, "all"));
}

#[test]
fn has_attribute_is_false_without_annotations() {
    let field = field_with(vec![]);
    assert!(!has_attribute(&field, "get"));
    assert!(!has_attribute(&field, "set"));
    assert!(!has_attribute(&field, "all"));
}

#[test]
fn has_attribute_looks_at_every_annotation() {
    let field = field_with(vec![
        Attribute::ident("doc"),
        path(false, &["serde", "rename"]),
        Attribute::ident("set"),
    ]);
    assert!(has_attribute(&field, "set"));
    assert!(has_attribute(&field, "doc"));
    assert!(!has_attribute(&field, "get"));
}

#[test]
fn has_attribute_does_not_match_a_prefix_or_a_longer_name() {
    let field = field_with(vec![Attribute::ident("getter"), Attribute::ident("ge")]);
    assert!(!has_attribute(&field, "get"));
    assert!(has_attribute(&field, "getter"));
}

#[test]
fn has_attribute_is_case_sensitive() {
    let field = field_with(vec![Attribute::ident("Get"), Attribute::ident("ALL")]);
    assert!(!has_attribute(&field, "get"));
    assert!(!has_attribute(&field, "all"));
}

#[test]
fn has_attribute_does_not_match_a_longer_path() {
    let field = field_with(vec![path(false, &["markers", "get"]), path(false, &["get", "all"])]);
    assert!(!has_attribute(&field, "get"));
    assert!(!has_attribute(&field, "all"));
    assert!(!has_attribute(&field, "markers"));
}

#[test]
fn has_attribute_does_not_match_a_path_with_leading_colon() {
    let field = field_with(vec![path(true, &["get"])]);
    assert!(!has_attribute(&field, "get"));
}

#[test]
fn has_attribute_does_not_match_an_empty_path() {
    let field = field_with(vec![path(false, &[])]);
    assert!(!has_attribute(&field, ""));
    assert!(!has_attribute(&field, "get"));
}

#[test]
fn get_fields_returns_named_fields_in_declaration_order() {
    let fields = vec![
        Field { name: "b".to_string(), ty: "u8".to_string(), attrs: vec![] },
        Field { name: "a".to_string(), ty: "String".to_string(), attrs: vec![Attribute::ident("all")] },
        Field { name: "c".to_string(), ty: "bool".to_string(), attrs: vec![] },
    ];
    let decl = declaration(Body::Named(fields.clone()));
    assert_eq!(unsupported_shape(&decl), None);
    assert_eq!(get_fields(&decl), &fields);
}

#[test]
fn get_fields_accepts_a_struct_with_braces_and_no_fields() {
    let decl = declaration(Body::Named(vec![]));
    assert_eq!(unsupported_shape(&decl), None);
    assert!(get_fields(&decl).is_empty());
}

#[test]
fn shape_test_passes_a_struct_with_named_fields() {
    let fields = vec![Field { name: "a".to_string(), ty: "u8".to_string(), attrs: vec![] }];
    assert_eq!(unsupported_shape(&declaration(Body::Named(fields))), None);
}

#[test]
fn shape_test_rejects_an_enum() {
    assert_eq!(unsupported_shape(&declaration(Body::Enum)), Some(UnsupportedShape::NotAStruct));
}

#[test]
fn shape_test_rejects_a_union() {
    assert_eq!(unsupported_shape(&declaration(Body::Union)), Some(UnsupportedShape::NotAStruct));
}

#[test]
fn shape_test_rejects_a_tuple_struct() {
    assert_eq!(
        unsupported_shape(&declaration(Body::Unnamed)),
        Some(UnsupportedShape::UnnamedFields)
    );
}

#[test]
fn shape_test_rejects_a_unit_struct() {
    assert_eq!(unsupported_shape(&declaration(Body::Unit)), Some(UnsupportedShape::UnnamedFields));
}

#[test]
fn shape_test_gives_the_diagnostic_of_each_cause() {
    let text = |body: Body| unsupported_shape(&declaration(body)).map(|shape| shape.message());
    assert_eq!(text(Body::Enum), Some("Can't derive functions from a non-struct".to_string()));
    assert_eq!(text(Body::Union), Some("Can't derive functions from a non-struct".to_string()));
    assert_eq!(text(Body::Unnamed), Some("Can't derive functions from unnamed fields".to_string()));
    assert_eq!(text(Body::Unit), Some("Can't derive functions from unnamed fields".to_string()));
    assert_eq!(text(Body::Named(vec![])), None);
}

#[test]
fn unsupported_shape_messages() {
    assert_eq!(UnsupportedShape::NotAStruct.message(), "Can't derive functions from a non-struct");
    assert_eq!(
        UnsupportedShape::UnnamedFields.message(),
        "Can't derive functions from unnamed fields"
    );
}
