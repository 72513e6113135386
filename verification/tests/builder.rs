use getset_builder::builder::{derive_builder, derive_builder_function};
use getset_builder::declaration::{Attribute, Body, Declaration, Field, Generics};
use getset_builder::fragment::{BuilderFragment, Method, MethodKind, WrapperType};

fn member(name: &str, ty: &str, markers: &[&str]) -> Field {
    Field {
        name: name.to_string(),
        ty: ty.to_string(),
        attrs: markers.iter().map(|m| Attribute::ident(m)).collect(),
    }
}

fn parameters(impl_generics: &str, type_generics: &str, where_clause: &str) -> Generics {
    Generics {
        impl_generics: impl_generics.to_string(),
        type_generics: type_generics.to_string(),
        where_clause: where_clause.to_string(),
    }
}

fn declared(visibility: &str, name: &str, body: Body) -> Declaration {
    Declaration {
        visibility: visibility.to_string(),
        name: name.to_string(),
        generics: parameters("", "", ""),
        body,
    }
}

fn generated(kind: MethodKind, name: &str, field: &str, ty: &str) -> Method {
    Method { kind, name: name.to_string(), field: field.to_string(), ty: ty.to_string() }
}

fn method_names(fragment: &BuilderFragment) -> Vec<String> {
    fragment.implementation.methods.iter().map(|m| m.name.clone()).collect()
}

#[test]
fn point_builder_has_build_x_and_y() {
    let point = declared(
        "pub",
        "Point",
        Body::Named(vec![member("x", "i32", &["all"]), member("y", "i32", &["get"])]),
    );
    let fragment = derive_builder(&point);
    assert_eq!(
        fragment.wrapper,
        WrapperType {
            visibility: "pub".to_string(),
            name: "PointBuilder".to_string(),
            generics: parameters("", "", ""),
            wrapped: "Point".to_string(),
        }
    );
    assert_eq!(fragment.implementation.target, "PointBuilder");
    assert_eq!(
        fragment.implementation.methods,
        vec![
            generated(MethodKind::BuilderFinalizer, "build", "", "Point"),
            generated(MethodKind::BuilderSetter, "x", "x", "i32"),
            generated(MethodKind::BuilderSetter, "y", "y", "i32"),
        ]
    );
}

#[test]
fn builder_function_ignores_markers() {
    let expected = generated(MethodKind::BuilderSetter, "size", "size", "usize");
    assert_eq!(derive_builder_function(&member("size", "usize", &[])), expected);
    assert_eq!(derive_builder_function(&member("size", "usize", &["get"])), expected);
    assert_eq!(derive_builder_function(&member("size", "usize", &["set"])), expected);
    assert_eq!(derive_builder_function(&member("size", "usize", &["all"])), expected);
    assert_eq!(derive_builder_function(&member("size", "usize", &["doc"])), expected);
}

#[test]
fn builder_has_one_setter_for_every_field_and_one_finalizer() {
    let decl = declared(
        "",
        "Config",
        Body::Named(vec![
            member("host", "String", &[]),
            member("port", "u16", &["get"]),
            member("tls", "bool", &["all"]),
            member("retries", "u32", &["set", "get"]),
        ]),
    );
    let fragment = derive_builder(&decl);
    assert_eq!(method_names(&fragment), vec!["build", "host", "port", "tls", "retries"]);
    let kinds: Vec<MethodKind> = fragment.implementation.methods.iter().map(|m| m.kind).collect();
    assert_eq!(
        kinds,
        vec![
            MethodKind::BuilderFinalizer,
            MethodKind::BuilderSetter,
            MethodKind::BuilderSetter,
            MethodKind::BuilderSetter,
            MethodKind::BuilderSetter,
        ]
    );
}

#[test]
fn builder_of_marked_and_unmarked_fields_is_the_same() {
    let marked = declared(
        "pub",
        "P",
        Body::Named(vec![member("x", "i32", &["all"]), member("y", "i32", &["get"])]),
    );
    let unmarked = declared(
        "pub",
        "P",
        Body::Named(vec![member("x", "i32", &[]), member("y", "i32", &[])]),
    );
    assert_eq!(derive_builder(&marked), derive_builder(&unmarked));
}

#[test]
fn builder_of_a_struct_without_fields_has_only_the_finalizer() {
    let fragment = derive_builder(&declared("pub", "Empty", Body::Named(vec![])));
    assert_eq!(fragment.wrapper.name, "EmptyBuilder");
    assert_eq!(
        fragment.implementation.methods,
        vec![generated(MethodKind::BuilderFinalizer, "build", "", "Empty")]
    );
}

#[test]
fn builder_setters_follow_declaration_order() {
    let forward = declared(
        "",
        "T",
        Body::Named(vec![member("a", "u8", &[]), member("b", "u8", &[]), member("c", "u8", &[])]),
    );
    let backward = declared(
        "",
        "T",
        Body::Named(vec![member("c", "u8", &[]), member("b", "u8", &[]), member("a", "u8", &[])]),
    );
    assert_eq!(method_names(&derive_builder(&forward)), vec!["build", "a", "b", "c"]);
    assert_eq!(method_names(&derive_builder(&backward)), vec!["build", "c", "b", "a"]);
}

#[test]
fn builder_matches_the_visibility_of_the_declaration() {
    let private = derive_builder(&declared("", "T", Body::Named(vec![])));
    assert_eq!(private.wrapper.visibility, "");
    let restricted = derive_builder(&declared("pub(crate)", "T", Body::Named(vec![])));
    assert_eq!(restricted.wrapper.visibility, "pub(crate)");
}

#[test]
fn builder_carries_the_generics_on_the_type_and_on_the_block() {
    let mut decl = declared("pub", "Pair", Body::Named(vec![member("left", "T", &[])]));
    decl.generics = parameters("<T: Clone>", "<T>", "where T: Default");
    let fragment = derive_builder(&decl);
    assert_eq!(fragment.wrapper.generics, parameters("<T: Clone>", "<T>", "where T: Default"));
    assert_eq!(fragment.wrapper.wrapped, "Pair");
    assert_eq!(
        fragment.implementation.generics,
        parameters("<T: Clone>", "<T>", "where T: Default")
    );
    assert_eq!(
        fragment.implementation.methods[0],
        generated(MethodKind::BuilderFinalizer, "build", "", "Pair<T>")
    );
}

#[test]
fn builder_generator_gives_the_same_output_twice() {
    let decl = declared(
        "pub",
        "Point",
        Body::Named(vec![member("x", "i32", &["all"]), member("y", "i32", &["get"])]),
    );
    let first = derive_builder(&decl);
    let second = derive_builder(&decl);
    assert_eq!(first, second);
    assert_eq!(first.render().into_bytes(), second.render().into_bytes());
}
