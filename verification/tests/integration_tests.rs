//! Whole declarations through the generator: what is emitted for each, and
//! what the emitted `dissolve` hands out for a given value.

use std::collections::HashMap;

use dissolve_derive::generate::{generate_dissolve_impl, Dissolved, DissolveImpl};
use dissolve_derive::syntax::{
    AttrArgs, Attribute, Data, DeriveInput, Field, Fields, Generics, Meta, MetaPath, MetaValue,
    NamedField,
};
use dissolve_derive::visibility::Visibility;

/// A value of a field, of whichever type the test needs.
#[derive(Debug, Clone, PartialEq)]
enum Value {
    Text(String),
    Int(i64),
    Bool(bool),
    Float(f64),
    Maybe(Option<String>),
    List(Vec<i32>),
    Array([i32; 10]),
    Lists(HashMap<String, Vec<i32>>),
    Names(HashMap<u64, String>),
}

fn text(s: &str) -> Value {
    Value::Text(s.to_string())
}

fn ident(name: &str) -> MetaPath {
    MetaPath { leading_colon: false, segments: vec![name.to_string()] }
}

fn list(name: &str, entries: Vec<Meta>) -> Attribute {
    Attribute { path: ident(name), args: AttrArgs::List(entries) }
}

fn skip() -> Attribute {
    list("dissolved", vec![Meta::Path { path: ident("skip") }])
}

fn rename(to: &str) -> Attribute {
    list(
        "dissolved",
        vec![Meta::NameValue { path: ident("rename"), value: MetaValue::Str(to.to_string()) }],
    )
}

fn visibility(spec: &str) -> Attribute {
    list(
        "dissolve",
        vec![Meta::NameValue { path: ident("visibility"), value: MetaValue::Str(spec.to_string()) }],
    )
}

fn named(name: &str, ty: &str, attrs: Vec<Attribute>) -> NamedField {
    NamedField { name: name.to_string(), field: Field { ty: ty.to_string(), attrs } }
}

fn unnamed(ty: &str, attrs: Vec<Attribute>) -> Field {
    Field { ty: ty.to_string(), attrs }
}

fn no_generics() -> Generics {
    Generics {
        declared: String::new(),
        params: String::new(),
        args: String::new(),
        where_clause: String::new(),
    }
}

fn generics(params: &str, args: &str, where_clause: &str) -> Generics {
    Generics {
        declared: params.to_string(),
        params: params.to_string(),
        args: args.to_string(),
        where_clause: where_clause.to_string(),
    }
}

fn declaration(name: &str, generics: Generics, attrs: Vec<Attribute>, fields: Fields) -> DeriveInput {
    DeriveInput { name: name.to_string(), generics, attrs, data: Data::Struct(fields) }
}

/// What the emitted `dissolve` hands out for the value `record`, given as the
/// values of the declaration's fields in order: for a companion struct its
/// fields by name, for a tuple its elements, named by their position in it.
fn dissolve(emitted: &DissolveImpl, record: Vec<Value>) -> Vec<(String, Value)> {
    match &emitted.output {
        Dissolved::Struct(companion) => companion
            .fields
            .iter()
            .map(|field| (field.name.clone(), record[field.source].clone()))
            .collect(),
        Dissolved::Tuple(elements) => elements
            .iter()
            .enumerate()
            .map(|(at, element)| (at.to_string(), record[element.source].clone()))
            .collect(),
    }
}

fn companion_fields(emitted: &DissolveImpl) -> Vec<(String, String)> {
    match &emitted.output {
        Dissolved::Struct(companion) => {
            companion.fields.iter().map(|f| (f.name.clone(), f.ty.clone())).collect()
        },
        Dissolved::Tuple(_) => panic!("a companion struct was expected"),
    }
}

fn tuple_types(emitted: &DissolveImpl) -> Vec<String> {
    match &emitted.output {
        Dissolved::Tuple(elements) => elements.iter().map(|e| e.ty.clone()).collect(),
        Dissolved::Struct(_) => panic!("a tuple was expected"),
    }
}

fn pair(name: &str, value: Value) -> (String, Value) {
    (name.to_string(), value)
}

fn field(name: &str, ty: &str) -> (String, String) {
    (name.to_string(), ty.to_string())
}

#[test]
fn test_basic_dissolve() {
    let input = declaration(
        "Basic",
        no_generics(),
        vec![],
        Fields::Named(vec![named("name", "String", vec![]), named("age", "u32", vec![])]),
    );

    let emitted = generate_dissolve_impl(&input).unwrap();
    let dissolved = dissolve(&emitted, vec![text("alice"), Value::Int(30)]);

    assert_eq!(dissolved[0], pair("name", text("alice")));
    assert_eq!(dissolved[1], pair("age", Value::Int(30)));
    assert_eq!(dissolved.len(), 2);
    assert_eq!(companion_fields(&emitted), vec![field("name", "String"), field("age", "u32")]);
    assert_eq!(emitted.struct_name, "Basic");
    match &emitted.output {
        Dissolved::Struct(companion) => assert_eq!(companion.name, "BasicDissolved"),
        Dissolved::Tuple(_) => panic!("a companion struct was expected"),
    }
}

#[test]
fn test_skip_field() {
    let input = declaration(
        "WithSkip",
        no_generics(),
        vec![],
        Fields::Named(vec![
            named("name", "String", vec![]),
            named("password", "String", vec![skip()]),
        ]),
    );

    let emitted = generate_dissolve_impl(&input).unwrap();
    let dissolved = dissolve(&emitted, vec![text("bob"), text("secret")]);

    assert_eq!(dissolved, vec![pair("name", text("bob"))]);
    assert_eq!(companion_fields(&emitted), vec![field("name", "String")]);
}

#[test]
fn test_rename_field() {
    let input = declaration(
        "WithRename",
        no_generics(),
        vec![],
        Fields::Named(vec![
            named("name", "String", vec![rename("full_name")]),
            named("email", "String", vec![rename("email_address")]),
        ]),
    );

    let emitted = generate_dissolve_impl(&input).unwrap();
    let dissolved = dissolve(&emitted, vec![text("charlie"), text("charlie@example.com")]);

    assert_eq!(dissolved[0], pair("full_name", text("charlie")));
    assert_eq!(dissolved[1], pair("email_address", text("charlie@example.com")));
    assert_eq!(dissolved.len(), 2);
}

#[test]
fn test_complex_struct() {
    let input = declaration(
        "Complex",
        no_generics(),
        vec![],
        Fields::Named(vec![
            named("id", "u64", vec![]),
            named("name", "String", vec![rename("user_name")]),
            named("password_hash", "String", vec![skip()]),
            named("email", "Option < String >", vec![]),
        ]),
    );

    let emitted = generate_dissolve_impl(&input).unwrap();
    let dissolved = dissolve(
        &emitted,
        vec![
            Value::Int(123),
            text("dave"),
            text("hash123"),
            Value::Maybe(Some("dave@example.com".to_string())),
        ],
    );

    assert_eq!(dissolved[0], pair("id", Value::Int(123)));
    assert_eq!(dissolved[1], pair("user_name", text("dave")));
    assert_eq!(dissolved[2], pair("email", Value::Maybe(Some("dave@example.com".to_string()))));
    assert_eq!(dissolved.len(), 3);
}

#[test]
fn test_tuple_struct() {
    let input = declaration(
        "MultiField",
        no_generics(),
        vec![],
        Fields::Unnamed(vec![
            unnamed("String", vec![]),
            unnamed("i32", vec![]),
            unnamed("bool", vec![skip()]),
        ]),
    );

    let emitted = generate_dissolve_impl(&input).unwrap();
    let dissolved = dissolve(&emitted, vec![text("test"), Value::Int(42), Value::Bool(true)]);

    assert_eq!(dissolved[0], pair("0", text("test")));
    assert_eq!(dissolved[1], pair("1", Value::Int(42)));
    assert_eq!(dissolved.len(), 2);
    assert_eq!(tuple_types(&emitted), vec!["String".to_string(), "i32".to_string()]);
}

#[test]
fn test_single_field_tuple_after_skip() {
    let input = declaration(
        "SingleField",
        no_generics(),
        vec![],
        Fields::Unnamed(vec![unnamed("String", vec![skip()]), unnamed("i32", vec![])]),
    );

    let emitted = generate_dissolve_impl(&input).unwrap();
    let dissolved = dissolve(&emitted, vec![text("skipped"), Value::Int(100)]);

    assert_eq!(dissolved, vec![pair("0", Value::Int(100))]);
    // Still a tuple, of one element, and that element is field 1.
    match &emitted.output {
        Dissolved::Tuple(elements) => {
            assert_eq!(elements.len(), 1);
            assert_eq!(elements[0].ty, "i32");
            assert_eq!(elements[0].source, 1);
        },
        Dissolved::Struct(_) => panic!("a tuple was expected"),
    }
}

#[test]
fn test_nested_types() {
    let input = declaration(
        "WithComplexTypes",
        no_generics(),
        vec![],
        Fields::Named(vec![
            named("data", "HashMap < String , Vec < i32 > >", vec![rename("user_data")]),
            named("internal_map", "HashMap < u64 , String >", vec![skip()]),
        ]),
    );
    let data = HashMap::from([
        ("key1".to_string(), vec![1, 2, 3]),
        ("key2".to_string(), vec![42, 1729]),
    ]);
    let internal_map = HashMap::from([(1, "value".to_string())]);

    let emitted = generate_dissolve_impl(&input).unwrap();
    let dissolved =
        dissolve(&emitted, vec![Value::Lists(data.clone()), Value::Names(internal_map)]);

    assert_eq!(dissolved, vec![pair("user_data", Value::Lists(data))]);
    assert_eq!(
        companion_fields(&emitted),
        vec![field("user_data", "HashMap < String , Vec < i32 > >")]
    );
}

#[test]
fn test_generic_struct() {
    let input = declaration(
        "GenericStruct",
        generics("< T >", "< T >", ""),
        vec![],
        Fields::Named(vec![
            named("first_field", "String", vec![]),
            named("second_field", "u32", vec![]),
            named("extra", "T", vec![]),
        ]),
    );

    let emitted = generate_dissolve_impl(&input).unwrap();
    let dissolved =
        dissolve(&emitted, vec![text("test"), Value::Int(42), Value::Array([1729; 10])]);

    assert_eq!(dissolved[0], pair("first_field", text("test")));
    assert_eq!(dissolved[1], pair("second_field", Value::Int(42)));
    assert_eq!(dissolved[2], pair("extra", Value::Array([1729; 10])));
    assert_eq!(emitted.generics, generics("< T >", "< T >", ""));
}

#[test]
fn test_multiple_generics() {
    let input = declaration(
        "MultiGeneric",
        generics("< T , U >", "< T , U >", ""),
        vec![],
        Fields::Named(vec![named("value_t", "T", vec![]), named("value_u", "U", vec![])]),
    );

    let emitted = generate_dissolve_impl(&input).unwrap();
    let dissolved = dissolve(&emitted, vec![text("hello"), Value::Int(42)]);

    assert_eq!(dissolved[0], pair("value_t", text("hello")));
    assert_eq!(dissolved[1], pair("value_u", Value::Int(42)));
    assert_eq!(emitted.generics, generics("< T , U >", "< T , U >", ""));
}

#[test]
fn test_generic_with_lifetime() {
    let input = declaration(
        "WithLifetime",
        generics("< 'a >", "< 'a >", ""),
        vec![],
        Fields::Named(vec![named("data", "& 'a str", vec![]), named("count", "usize", vec![])]),
    );

    let emitted = generate_dissolve_impl(&input).unwrap();
    let dissolved = dissolve(&emitted, vec![text("borrowed"), Value::Int(5)]);

    assert_eq!(dissolved[0], pair("data", text("borrowed")));
    assert_eq!(dissolved[1], pair("count", Value::Int(5)));
    assert_eq!(companion_fields(&emitted), vec![field("data", "& 'a str"), field("count", "usize")]);
}

#[test]
fn test_generic_with_where_clause() {
    let input = declaration(
        "WithWhereClause",
        generics("< T >", "< T >", "where T : Clone"),
        vec![],
        Fields::Named(vec![named("value", "T", vec![]), named("name", "String", vec![])]),
    );

    let emitted = generate_dissolve_impl(&input).unwrap();
    let dissolved = dissolve(&emitted, vec![Value::List(vec![1, 2, 3]), text("series")]);

    assert_eq!(dissolved[0], pair("value", Value::List(vec![1, 2, 3])));
    assert_eq!(dissolved[1], pair("name", text("series")));
    assert_eq!(emitted.generics.where_clause, "where T : Clone");
}

#[test]
fn test_visibility_pub_crate() {
    let input = declaration(
        "VisibilityCrate",
        no_generics(),
        vec![visibility("pub(crate)")],
        Fields::Named(vec![named("data", "String", vec![])]),
    );

    let emitted = generate_dissolve_impl(&input).unwrap();
    let dissolved = dissolve(&emitted, vec![text("test")]);

    assert_eq!(dissolved, vec![pair("data", text("test"))]);
    assert_eq!(emitted.visibility, Visibility::Crate);
}

#[test]
fn test_visibility_pub_super() {
    let input = declaration(
        "VisibilitySuper",
        no_generics(),
        vec![visibility("pub(super)")],
        Fields::Named(vec![named("value", "i32", vec![])]),
    );

    let emitted = generate_dissolve_impl(&input).unwrap();
    let dissolved = dissolve(&emitted, vec![Value::Int(42)]);

    assert_eq!(dissolved, vec![pair("value", Value::Int(42))]);
    assert_eq!(emitted.visibility, Visibility::Super);
}

#[test]
fn test_visibility_pub_self() {
    let input = declaration(
        "VisibilitySelf",
        no_generics(),
        vec![visibility("pub(self)")],
        Fields::Named(vec![named("name", "String", vec![])]),
    );

    let emitted = generate_dissolve_impl(&input).unwrap();
    let dissolved = dissolve(&emitted, vec![text("private")]);

    assert_eq!(dissolved, vec![pair("name", text("private"))]);
    assert_eq!(emitted.visibility, Visibility::Module);
}

#[test]
fn test_visibility_private() {
    let input = declaration(
        "VisibilityPrivate",
        no_generics(),
        vec![visibility("")],
        Fields::Named(vec![named("secret", "u64", vec![])]),
    );

    let emitted = generate_dissolve_impl(&input).unwrap();
    let dissolved = dissolve(&emitted, vec![Value::Int(123456)]);

    assert_eq!(dissolved, vec![pair("secret", Value::Int(123456))]);
    assert_eq!(emitted.visibility, Visibility::Inherited);
}

#[test]
fn test_visibility_default_pub() {
    // Without a visibility attribute the method is `pub`.
    let input = declaration(
        "DefaultVisibility",
        no_generics(),
        vec![],
        Fields::Named(vec![named("field", "String", vec![])]),
    );

    let emitted = generate_dissolve_impl(&input).unwrap();
    let dissolved = dissolve(&emitted, vec![text("public")]);

    assert_eq!(dissolved, vec![pair("field", text("public"))]);
    assert_eq!(emitted.visibility, Visibility::Public);
}

#[test]
fn test_visibility_with_skip_and_rename() {
    let input = declaration(
        "VisibilityWithAttributes",
        no_generics(),
        vec![visibility("pub(crate)")],
        Fields::Named(vec![
            named("original_field", "String", vec![rename("renamed_field")]),
            named("hidden", "bool", vec![skip()]),
            named("normal", "i32", vec![]),
        ]),
    );

    let emitted = generate_dissolve_impl(&input).unwrap();
    let dissolved = dissolve(&emitted, vec![text("value"), Value::Bool(true), Value::Int(99)]);

    assert_eq!(dissolved[0], pair("renamed_field", text("value")));
    assert_eq!(dissolved[1], pair("normal", Value::Int(99)));
    assert_eq!(dissolved.len(), 2);
    assert_eq!(emitted.visibility, Visibility::Crate);
}

#[test]
fn test_visibility_tuple_struct() {
    let input = declaration(
        "VisibilityTuple",
        no_generics(),
        vec![visibility("pub(crate)")],
        Fields::Unnamed(vec![
            unnamed("String", vec![]),
            unnamed("i32", vec![]),
            unnamed("f64", vec![skip()]),
        ]),
    );

    let emitted = generate_dissolve_impl(&input).unwrap();
    let dissolved = dissolve(
        &emitted,
        vec![text("tuple"), Value::Int(42), Value::Float(std::f64::consts::PI)],
    );

    assert_eq!(dissolved[0], pair("0", text("tuple")));
    assert_eq!(dissolved[1], pair("1", Value::Int(42)));
    assert_eq!(dissolved.len(), 2);
    assert_eq!(emitted.visibility, Visibility::Crate);
}

#[test]
fn test_visibility_with_generics() {
    let input = declaration(
        "VisibilityGeneric",
        generics("< T >", "< T >", ""),
        vec![visibility("pub(crate)")],
        Fields::Named(vec![named("value", "T", vec![]), named("count", "usize", vec![])]),
    );

    let emitted = generate_dissolve_impl(&input).unwrap();
    let dissolved = dissolve(&emitted, vec![Value::List(vec![1, 2, 3]), Value::Int(3)]);

    assert_eq!(dissolved[0], pair("value", Value::List(vec![1, 2, 3])));
    assert_eq!(dissolved[1], pair("count", Value::Int(3)));
    assert_eq!(emitted.visibility, Visibility::Crate);
    assert_eq!(emitted.generics, generics("< T >", "< T >", ""));
}
