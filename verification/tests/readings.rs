//! The generator on answers of the parser that are given by hand, and the
//! answers that the parser gives.

use dissolve_derive::container::ContainerAttributes;
use dissolve_derive::error::{ContainerError, DissolveError, FieldError, OptionError};
use dissolve_derive::field::{
    get_field_info, get_field_info_with, read_renames, DissolvedOption, FieldInfo,
};
use dissolve_derive::generate::{
    generate_dissolve_impl_with, generate_named_struct_impl_with, generate_tuple_struct_impl_with,
    read_named_renames, read_tuple_renames, Dissolved, DissolvedField, TupleElement,
};
use dissolve_derive::reading::{is_readable, MAX_BRACKETS};
use dissolve_derive::syntax::{
    AttrArgs, Attribute, Data, DeriveInput, Field, Fields, Generics, Meta, MetaPath, MetaValue,
    NamedField,
};
use dissolve_derive::visibility::{Visibility, VisibilitySyntax};

type Idents = Vec<Vec<Result<String, String>>>;

fn ident(name: &str) -> MetaPath {
    MetaPath { leading_colon: false, segments: vec![name.to_string()] }
}

fn skip() -> Meta {
    Meta::Path { path: ident("skip") }
}

fn rename(to: &str) -> Meta {
    Meta::NameValue { path: ident("rename"), value: MetaValue::Str(to.to_string()) }
}

fn visibility(text: &str) -> Meta {
    Meta::NameValue { path: ident("visibility"), value: MetaValue::Str(text.to_string()) }
}

fn list(name: &str, entries: Vec<Meta>) -> Attribute {
    Attribute { path: ident(name), args: AttrArgs::List(entries) }
}

fn doc() -> Attribute {
    Attribute { path: ident("doc"), args: AttrArgs::Value }
}

fn field(attrs: Vec<Attribute>) -> Field {
    Field { ty: "u8".to_string(), attrs }
}

fn named(name: &str, attrs: Vec<Attribute>) -> NamedField {
    NamedField { name: name.to_string(), field: field(attrs) }
}

fn no_generics() -> Generics {
    Generics {
        declared: String::new(),
        params: String::new(),
        args: String::new(),
        where_clause: String::new(),
    }
}

fn input(attrs: Vec<Attribute>, data: Data) -> DeriveInput {
    DeriveInput { name: "Subject".to_string(), generics: no_generics(), attrs, data }
}

fn read_as(name: &str) -> Result<String, String> {
    Ok(name.to_string())
}

fn refused(message: &str) -> Result<String, String> {
    Err(message.to_string())
}

fn unread() -> Result<String, String> {
    Err(String::new())
}

fn restricted(word: &str) -> VisibilitySyntax {
    VisibilitySyntax::Restricted { in_token: false, path: ident(word) }
}

fn brackets(count: usize) -> String {
    format!("{}{}", "(".repeat(count), ")".repeat(count))
}

#[test]
fn an_option_follows_the_reading_that_is_given() {
    // The text plays no part once the reading is given.
    assert_eq!(
        DissolvedOption::from_meta_with(&rename("id"), read_as("user_id")),
        Ok(DissolvedOption::Rename("user_id".to_string()))
    );
    assert_eq!(
        DissolvedOption::from_meta_with(&rename("id"), refused("expected identifier")),
        Err(OptionError::InvalidIdent { message: "expected identifier".to_string() })
    );
}

#[test]
fn an_entry_without_a_text_does_not_look_at_the_reading() {
    assert_eq!(DissolvedOption::from_meta_with(&skip(), read_as("x")), Ok(DissolvedOption::Skip));
    assert_eq!(
        DissolvedOption::from_meta_with(&Meta::Path { path: ident("omit") }, read_as("x")),
        Err(OptionError::UnknownOption { path: "omit".to_string() })
    );
    let not_a_string = Meta::NameValue { path: ident("rename"), value: MetaValue::Other };
    assert_eq!(
        DissolvedOption::from_meta_with(&not_a_string, read_as("x")),
        Err(OptionError::RenameNotString)
    );
    assert_eq!(
        DissolvedOption::from_meta_with(&Meta::List { path: ident("rename") }, read_as("x")),
        Err(OptionError::NestedList)
    );
}

#[test]
fn a_decision_follows_the_readings_that_are_given() {
    let subject = field(vec![doc(), list("dissolved", vec![rename("a")])]);
    let readings: Idents = vec![vec![], vec![read_as("first")]];
    assert_eq!(
        get_field_info_with(&subject, &readings),
        Ok(FieldInfo { should_skip: false, renamed_to: Some("first".to_string()) })
    );
    let readings: Idents = vec![vec![], vec![refused("no")]];
    assert_eq!(
        get_field_info_with(&subject, &readings),
        Err(FieldError::Option {
            attr: 1,
            entry: 0,
            error: OptionError::InvalidIdent { message: "no".to_string() },
        })
    );
}

#[test]
fn a_conflict_on_given_readings() {
    let subject = field(vec![list("dissolved", vec![skip(), rename("a")])]);
    let readings: Idents = vec![vec![unread(), read_as("a")]];
    assert_eq!(
        get_field_info_with(&subject, &readings),
        Err(FieldError::RenameOnSkipped { attr: 0 })
    );
    let subject = field(vec![list("dissolved", vec![rename("a"), rename("b")])]);
    let readings: Idents = vec![vec![read_as("a"), read_as("b")]];
    assert_eq!(
        get_field_info_with(&subject, &readings),
        Err(FieldError::DuplicateRename { attr: 0 })
    );
}

#[test]
fn a_text_without_a_reading_counts_as_refused() {
    let subject = field(vec![list("dissolved", vec![rename("a")])]);
    let none: Idents = vec![];
    assert_eq!(
        get_field_info_with(&subject, &none),
        Err(FieldError::Option {
            attr: 0,
            entry: 0,
            error: OptionError::InvalidIdent { message: String::new() },
        })
    );
    let short: Idents = vec![vec![]];
    assert!(get_field_info_with(&subject, &short).is_err());
}

#[test]
fn the_readings_of_a_field_have_a_place_for_each_entry() {
    let subject = field(vec![
        doc(),
        list("dissolved", vec![skip(), rename(" a "), rename("fn")]),
        list("serde", vec![rename("b")]),
        Attribute { path: ident("dissolved"), args: AttrArgs::Bare },
    ]);
    let readings = read_renames(&subject);
    assert_eq!(
        readings,
        vec![
            vec![],
            vec![unread(), read_as("a"), refused("expected identifier, found keyword `fn`")],
            vec![],
            vec![],
        ]
    );
}

#[test]
fn the_readings_of_all_fields() {
    let fields = vec![named("a", vec![list("dissolved", vec![rename("x")])]), named("b", vec![])];
    assert_eq!(read_named_renames(&fields), vec![vec![vec![read_as("x")]], vec![]]);
    let fields = vec![field(vec![]), field(vec![list("dissolved", vec![skip()])])];
    assert_eq!(read_tuple_renames(&fields), vec![vec![], vec![vec![unread()]]]);
}

#[test]
fn the_readings_of_the_attributes_on_the_declaration() {
    let attrs = vec![
        list("dissolve", vec![visibility("pub(crate)"), visibility("pub(in a)"), skip()]),
        list("dissolved", vec![visibility("pub")]),
    ];
    assert_eq!(
        ContainerAttributes::read_visibilities(&attrs),
        vec![
            vec![
                Ok(restricted("crate")),
                Ok(VisibilitySyntax::Restricted { in_token: true, path: ident("a") }),
                Err(String::new()),
            ],
            vec![],
        ]
    );
}

#[test]
fn a_configuration_follows_the_readings_that_are_given() {
    let subject = input(
        vec![doc(), list("dissolve", vec![visibility("anything"), visibility("at all")])],
        Data::Enum,
    );
    let readings = vec![vec![], vec![Ok(VisibilitySyntax::Public), Ok(restricted("super"))]];
    assert_eq!(
        ContainerAttributes::from_derive_input_with(&subject, &readings),
        Ok(ContainerAttributes { visibility: Visibility::Super })
    );
    let readings = vec![vec![], vec![Ok(restricted("friends")), Ok(restricted("super"))]];
    assert_eq!(
        ContainerAttributes::from_derive_input_with(&subject, &readings),
        Err(ContainerError::InvalidVisibility {
            attr: 1,
            entry: 0,
            value: "anything".to_string(),
            message: None,
        })
    );
    let readings = vec![vec![], vec![Ok(VisibilitySyntax::Inherited)]];
    assert_eq!(
        ContainerAttributes::from_derive_input_with(&subject, &readings),
        Err(ContainerError::InvalidVisibility {
            attr: 1,
            entry: 1,
            value: "at all".to_string(),
            message: Some(String::new()),
        })
    );
}

#[test]
fn a_companion_follows_the_readings_that_are_given() {
    let fields = vec![
        named("id", vec![list("dissolved", vec![rename("whatever")])]),
        named("hidden", vec![list("dissolved", vec![skip()])]),
        named("plain", vec![]),
    ];
    let container = ContainerAttributes { visibility: Visibility::Module };
    let renames = vec![vec![vec![read_as("user_id")]], vec![vec![unread()]]];
    let emitted = generate_named_struct_impl_with(
        &"User".to_string(),
        &no_generics(),
        &fields,
        &container,
        &renames,
    )
    .unwrap();
    assert_eq!(emitted.visibility, Visibility::Module);
    match emitted.output {
        Dissolved::Struct(companion) => assert_eq!(
            companion.fields,
            vec![
                DissolvedField {
                    name: "user_id".to_string(),
                    origin: "id".to_string(),
                    ty: "u8".to_string(),
                    source: 0,
                    docs: vec![],
                },
                DissolvedField {
                    name: "plain".to_string(),
                    origin: "plain".to_string(),
                    ty: "u8".to_string(),
                    source: 2,
                    docs: vec![],
                },
            ]
        ),
        Dissolved::Tuple(_) => panic!("a companion struct was expected"),
    }
}

#[test]
fn a_tuple_follows_the_readings_that_are_given() {
    let fields = vec![field(vec![]), field(vec![list("dissolved", vec![rename("x")])])];
    let container = ContainerAttributes { visibility: Visibility::Public };
    let name = "Pair".to_string();
    let read = vec![vec![], vec![vec![read_as("second")]]];
    assert_eq!(
        generate_tuple_struct_impl_with(&name, &no_generics(), &fields, &container, &read),
        Err(DissolveError::RenameOnTupleField { field: 1 })
    );
    let refusing = vec![vec![], vec![vec![refused("no")]]];
    assert_eq!(
        generate_tuple_struct_impl_with(&name, &no_generics(), &fields, &container, &refusing),
        Err(DissolveError::Field {
            field: 1,
            error: FieldError::Option {
                attr: 0,
                entry: 0,
                error: OptionError::InvalidIdent { message: "no".to_string() },
            },
        })
    );
}

#[test]
fn a_declaration_follows_the_readings_that_are_given() {
    let subject = input(
        vec![list("dissolve", vec![visibility("v")])],
        Data::Struct(Fields::Unnamed(vec![
            field(vec![list("dissolved", vec![skip()])]),
            field(vec![]),
        ])),
    );
    let visibilities = vec![vec![Ok(restricted("crate"))]];
    let renames = vec![vec![vec![unread()]], vec![]];
    let emitted = generate_dissolve_impl_with(&subject, &visibilities, &renames).unwrap();
    assert_eq!(emitted.visibility, Visibility::Crate);
    assert_eq!(
        emitted.output,
        Dissolved::Tuple(vec![TupleElement { ty: "u8".to_string(), source: 1 }])
    );
}

#[test]
fn a_unit_struct_is_refused_whatever_was_read() {
    let subject = input(vec![list("dissolve", vec![visibility("v")])], Data::Struct(Fields::Unit));
    let visibilities = vec![vec![Err("refused".to_string())]];
    assert_eq!(
        generate_dissolve_impl_with(&subject, &visibilities, &vec![]),
        Err(DissolveError::UnitStruct { name: "Subject".to_string() })
    );
}

#[test]
fn few_brackets_are_readable() {
    assert!(is_readable(""));
    assert!(is_readable("pub(crate)"));
    assert!(is_readable("a[b]{c}(d) é ü"));
    assert!(is_readable(&brackets(MAX_BRACKETS)));
    assert!(is_readable(&")".repeat(1000)));
}

#[test]
fn many_brackets_are_not_readable() {
    assert!(!is_readable(&brackets(MAX_BRACKETS + 1)));
    assert!(!is_readable(&"[".repeat(MAX_BRACKETS + 1)));
    assert!(!is_readable(&"{(".repeat(17)));
}

#[test]
fn a_text_of_many_brackets_is_refused_unread() {
    let deep = brackets(100_000);
    let subject = field(vec![list("dissolved", vec![rename(&deep)])]);
    assert_eq!(
        get_field_info(&subject),
        Err(FieldError::Option {
            attr: 0,
            entry: 0,
            error: OptionError::InvalidIdent { message: "too many brackets".to_string() },
        })
    );
    let subject = input(vec![list("dissolve", vec![visibility(&deep)])], Data::Enum);
    assert_eq!(
        ContainerAttributes::from_derive_input(&subject),
        Err(ContainerError::InvalidVisibility {
            attr: 0,
            entry: 0,
            value: deep,
            message: Some("too many brackets".to_string()),
        })
    );
}
