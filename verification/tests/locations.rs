//! Where each error is reported.

use dissolve_derive::error::{
    ContainerError, DissolveError, FieldError, Location, OptionError, Part,
};
use dissolve_derive::generate::generate_dissolve_impl;
use dissolve_derive::syntax::{
    AttrArgs, Attribute, Data, DeriveInput, Field, Fields, Generics, Meta, MetaPath, MetaValue,
    NamedField,
};

fn ident(name: &str) -> MetaPath {
    MetaPath { leading_colon: false, segments: vec![name.to_string()] }
}

fn on_declaration(attr: usize, part: Part) -> Location {
    Location::Attribute { field: None, attr, part }
}

fn on_field(field: usize, attr: usize, part: Part) -> Location {
    Location::Attribute { field: Some(field), attr, part }
}

fn text(s: &str) -> String {
    s.to_string()
}

#[test]
fn shape_errors_are_at_the_declaration() {
    assert_eq!(DissolveError::UnitStruct { name: text("Marker") }.location(), Location::Declaration);
    assert_eq!(DissolveError::NotAStruct.location(), Location::Declaration);
}

#[test]
fn nothing_left_is_at_the_name() {
    assert_eq!(DissolveError::NoFieldsLeft.location(), Location::Name);
    assert_eq!(DissolveError::NoElementsLeft.location(), Location::Name);
}

#[test]
fn rename_on_a_tuple_field_is_at_the_field() {
    assert_eq!(
        DissolveError::RenameOnTupleField { field: 2 }.location(),
        Location::Field { field: 2 }
    );
}

#[test]
fn container_errors_are_in_the_attributes_of_the_declaration() {
    let syntax = ContainerError::Syntax { attr: 1, message: text("expected `,`") };
    assert_eq!(syntax.location(), on_declaration(1, Part::Arguments));
    let invalid = ContainerError::InvalidVisibility {
        attr: 0,
        entry: 2,
        value: text("public"),
        message: Some(text("unexpected token")),
    };
    assert_eq!(invalid.location(), on_declaration(0, Part::Value { entry: 2 }));
    assert_eq!(
        ContainerError::VisibilityNotString { attr: 3, entry: 0 }.location(),
        on_declaration(3, Part::Value { entry: 0 })
    );
    assert_eq!(
        ContainerError::UnknownOption { attr: 0, entry: 1, name: text("vis") }.location(),
        on_declaration(0, Part::Path { entry: 1 })
    );
    assert_eq!(
        ContainerError::NotNameValue { attr: 2, entry: 1 }.location(),
        on_declaration(2, Part::Entry { entry: 1 })
    );
    assert_eq!(ContainerError::NotAList { attr: 4 }.location(), on_declaration(4, Part::Whole));
    assert_eq!(
        DissolveError::Container(ContainerError::NotAList { attr: 4 }).location(),
        on_declaration(4, Part::Whole)
    );
}

#[test]
fn field_errors_are_in_the_attributes_of_the_field() {
    let syntax = FieldError::Syntax { attr: 1, message: text("expected `,`") };
    assert_eq!(syntax.location(5), on_field(5, 1, Part::Arguments));
    assert_eq!(FieldError::RenameOnSkipped { attr: 2 }.location(0), on_field(0, 2, Part::Whole));
    assert_eq!(FieldError::DuplicateRename { attr: 0 }.location(1), on_field(1, 0, Part::Whole));
    assert_eq!(FieldError::MissingOptions { attr: 3 }.location(2), on_field(2, 3, Part::Whole));
    assert_eq!(FieldError::NotAList { attr: 1 }.location(3), on_field(3, 1, Part::Whole));
    assert_eq!(
        DissolveError::Field { field: 7, error: FieldError::NotAList { attr: 1 } }.location(),
        on_field(7, 1, Part::Whole)
    );
}

#[test]
fn option_errors_are_at_a_part_of_the_entry() {
    assert_eq!(
        OptionError::UnknownOption { path: text("omit") }.location(3),
        Part::Path { entry: 3 }
    );
    assert_eq!(OptionError::RenameNotString.location(1), Part::Value { entry: 1 });
    assert_eq!(OptionError::NestedList.location(0), Part::Entry { entry: 0 });
    assert_eq!(
        OptionError::InvalidIdent { message: text("expected identifier") }.location(2),
        Part::Value { entry: 2 }
    );

    let unknown = FieldError::Option {
        attr: 1,
        entry: 3,
        error: OptionError::UnknownOption { path: text("omit") },
    };
    assert_eq!(unknown.location(4), on_field(4, 1, Part::Path { entry: 3 }));
}

#[test]
fn a_text_that_is_no_identifier_is_at_the_literal() {
    let invalid = FieldError::Option {
        attr: 1,
        entry: 0,
        error: OptionError::InvalidIdent { message: text("expected identifier") },
    };
    assert_eq!(invalid.location(4), on_field(4, 1, Part::Value { entry: 0 }));
}

#[test]
fn a_rename_to_a_text_that_is_no_identifier_is_located_by_the_generator() {
    let rename = Attribute {
        path: ident("dissolved"),
        args: AttrArgs::List(vec![Meta::NameValue {
            path: ident("rename"),
            value: MetaValue::Str(text("1abc")),
        }]),
    };
    let input = DeriveInput {
        name: text("Subject"),
        generics: Generics {
            declared: text(""),
            params: text(""),
            args: text(""),
            where_clause: text(""),
        },
        attrs: vec![],
        data: Data::Struct(Fields::Named(vec![NamedField {
            name: text("a"),
            field: Field { ty: text("A"), attrs: vec![rename] },
        }])),
    };
    let error = generate_dissolve_impl(&input).unwrap_err();
    assert_eq!(error.location(), on_field(0, 0, Part::Value { entry: 0 }));
}

#[test]
fn the_location_of_a_fault_found_by_the_generator() {
    let not_a_string = Attribute {
        path: ident("dissolved"),
        args: AttrArgs::List(vec![
            Meta::Path { path: ident("skip") },
            Meta::NameValue { path: ident("rename"), value: MetaValue::Other },
        ]),
    };
    let doc = Attribute { path: ident("doc"), args: AttrArgs::Value };
    let input = DeriveInput {
        name: text("Subject"),
        generics: Generics {
            declared: text(""),
            params: text(""),
            args: text(""),
            where_clause: text(""),
        },
        attrs: vec![],
        data: Data::Struct(Fields::Named(vec![
            NamedField { name: text("a"), field: Field { ty: text("A"), attrs: vec![] } },
            NamedField {
                name: text("b"),
                field: Field { ty: text("B"), attrs: vec![doc, not_a_string] },
            },
        ])),
    };
    let error = generate_dissolve_impl(&input).unwrap_err();
    assert_eq!(error.location(), on_field(1, 1, Part::Value { entry: 1 }));
    assert_eq!(error.message(), "rename value must be a string literal");
}
