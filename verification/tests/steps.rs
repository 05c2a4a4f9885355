//! The single steps of the generator, each on values given by hand: what
//! follows once the parser has read a text, how one option changes a
//! decision, and what is made of one field.

use dissolve_derive::container::ContainerAttributes;
use dissolve_derive::error::{ContainerError, DissolveError, FieldError, OptionError};
use dissolve_derive::field::{DissolvedOption, FieldInfo};
use dissolve_derive::generate::{DissolvedField, TupleElement};
use dissolve_derive::syntax::{AttrArgs, Attribute, Field, MetaPath, NamedField};
use dissolve_derive::visibility::{Visibility, VisibilitySyntax};

fn ident(name: &str) -> MetaPath {
    MetaPath { leading_colon: false, segments: vec![name.to_string()] }
}

fn kept() -> FieldInfo {
    FieldInfo { should_skip: false, renamed_to: None }
}

fn skipped() -> FieldInfo {
    FieldInfo { should_skip: true, renamed_to: None }
}

fn renamed(to: &str) -> FieldInfo {
    FieldInfo { should_skip: false, renamed_to: Some(to.to_string()) }
}

fn rename(to: &str) -> DissolvedOption {
    DissolvedOption::Rename(to.to_string())
}

#[test]
fn a_text_read_as_an_identifier_renames() {
    assert_eq!(DissolvedOption::rename(Ok("user_id".to_string())), Ok(rename("user_id")));
}

#[test]
fn a_text_not_read_as_an_identifier_is_the_fault() {
    assert_eq!(
        DissolvedOption::rename(Err("expected identifier".to_string())),
        Err(OptionError::InvalidIdent { message: "expected identifier".to_string() })
    );
}

fn restricted(in_token: bool, segments: &[&str]) -> VisibilitySyntax {
    VisibilitySyntax::Restricted {
        in_token,
        path: MetaPath {
            leading_colon: false,
            segments: segments.iter().map(|s| s.to_string()).collect(),
        },
    }
}

fn invalid(value: &str, message: Option<&str>) -> ContainerError {
    ContainerError::InvalidVisibility {
        attr: 3,
        entry: 1,
        value: value.to_string(),
        message: message.map(|m| m.to_string()),
    }
}

fn configured(reading: Result<VisibilitySyntax, String>, value: &str) -> Result<Visibility, ContainerError> {
    ContainerAttributes::configured_visibility(reading, &value.to_string(), 3, 1)
}

#[test]
fn the_five_supported_visibilities_are_recognised() {
    assert_eq!(Visibility::recognise(&VisibilitySyntax::Public), Some(Visibility::Public));
    assert_eq!(Visibility::recognise(&VisibilitySyntax::Inherited), Some(Visibility::Inherited));
    assert_eq!(Visibility::recognise(&restricted(false, &["crate"])), Some(Visibility::Crate));
    assert_eq!(Visibility::recognise(&restricted(false, &["super"])), Some(Visibility::Super));
    assert_eq!(Visibility::recognise(&restricted(false, &["self"])), Some(Visibility::Module));
}

#[test]
fn other_restrictions_are_not_recognised() {
    assert_eq!(Visibility::recognise(&restricted(true, &["crate"])), None);
    assert_eq!(Visibility::recognise(&restricted(true, &["crate", "a"])), None);
    assert_eq!(Visibility::recognise(&restricted(false, &["crate", "a"])), None);
    assert_eq!(Visibility::recognise(&restricted(false, &["friends"])), None);
    assert_eq!(Visibility::recognise(&restricted(false, &[])), None);
    let rooted = VisibilitySyntax::Restricted {
        in_token: false,
        path: MetaPath { leading_colon: true, segments: vec!["crate".to_string()] },
    };
    assert_eq!(Visibility::recognise(&rooted), None);
}

#[test]
fn a_text_read_as_a_visibility_configures_it() {
    assert_eq!(configured(Ok(restricted(false, &["crate"])), "pub(crate)"), Ok(Visibility::Crate));
    assert_eq!(configured(Ok(VisibilitySyntax::Public), "pub"), Ok(Visibility::Public));
    assert_eq!(configured(Ok(VisibilitySyntax::Inherited), ""), Ok(Visibility::Inherited));
}

#[test]
fn a_text_read_as_another_visibility_is_the_fault() {
    assert_eq!(
        configured(Ok(restricted(true, &["crate", "a"])), "pub(in crate::a)"),
        Err(invalid("pub(in crate::a)", None))
    );
}

#[test]
fn a_text_not_read_as_a_visibility_is_the_fault() {
    assert_eq!(
        configured(Err("unexpected token".to_string()), "public"),
        Err(invalid("public", Some("unexpected token")))
    );
}

#[test]
fn skip_on_a_fresh_field() {
    assert_eq!(kept().with_option(DissolvedOption::Skip, 0), Ok(skipped()));
}

#[test]
fn skip_on_a_skipped_field_changes_nothing() {
    assert_eq!(skipped().with_option(DissolvedOption::Skip, 4), Ok(skipped()));
}

#[test]
fn rename_on_a_fresh_field() {
    assert_eq!(kept().with_option(rename("id"), 0), Ok(renamed("id")));
}

#[test]
fn rename_on_a_skipped_field_is_the_conflict() {
    assert_eq!(
        skipped().with_option(rename("id"), 2),
        Err(FieldError::RenameOnSkipped { attr: 2 })
    );
}

#[test]
fn skip_on_a_renamed_field_is_the_conflict() {
    assert_eq!(
        renamed("id").with_option(DissolvedOption::Skip, 5),
        Err(FieldError::RenameOnSkipped { attr: 5 })
    );
}

#[test]
fn rename_on_a_renamed_field_is_the_duplicate() {
    assert_eq!(
        renamed("id").with_option(rename("id"), 1),
        Err(FieldError::DuplicateRename { attr: 1 })
    );
}

#[test]
fn companion_field_of_a_renamed_field() {
    let doc = Attribute { path: ident("doc"), args: AttrArgs::Value };
    let other = Attribute { path: ident("allow"), args: AttrArgs::List(vec![]) };
    let field = NamedField {
        name: "id".to_string(),
        field: Field { ty: "u64".to_string(), attrs: vec![other, doc.clone(), doc] },
    };
    assert_eq!(
        DissolvedField::new(&field, 7, &renamed("user_id")),
        DissolvedField {
            name: "user_id".to_string(),
            origin: "id".to_string(),
            ty: "u64".to_string(),
            source: 7,
            docs: vec![1, 2],
        }
    );
}

#[test]
fn companion_field_of_a_field_that_keeps_its_name() {
    let field = NamedField {
        name: "age".to_string(),
        field: Field { ty: "u32".to_string(), attrs: vec![] },
    };
    assert_eq!(
        DissolvedField::new(&field, 1, &kept()),
        DissolvedField {
            name: "age".to_string(),
            origin: "age".to_string(),
            ty: "u32".to_string(),
            source: 1,
            docs: vec![],
        }
    );
}

#[test]
fn tuple_element_of_a_kept_field() {
    let field = Field { ty: "i32".to_string(), attrs: vec![] };
    assert_eq!(
        TupleElement::new(&field, 1, &kept()),
        Ok(TupleElement { ty: "i32".to_string(), source: 1 })
    );
}

#[test]
fn tuple_element_of_a_renamed_field_is_refused() {
    let field = Field { ty: "i32".to_string(), attrs: vec![] };
    assert_eq!(
        TupleElement::new(&field, 3, &renamed("third")),
        Err(DissolveError::RenameOnTupleField { field: 3 })
    );
}
