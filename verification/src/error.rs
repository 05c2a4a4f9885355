//! What the generator reports instead of output, and the text of each report.
//!
//! An error says which rule was broken and, by the indices it carries, where:
//! `attr` counts the attributes of the declaration or of the field, `entry`
//! the entries of that attribute's list, `field` the fields of the struct, all
//! from zero in source order. [`DissolveError::location`] gives the place as
//! a value of its own.

use vstd::prelude::*;
use vstd::string::*;

verus! {

/// A part of an attribute.
#[derive(Debug, Clone, Copy, PartialEq, Eq)]
pub enum Part {
    /// The attribute as a whole.
    Whole,
    /// The place inside the attribute's arguments at which their parser gave
    /// up; the parser's own error knows it.
    Arguments,
    /// Entry `entry` of the attribute's list, as a whole.
    Entry { entry: usize },
    /// The path of entry `entry`.
    Path { entry: usize },
    /// The value of entry `entry`.
    Value { entry: usize },
}

/// The place in the declaration that an error is reported at.
#[derive(Debug, Clone, Copy, PartialEq, Eq)]
pub enum Location {
    /// The declaration as a whole.
    Declaration,
    /// The declaration's name.
    Name,
    /// Field `field` as a whole.
    Field { field: usize },
    /// A part of attribute `attr`: of field `field`, or without a field of
    /// the declaration itself.
    Attribute { field: Option<usize>, attr: usize, part: Part },
}

/// One entry of a `#[dissolved(..)]` list is no option.
#[derive(Debug, Clone, PartialEq, Eq)]
pub enum OptionError {
    /// The entry's path is neither `skip` nor `rename`; reported at the path,
    /// which is held with `::` between its segments.
    UnknownOption { path: String },
    /// The text of `rename = ".."` is no identifier; `message` is the
    /// parser's. Reported at the value.
    InvalidIdent { message: String },
    /// The value of `rename = ..` is no string literal; reported at the value.
    RenameNotString,
    /// The entry has a list of its own; reported at the entry.
    NestedList,
}

/// The mathematical value of an [`OptionError`].
pub enum OptionErrorModel {
    UnknownOption { path: Seq<char> },
    InvalidIdent { message: Seq<char> },
    RenameNotString,
    NestedList,
}

impl View for OptionError {
    type V = OptionErrorModel;

    open spec fn view(&self) -> OptionErrorModel {
        match self {
            OptionError::UnknownOption { path } => OptionErrorModel::UnknownOption { path: path@ },
            OptionError::InvalidIdent { message } => OptionErrorModel::InvalidIdent {
                message: message@,
            },
            OptionError::RenameNotString => OptionErrorModel::RenameNotString,
            OptionError::NestedList => OptionErrorModel::NestedList,
        }
    }
}

impl OptionErrorModel {
    /// The text of the report.
    pub open spec fn message(self) -> Seq<char> {
        match self {
            OptionErrorModel::UnknownOption { path } => "unknown dissolved attribute option '"@
                + path + "'; supported options: skip, rename = \"new_name\""@,
            OptionErrorModel::InvalidIdent { message } => message,
            OptionErrorModel::RenameNotString => "rename value must be a string literal"@,
            OptionErrorModel::NestedList =>
                "nested lists are not supported in dissolved attributes"@,
        }
    }
}

impl OptionError {
    /// The part of its attribute that the error is reported at, where the
    /// faulty entry is entry `entry`: the entry's path for an unknown option,
    /// its value for a `rename` whose value is no string literal or no
    /// identifier, the entry itself for a nested list.
    pub open spec fn located_at(self, entry: usize) -> Part {
        match self {
            OptionError::UnknownOption { path } => Part::Path { entry },
            OptionError::InvalidIdent { message } => Part::Value { entry },
            OptionError::RenameNotString => Part::Value { entry },
            OptionError::NestedList => Part::Entry { entry },
        }
    }

    /// The part of its attribute that the error is reported at, where the
    /// faulty entry is entry `entry`.
    pub fn location(&self, entry: usize) -> (r: Part)
        ensures
            r == self.located_at(entry),
    {
        match self {
            OptionError::UnknownOption { path: _ } => Part::Path { entry },
            OptionError::InvalidIdent { message: _ } => Part::Value { entry },
            OptionError::RenameNotString => Part::Value { entry },
            OptionError::NestedList => Part::Entry { entry },
        }
    }

    /// The text of the report.
    pub fn message(&self) -> (r: String)
        ensures
            r@ == self@.message(),
    {
        match self {
            OptionError::UnknownOption { path } => {
                let mut text = String::from_str("unknown dissolved attribute option '");
                text.append(path.as_str());
                text.append("'; supported options: skip, rename = \"new_name\"");
                text
            },
            OptionError::InvalidIdent { message } => message.clone(),
            OptionError::RenameNotString => String::from_str(
                "rename value must be a string literal",
            ),
            OptionError::NestedList => String::from_str(
                "nested lists are not supported in dissolved attributes",
            ),
        }
    }
}

/// The `#[dissolved]` attributes of one field do not give a decision.
#[derive(Debug, Clone, PartialEq, Eq)]
pub enum FieldError {
    /// The attribute's arguments are no list of entries; `message` is the
    /// parser's.
    Syntax { attr: usize, message: String },
    /// An entry of the attribute is no option.
    Option { attr: usize, entry: usize, error: OptionError },
    /// `skip` and `rename` meet on one field, in either order; reported at the
    /// attribute that brought the second of them.
    RenameOnSkipped { attr: usize },
    /// A second `rename` on one field; reported at the attribute that brought
    /// it.
    DuplicateRename { attr: usize },
    /// `#[dissolved]` without arguments; reported at the attribute.
    MissingOptions { attr: usize },
    /// `#[dissolved = ..]`; reported at the attribute.
    NotAList { attr: usize },
}

/// The mathematical value of a [`FieldError`].
pub enum FieldErrorModel {
    Syntax { attr: int, message: Seq<char> },
    Option { attr: int, entry: int, error: OptionErrorModel },
    RenameOnSkipped { attr: int },
    DuplicateRename { attr: int },
    MissingOptions { attr: int },
    NotAList { attr: int },
}

impl View for FieldError {
    type V = FieldErrorModel;

    open spec fn view(&self) -> FieldErrorModel {
        match self {
            FieldError::Syntax { attr, message } => FieldErrorModel::Syntax {
                attr: *attr as int,
                message: message@,
            },
            FieldError::Option { attr, entry, error } => FieldErrorModel::Option {
                attr: *attr as int,
                entry: *entry as int,
                error: error@,
            },
            FieldError::RenameOnSkipped { attr } => FieldErrorModel::RenameOnSkipped {
                attr: *attr as int,
            },
            FieldError::DuplicateRename { attr } => FieldErrorModel::DuplicateRename {
                attr: *attr as int,
            },
            FieldError::MissingOptions { attr } => FieldErrorModel::MissingOptions {
                attr: *attr as int,
            },
            FieldError::NotAList { attr } => FieldErrorModel::NotAList { attr: *attr as int },
        }
    }
}

impl FieldErrorModel {
    /// The text of the report.
    pub open spec fn message(self) -> Seq<char> {
        match self {
            FieldErrorModel::Syntax { attr, message } => message,
            FieldErrorModel::Option { attr, entry, error } => error.message(),
            FieldErrorModel::RenameOnSkipped { attr } => "cannot use rename on skipped field"@,
            FieldErrorModel::DuplicateRename { attr } =>
                "cannot specify multiple rename options on the same field"@,
            FieldErrorModel::MissingOptions { attr } =>
                "dissolved attribute requires options, use #[dissolved(skip)] or #[dissolved(rename = \"new_name\")] instead"@,
            FieldErrorModel::NotAList { attr } =>
                "dissolved attribute should use list syntax: #[dissolved(rename = \"new_name\")] instead of #[dissolved = ...]"@,
        }
    }
}

impl FieldError {
    /// The place that the error is reported at, where the faulty field is
    /// field `field`: the attribute that broke the rule, or the part of it
    /// that the faulty entry gives.
    pub open spec fn located_at(self, field: usize) -> Location {
        match self {
            FieldError::Syntax { attr, message } => Location::Attribute {
                field: Some(field),
                attr,
                part: Part::Arguments,
            },
            FieldError::Option { attr, entry, error } => Location::Attribute {
                field: Some(field),
                attr,
                part: error.located_at(entry),
            },
            FieldError::RenameOnSkipped { attr } => Location::Attribute {
                field: Some(field),
                attr,
                part: Part::Whole,
            },
            FieldError::DuplicateRename { attr } => Location::Attribute {
                field: Some(field),
                attr,
                part: Part::Whole,
            },
            FieldError::MissingOptions { attr } => Location::Attribute {
                field: Some(field),
                attr,
                part: Part::Whole,
            },
            FieldError::NotAList { attr } => Location::Attribute {
                field: Some(field),
                attr,
                part: Part::Whole,
            },
        }
    }

    /// The place that the error is reported at, where the faulty field is
    /// field `field`.
    pub fn location(&self, field: usize) -> (r: Location)
        ensures
            r == self.located_at(field),
    {
        match self {
            FieldError::Syntax { attr, message: _ } => Location::Attribute {
                field: Some(field),
                attr: *attr,
                part: Part::Arguments,
            },
            FieldError::Option { attr, entry, error } => Location::Attribute {
                field: Some(field),
                attr: *attr,
                part: error.location(*entry),
            },
            FieldError::RenameOnSkipped { attr }
            | FieldError::DuplicateRename { attr }
            | FieldError::MissingOptions { attr }
            | FieldError::NotAList { attr } => Location::Attribute {
                field: Some(field),
                attr: *attr,
                part: Part::Whole,
            },
        }
    }

    /// The text of the report.
    pub fn message(&self) -> (r: String)
        ensures
            r@ == self@.message(),
    {
        match self {
            FieldError::Syntax { attr: _, message } => message.clone(),
            FieldError::Option { attr: _, entry: _, error } => error.message(),
            FieldError::RenameOnSkipped { attr: _ } => String::from_str(
                "cannot use rename on skipped field",
            ),
            FieldError::DuplicateRename { attr: _ } => String::from_str(
                "cannot specify multiple rename options on the same field",
            ),
            FieldError::MissingOptions { attr: _ } => String::from_str(
                "dissolved attribute requires options, use #[dissolved(skip)] or #[dissolved(rename = \"new_name\")] instead",
            ),
            FieldError::NotAList { attr: _ } => String::from_str(
                "dissolved attribute should use list syntax: #[dissolved(rename = \"new_name\")] instead of #[dissolved = ...]",
            ),
        }
    }
}

/// The `#[dissolve]` attributes of the declaration do not give a
/// configuration.
#[derive(Debug, Clone, PartialEq, Eq)]
pub enum ContainerError {
    /// The attribute's arguments are no list of entries; `message` is the
    /// parser's.
    Syntax { attr: usize, message: String },
    /// The text `value` of `visibility = ".."` is none of the five supported
    /// visibilities. Where the parser refused it, `message` is the parser's;
    /// where the parser read a visibility that is not supported, there is
    /// none. Reported at the value.
    InvalidVisibility { attr: usize, entry: usize, value: String, message: Option<String> },
    /// The value of `visibility = ..` is no string literal; reported at the
    /// value.
    VisibilityNotString { attr: usize, entry: usize },
    /// An entry `name = ..` whose path is not `visibility`; reported at the
    /// path. `name` is the path where it is one identifier, else empty.
    UnknownOption { attr: usize, entry: usize, name: String },
    /// An entry that is not of the form `name = value`; reported at the entry.
    NotNameValue { attr: usize, entry: usize },
    /// `#[dissolve]` or `#[dissolve = ..]`; reported at the attribute.
    NotAList { attr: usize },
}

/// The mathematical value of a [`ContainerError`].
pub enum ContainerErrorModel {
    Syntax { attr: int, message: Seq<char> },
    InvalidVisibility { attr: int, entry: int, value: Seq<char>, message: Option<Seq<char>> },
    VisibilityNotString { attr: int, entry: int },
    UnknownOption { attr: int, entry: int, name: Seq<char> },
    NotNameValue { attr: int, entry: int },
    NotAList { attr: int },
}

impl View for ContainerError {
    type V = ContainerErrorModel;

    open spec fn view(&self) -> ContainerErrorModel {
        match self {
            ContainerError::Syntax { attr, message } => ContainerErrorModel::Syntax {
                attr: *attr as int,
                message: message@,
            },
            ContainerError::InvalidVisibility { attr, entry, value, message } =>
                ContainerErrorModel::InvalidVisibility {
                    attr: *attr as int,
                    entry: *entry as int,
                    value: value@,
                    message: message.deep_view(),
                },
            ContainerError::VisibilityNotString { attr, entry } =>
                ContainerErrorModel::VisibilityNotString {
                    attr: *attr as int,
                    entry: *entry as int,
                },
            ContainerError::UnknownOption { attr, entry, name } =>
                ContainerErrorModel::UnknownOption {
                    attr: *attr as int,
                    entry: *entry as int,
                    name: name@,
                },
            ContainerError::NotNameValue { attr, entry } => ContainerErrorModel::NotNameValue {
                attr: *attr as int,
                entry: *entry as int,
            },
            ContainerError::NotAList { attr } => ContainerErrorModel::NotAList {
                attr: *attr as int,
            },
        }
    }
}

impl ContainerErrorModel {
    /// The text of the report.
    pub open spec fn message(self) -> Seq<char> {
        match self {
            ContainerErrorModel::Syntax { attr, message } => message,
            ContainerErrorModel::InvalidVisibility { attr, entry, value, message } =>
                "invalid visibility '"@ + value + "'"@ + match message {
                    Some(complaint) => ": "@ + complaint,
                    None => Seq::empty(),
                }
                    + ". Supported: 'pub', 'pub(crate)', 'pub(super)', 'pub(self)' or empty for private"@,
            ContainerErrorModel::VisibilityNotString { attr, entry } =>
                "visibility value must be a string literal"@,
            ContainerErrorModel::UnknownOption { attr, entry, name } =>
                "unknown dissolve attribute option '"@ + name
                    + "'; supported option: visibility"@,
            ContainerErrorModel::NotNameValue { attr, entry } =>
                "dissolve container attribute must use name-value syntax: #[dissolve(visibility = \"...\")]"@,
            ContainerErrorModel::NotAList { attr } =>
                "dissolve attribute must use list syntax: #[dissolve(visibility = \"...\")]"@,
        }
    }
}

impl ContainerError {
    /// The place that the error is reported at: the attribute on the
    /// declaration that is of the wrong form, the entry that is, the path of
    /// an unknown option, or the value that is no visibility.
    pub open spec fn located_at(self) -> Location {
        match self {
            ContainerError::Syntax { attr, message } => Location::Attribute {
                field: None,
                attr,
                part: Part::Arguments,
            },
            ContainerError::InvalidVisibility { attr, entry, value, message } =>
                Location::Attribute { field: None, attr, part: Part::Value { entry } },
            ContainerError::VisibilityNotString { attr, entry } => Location::Attribute {
                field: None,
                attr,
                part: Part::Value { entry },
            },
            ContainerError::UnknownOption { attr, entry, name } => Location::Attribute {
                field: None,
                attr,
                part: Part::Path { entry },
            },
            ContainerError::NotNameValue { attr, entry } => Location::Attribute {
                field: None,
                attr,
                part: Part::Entry { entry },
            },
            ContainerError::NotAList { attr } => Location::Attribute {
                field: None,
                attr,
                part: Part::Whole,
            },
        }
    }

    /// The place that the error is reported at.
    pub fn location(&self) -> (r: Location)
        ensures
            r == self.located_at(),
    {
        match self {
            ContainerError::Syntax { attr, message: _ } => Location::Attribute {
                field: None,
                attr: *attr,
                part: Part::Arguments,
            },
            ContainerError::InvalidVisibility { attr, entry, value: _, message: _ } =>
                Location::Attribute { field: None, attr: *attr, part: Part::Value { entry: *entry } },
            ContainerError::VisibilityNotString { attr, entry } => Location::Attribute {
                field: None,
                attr: *attr,
                part: Part::Value { entry: *entry },
            },
            ContainerError::UnknownOption { attr, entry, name: _ } => Location::Attribute {
                field: None,
                attr: *attr,
                part: Part::Path { entry: *entry },
            },
            ContainerError::NotNameValue { attr, entry } => Location::Attribute {
                field: None,
                attr: *attr,
                part: Part::Entry { entry: *entry },
            },
            ContainerError::NotAList { attr } => Location::Attribute {
                field: None,
                attr: *attr,
                part: Part::Whole,
            },
        }
    }

    /// The text of the report.
    pub fn message(&self) -> (r: String)
        ensures
            r@ == self@.message(),
    {
        match self {
            ContainerError::Syntax { attr: _, message } => message.clone(),
            ContainerError::InvalidVisibility { attr: _, entry: _, value, message } => {
                let mut text = String::from_str("invalid visibility '");
                text.append(value.as_str());
                text.append("'");
                match message {
                    Some(complaint) => {
                        let ghost before = text@;
                        text.append(": ");
                        text.append(complaint.as_str());
                        assert(text@ =~= before + (": "@ + complaint@));
                    },
                    None => {
                        assert(text@ =~= text@ + Seq::<char>::empty());
                    },
                }
                text.append(
                    ". Supported: 'pub', 'pub(crate)', 'pub(super)', 'pub(self)' or empty for private",
                );
                text
            },
            ContainerError::VisibilityNotString { attr: _, entry: _ } => String::from_str(
                "visibility value must be a string literal",
            ),
            ContainerError::UnknownOption { attr: _, entry: _, name } => {
                let mut text = String::from_str("unknown dissolve attribute option '");
                text.append(name.as_str());
                text.append("'; supported option: visibility");
                text
            },
            ContainerError::NotNameValue { attr: _, entry: _ } => String::from_str(
                "dissolve container attribute must use name-value syntax: #[dissolve(visibility = \"...\")]",
            ),
            ContainerError::NotAList { attr: _ } => String::from_str(
                "dissolve attribute must use list syntax: #[dissolve(visibility = \"...\")]",
            ),
        }
    }
}

/// Why a declaration gets no `dissolve`.
#[derive(Debug, Clone, PartialEq, Eq)]
pub enum DissolveError {
    /// The declaration is a struct without fields, `struct S;`, here named
    /// `name`; reported at the declaration.
    UnitStruct { name: String },
    /// The declaration is an enum or a union; reported at the declaration.
    NotAStruct,
    /// The attributes on the declaration are at fault.
    Container(ContainerError),
    /// The `#[dissolved]` attributes of field `field` are at fault.
    Field { field: usize, error: FieldError },
    /// A field of a tuple struct is to be renamed; reported at the field.
    RenameOnTupleField { field: usize },
    /// No field of a struct with named fields is left for the companion;
    /// reported at the declaration's name.
    NoFieldsLeft,
    /// No field of a tuple struct is left for the tuple; reported at the
    /// declaration's name.
    NoElementsLeft,
}

/// The mathematical value of a [`DissolveError`].
pub enum DissolveErrorModel {
    UnitStruct { name: Seq<char> },
    NotAStruct,
    Container(ContainerErrorModel),
    Field { field: int, error: FieldErrorModel },
    RenameOnTupleField { field: int },
    NoFieldsLeft,
    NoElementsLeft,
}

impl View for DissolveError {
    type V = DissolveErrorModel;

    open spec fn view(&self) -> DissolveErrorModel {
        match self {
            DissolveError::UnitStruct { name } => DissolveErrorModel::UnitStruct { name: name@ },
            DissolveError::NotAStruct => DissolveErrorModel::NotAStruct,
            DissolveError::Container(error) => DissolveErrorModel::Container(error@),
            DissolveError::Field { field, error } => DissolveErrorModel::Field {
                field: *field as int,
                error: error@,
            },
            DissolveError::RenameOnTupleField { field } => DissolveErrorModel::RenameOnTupleField {
                field: *field as int,
            },
            DissolveError::NoFieldsLeft => DissolveErrorModel::NoFieldsLeft,
            DissolveError::NoElementsLeft => DissolveErrorModel::NoElementsLeft,
        }
    }
}

impl DissolveErrorModel {
    /// The text of the report.
    pub open spec fn message(self) -> Seq<char> {
        match self {
            DissolveErrorModel::UnitStruct { name } =>
                "Dissolve cannot be derived for unit structs"@,
            DissolveErrorModel::NotAStruct => "Dissolve can only be derived for structs"@,
            DissolveErrorModel::Container(error) => error.message(),
            DissolveErrorModel::Field { field, error } => error.message(),
            DissolveErrorModel::RenameOnTupleField { field } =>
                "rename is unsupported for tuple struct fields, only skip is allowed"@,
            DissolveErrorModel::NoFieldsLeft =>
                "cannot create dissolved struct with no fields (all fields are skipped)"@,
            DissolveErrorModel::NoElementsLeft =>
                "cannot create dissolved tuple with no fields (all fields are skipped)"@,
        }
    }
}

impl DissolveError {
    /// The place that the error is reported at: the declaration for a wrong
    /// kind of declaration, its name where nothing is left, the field that
    /// may not be renamed, or the place of the fault among the attributes.
    pub open spec fn located_at(self) -> Location {
        match self {
            DissolveError::UnitStruct { name } => Location::Declaration,
            DissolveError::NotAStruct => Location::Declaration,
            DissolveError::Container(error) => error.located_at(),
            DissolveError::Field { field, error } => error.located_at(field),
            DissolveError::RenameOnTupleField { field } => Location::Field { field },
            DissolveError::NoFieldsLeft => Location::Name,
            DissolveError::NoElementsLeft => Location::Name,
        }
    }

    /// The place that the error is reported at.
    pub fn location(&self) -> (r: Location)
        ensures
            r == self.located_at(),
    {
        match self {
            DissolveError::UnitStruct { name: _ } => Location::Declaration,
            DissolveError::NotAStruct => Location::Declaration,
            DissolveError::Container(error) => error.location(),
            DissolveError::Field { field, error } => error.location(*field),
            DissolveError::RenameOnTupleField { field } => Location::Field { field: *field },
            DissolveError::NoFieldsLeft => Location::Name,
            DissolveError::NoElementsLeft => Location::Name,
        }
    }

    /// The text of the report.
    pub fn message(&self) -> (r: String)
        ensures
            r@ == self@.message(),
    {
        match self {
            DissolveError::UnitStruct { name: _ } => String::from_str(
                "Dissolve cannot be derived for unit structs",
            ),
            DissolveError::NotAStruct => String::from_str(
                "Dissolve can only be derived for structs",
            ),
            DissolveError::Container(error) => error.message(),
            DissolveError::Field { field: _, error } => error.message(),
            DissolveError::RenameOnTupleField { field: _ } => String::from_str(
                "rename is unsupported for tuple struct fields, only skip is allowed",
            ),
            DissolveError::NoFieldsLeft => String::from_str(
                "cannot create dissolved struct with no fields (all fields are skipped)",
            ),
            DissolveError::NoElementsLeft => String::from_str(
                "cannot create dissolved tuple with no fields (all fields are skipped)",
            ),
        }
    }
}

} // verus!
