//! The decision that the `#[dissolved(..)]` attributes of one field give:
//! whether the field is left out, and under which name it is handed out.

use vstd::prelude::*;
use vstd::string::*;

use crate::error::{FieldError, FieldErrorModel, OptionError, OptionErrorModel};
use crate::ident::read_ident;
use crate::reading::{is_readable, outcome_of, reading_at, readings_of};
use crate::syntax::{
    outcome, AttrArgs, AttrArgsModel, AttributeModel, Field, Meta, MetaModel, MetaValue,
    MetaValueModel,
};

verus! {

/// One option of a `#[dissolved(..)]` list.
#[derive(Debug, Clone, PartialEq, Eq)]
pub enum DissolvedOption {
    /// `skip`: the field is left out.
    Skip,
    /// `rename = "name"`: the field is handed out as `name`.
    Rename(String),
}

/// The mathematical value of a [`DissolvedOption`].
pub enum DissolvedOptionModel {
    Skip,
    Rename(Seq<char>),
}

impl View for DissolvedOption {
    type V = DissolvedOptionModel;

    open spec fn view(&self) -> DissolvedOptionModel {
        match self {
            DissolvedOption::Skip => DissolvedOptionModel::Skip,
            DissolvedOption::Rename(name) => DissolvedOptionModel::Rename(name@),
        }
    }
}

/// What is decided for one field.
#[derive(Debug, Clone, PartialEq, Eq)]
pub struct FieldInfo {
    /// The field is left out of what `dissolve` returns.
    pub should_skip: bool,
    /// The name under which the field is handed out, where it is not its own.
    pub renamed_to: Option<String>,
}

/// The mathematical value of a [`FieldInfo`].
pub struct FieldInfoModel {
    pub should_skip: bool,
    pub renamed_to: Option<Seq<char>>,
}

impl View for FieldInfo {
    type V = FieldInfoModel;

    open spec fn view(&self) -> FieldInfoModel {
        FieldInfoModel { should_skip: self.should_skip, renamed_to: self.renamed_to.deep_view() }
    }
}

impl FieldInfoModel {
    /// The decision for a field without options: kept, under its own name.
    pub open spec fn new() -> FieldInfoModel {
        FieldInfoModel { should_skip: false, renamed_to: None }
    }

    /// A field is never both left out and renamed.
    pub open spec fn consistent(self) -> bool {
        !(self.should_skip && self.renamed_to is Some)
    }

    /// The decision after one more option, brought by attribute `attr`.
    /// `skip` and `rename` exclude each other whichever comes first, `rename`
    /// may come once, `skip` may be repeated.
    pub open spec fn with_option(self, option: DissolvedOptionModel, attr: int) -> Result<
        FieldInfoModel,
        FieldErrorModel,
    > {
        match option {
            DissolvedOptionModel::Skip => if self.renamed_to is Some {
                Err(FieldErrorModel::RenameOnSkipped { attr })
            } else {
                Ok(FieldInfoModel { should_skip: true, renamed_to: self.renamed_to })
            },
            DissolvedOptionModel::Rename(name) => if self.should_skip {
                Err(FieldErrorModel::RenameOnSkipped { attr })
            } else if self.renamed_to is Some {
                Err(FieldErrorModel::DuplicateRename { attr })
            } else {
                Ok(FieldInfoModel { should_skip: self.should_skip, renamed_to: Some(name) })
            },
        }
    }
}

/// What the parser may answer for a text that is to be an identifier.
pub type IdentReading = Result<Seq<char>, Seq<char>>;

/// The text that is read as an identifier for the entry `meta`: the value of
/// `rename = ".."`, and of no other entry.
pub open spec fn rename_text(meta: MetaModel) -> Option<Seq<char>> {
    match meta {
        MetaModel::NameValue { path, value: MetaValueModel::Str(text) } => if path.is_ident(
            "rename"@,
        ) {
            Some(text)
        } else {
            None
        },
        _ => None,
    }
}

/// The option that `rename = ".."` stands for, where its text was read as
/// `reading`: a rename to the identifier read, or the fault that it is none.
pub open spec fn rename_option(reading: IdentReading) -> Result<
    DissolvedOptionModel,
    OptionErrorModel,
> {
    match reading {
        Ok(name) => Ok(DissolvedOptionModel::Rename(name)),
        Err(message) => Err(OptionErrorModel::InvalidIdent { message }),
    }
}

/// The option that one entry of a `#[dissolved(..)]` list stands for, where
/// its text was read as `reading`: the bare word `skip`, or `rename = ".."`
/// with a text that was read as an identifier.
pub open spec fn option_of(meta: MetaModel, reading: IdentReading) -> Result<
    DissolvedOptionModel,
    OptionErrorModel,
> {
    match meta {
        MetaModel::Path { path } => if path.is_ident("skip"@) {
            Ok(DissolvedOptionModel::Skip)
        } else {
            Err(OptionErrorModel::UnknownOption { path: path.joined() })
        },
        MetaModel::NameValue { path, value } => if path.is_ident("rename"@) {
            match value {
                MetaValueModel::Str(text) => rename_option(reading),
                MetaValueModel::Other => Err(OptionErrorModel::RenameNotString),
            }
        } else {
            Err(OptionErrorModel::UnknownOption { path: path.joined() })
        },
        MetaModel::List { path } => Err(OptionErrorModel::NestedList),
    }
}

/// The decision after entry `entry` of attribute `attr`, where it was `info`
/// before and the entry's text was read as `reading`.
pub open spec fn entry_info(
    meta: MetaModel,
    attr: int,
    entry: int,
    info: FieldInfoModel,
    reading: IdentReading,
) -> Result<FieldInfoModel, FieldErrorModel> {
    match option_of(meta, reading) {
        Ok(option) => info.with_option(option, attr),
        Err(error) => Err(FieldErrorModel::Option { attr, entry, error }),
    }
}

/// The decision after the entries of attribute `attr` from `from` on, where
/// it was `info` before them. The first fault ends the reading.
pub open spec fn entries_info(
    entries: Seq<MetaModel>,
    attr: int,
    from: int,
    info: FieldInfoModel,
    readings: Seq<Seq<IdentReading>>,
) -> Result<FieldInfoModel, FieldErrorModel>
    decreases entries.len() - from,
{
    if 0 <= from < entries.len() {
        match entry_info(entries[from], attr, from, info, reading_at(readings, attr, from)) {
            Ok(next) => entries_info(entries, attr, from + 1, next, readings),
            Err(error) => Err(error),
        }
    } else {
        Ok(info)
    }
}

/// The decision after attribute `attr`, where it was `info` before it. Only
/// `#[dissolved(..)]` is read; any other attribute leaves it as it was.
pub open spec fn attribute_info(
    attribute: AttributeModel,
    attr: int,
    info: FieldInfoModel,
    readings: Seq<Seq<IdentReading>>,
) -> Result<FieldInfoModel, FieldErrorModel> {
    if attribute.path.is_ident("dissolved"@) {
        match attribute.args {
            AttrArgsModel::List(entries) => entries_info(entries, attr, 0, info, readings),
            AttrArgsModel::Malformed(message) => Err(FieldErrorModel::Syntax { attr, message }),
            AttrArgsModel::Bare => Err(FieldErrorModel::MissingOptions { attr }),
            AttrArgsModel::Value => Err(FieldErrorModel::NotAList { attr }),
        }
    } else {
        Ok(info)
    }
}

/// The decision after the attributes from `from` on, where it was `info`
/// before them.
pub open spec fn attributes_info(
    attrs: Seq<AttributeModel>,
    from: int,
    info: FieldInfoModel,
    readings: Seq<Seq<IdentReading>>,
) -> Result<FieldInfoModel, FieldErrorModel>
    decreases attrs.len() - from,
{
    if 0 <= from < attrs.len() {
        match attribute_info(attrs[from], from, info, readings) {
            Ok(next) => attributes_info(attrs, from + 1, next, readings),
            Err(error) => Err(error),
        }
    } else {
        Ok(info)
    }
}

/// The decision for a field with the attributes `attrs` where their texts
/// were read as `readings`: all its `#[dissolved(..)]` attributes merged in
/// source order, or the first fault met on the way.
pub open spec fn field_info(attrs: Seq<AttributeModel>, readings: Seq<Seq<IdentReading>>) -> Result<
    FieldInfoModel,
    FieldErrorModel,
> {
    attributes_info(attrs, 0, FieldInfoModel::new(), readings)
}

/// `readings` has a row for each attribute of `attrs`, and in the row of a
/// `#[dissolved(..)]` list a reading for each entry.
pub open spec fn renames_read(attrs: Seq<AttributeModel>, readings: Seq<Seq<IdentReading>>) -> bool {
    &&& readings.len() == attrs.len()
    &&& forall|a: int|
        0 <= a < attrs.len() && (#[trigger] attrs[a]).path.is_ident("dissolved"@) ==> (
        attrs[a].args matches AttrArgsModel::List(entries) ==> readings[a].len() == entries.len())
}

/// The text of `meta` that is to be read as an identifier, if it has one.
fn text_to_read(meta: &Meta) -> (r: Option<&String>)
    ensures
        r.is_some() == rename_text(meta@).is_some(),
        r matches Some(text) ==> rename_text(meta@) == Some(text@),
{
    match meta {
        Meta::NameValue { path, value: MetaValue::Str(text) } => {
            if path.is_ident("rename") {
                Some(text)
            } else {
                None
            }
        },
        _ => None,
    }
}

/// Asks the parser for the text of `meta`, where it has one to read.
fn answer(meta: &Meta) -> Result<String, String> {
    match text_to_read(meta) {
        Some(text) => {
            if is_readable(text.as_str()) {
                read_ident(text.as_str())
            } else {
                Err(String::from_str("too many brackets"))
            }
        },
        None => Err(String::new()),
    }
}

/// The reading that `readings` holds for entry `entry` of attribute `attr`.
fn reading(readings: &Vec<Vec<Result<String, String>>>, attr: usize, entry: usize) -> (r: Result<
    String,
    String,
>)
    ensures
        outcome_of(r) == reading_at(readings_of(readings@), attr as int, entry as int),
{
    if attr < readings.len() && entry < readings[attr].len() {
        match &readings[attr][entry] {
            Ok(name) => Ok(name.clone()),
            Err(message) => Err(message.clone()),
        }
    } else {
        Err(String::new())
    }
}

impl DissolvedOption {
    /// The option that `rename = ".."` stands for, given in `reading` what the
    /// parser made of the text: a rename to the identifier it read, or
    /// `InvalidIdent` with the parser's message.
    pub fn rename(reading: Result<String, String>) -> (r: Result<DissolvedOption, OptionError>)
        ensures
            outcome(r) == rename_option(outcome_of(reading)),
    {
        match reading {
            Ok(name) => Ok(DissolvedOption::Rename(name)),
            Err(message) => Err(OptionError::InvalidIdent { message }),
        }
    }

    /// Reads one entry of a `#[dissolved(..)]` list as an option, given in
    /// `reading` what the parser made of the entry's text.
    ///
    /// The bare word `skip` is the option to skip, and `rename = ".."` with a
    /// text that was read as an identifier is the option to rename to it.
    /// Any other path, a `rename` whose value is no string literal or whose
    /// text was refused, and an entry with a list of its own are faults.
    pub fn from_meta_with(meta: &Meta, reading: Result<String, String>) -> (r: Result<
        DissolvedOption,
        OptionError,
    >)
        ensures
            outcome(r) == option_of(meta@, outcome_of(reading)),
    {
        match meta {
            Meta::Path { path } => {
                if !path.is_ident("skip") {
                    return Err(OptionError::UnknownOption { path: path.joined() });
                }
                Ok(DissolvedOption::Skip)
            },
            Meta::NameValue { path, value } => {
                if !path.is_ident("rename") {
                    return Err(OptionError::UnknownOption { path: path.joined() });
                }
                match value {
                    MetaValue::Str(_) => DissolvedOption::rename(reading),
                    MetaValue::Other => Err(OptionError::RenameNotString),
                }
            },
            Meta::List { path: _ } => Err(OptionError::NestedList),
        }
    }

    /// Reads one entry of a `#[dissolved(..)]` list as an option.
    ///
    /// The text of `rename = ".."` is handed to the parser, and the option is
    /// what [`Self::from_meta_with`] gives for its answer. What the parser
    /// answers is not known beforehand: for `rename = ".."` the result is a
    /// rename or `InvalidIdent`, for every other entry it is fixed.
    pub fn from_meta(meta: &Meta) -> (r: Result<DissolvedOption, OptionError>)
        ensures
            exists|reading: IdentReading| outcome(r) == #[trigger] option_of(meta@, reading),
    {
        let answer = answer(meta);
        let ghost reading = outcome_of(answer);
        let r = DissolvedOption::from_meta_with(meta, answer);
        assert(outcome(r) == option_of(meta@, reading));
        r
    }
}

impl FieldInfo {
    /// The decision for a field without options: kept, under its own name.
    pub fn new() -> (r: FieldInfo)
        ensures
            r@ == FieldInfoModel::new(),
            r@.consistent(),
    {
        FieldInfo { should_skip: false, renamed_to: None }
    }

    /// The decision after one more option, brought by attribute `attr`.
    ///
    /// `skip` on a renamed field and `rename` on a skipped field are refused
    /// with `RenameOnSkipped`, a second `rename` with `DuplicateRename`; a
    /// repeated `skip` changes nothing.
    pub fn with_option(self, option: DissolvedOption, attr: usize) -> (r: Result<
        FieldInfo,
        FieldError,
    >)
        ensures
            outcome(r) == self@.with_option(option@, attr as int),
            self@.consistent() ==> (r matches Ok(next) ==> next@.consistent()),
    {
        let mut info = self;
        match option {
            DissolvedOption::Skip => {
                if info.renamed_to.is_some() {
                    return Err(FieldError::RenameOnSkipped { attr });
                }
                info.should_skip = true;
            },
            DissolvedOption::Rename(name) => {
                if info.should_skip {
                    return Err(FieldError::RenameOnSkipped { attr });
                }
                if info.renamed_to.is_some() {
                    return Err(FieldError::DuplicateRename { attr });
                }
                info.renamed_to = Some(name);
            },
        }
        Ok(info)
    }
}

/// Has the parser read the text of each `rename = ".."` among the
/// `#[dissolved(..)]` attributes of `field`.
///
/// The table that comes back has a row for each attribute and, in the row of
/// a `#[dissolved(..)]` list, a place for each entry; what the parser
/// answered is not known before it is asked.
pub fn read_renames(field: &Field) -> (r: Vec<Vec<Result<String, String>>>)
    ensures
        renames_read(field@.attrs, readings_of(r@)),
{
    let mut table: Vec<Vec<Result<String, String>>> = Vec::new();
    let mut i: usize = 0;
    while i < field.attrs.len()
        invariant
            i <= field.attrs.len(),
            table.len() == i,
            forall|a: int|
                0 <= a < i && (#[trigger] field@.attrs[a]).path.is_ident("dissolved"@) ==> (
                field@.attrs[a].args matches AttrArgsModel::List(entries) ==> table[a].len()
                    == entries.len()),
        decreases field.attrs.len() - i,
    {
        let mut row: Vec<Result<String, String>> = Vec::new();
        let attribute = &field.attrs[i];
        if attribute.path.is_ident("dissolved") {
            if let AttrArgs::List(entries) = &attribute.args {
                let mut j: usize = 0;
                while j < entries.len()
                    invariant
                        j <= entries.len(),
                        row.len() == j,
                    decreases entries.len() - j,
                {
                    row.push(answer(&entries[j]));
                    j = j + 1;
                }
            }
        }
        table.push(row);
        i = i + 1;
    }
    table
}

/// Merges the `#[dissolved(..)]` attributes of `field` into one decision,
/// given in `readings` what the parser made of their texts.
///
/// Attributes other than `dissolved` are passed over. Each `dissolved`
/// attribute must be a list of options. `skip` and `rename` on one field are
/// refused in either order, and so is a second `rename`; the first fault in
/// source order is the error. A decision that comes out is never both
/// skipped and renamed.
pub fn get_field_info_with(field: &Field, readings: &Vec<Vec<Result<String, String>>>) -> (r: Result<
    FieldInfo,
    FieldError,
>)
    ensures
        outcome(r) == field_info(field@.attrs, readings_of(readings@)),
        r matches Ok(info) ==> info@.consistent(),
{
    let ghost attrs = field@.attrs;
    let ghost read = readings_of(readings@);
    let mut field_info = FieldInfo::new();
    let mut i: usize = 0;
    while i < field.attrs.len()
        invariant
            i <= field.attrs.len(),
            attrs == field@.attrs,
            read == readings_of(readings@),
            field_info@.consistent(),
            attributes_info(attrs, 0, FieldInfoModel::new(), read) == attributes_info(
                attrs,
                i as int,
                field_info@,
                read,
            ),
        decreases field.attrs.len() - i,
    {
        let attribute = &field.attrs[i];
        if attribute.path.is_ident("dissolved") {
            match &attribute.args {
                AttrArgs::List(entries) => {
                    let ghost before = field_info@;
                    let mut j: usize = 0;
                    while j < entries.len()
                        invariant
                            j <= entries.len(),
                            i < field.attrs.len(),
                            attrs == field@.attrs,
                            read == readings_of(readings@),
                            attrs[i as int] == attribute@,
                            attribute@.path.is_ident("dissolved"@),
                            attribute@.args == AttrArgsModel::List(entries.deep_view()),
                            field_info@.consistent(),
                            attributes_info(attrs, 0, FieldInfoModel::new(), read)
                                == attributes_info(attrs, i as int, before, read),
                            entries_info(entries.deep_view(), i as int, 0, before, read)
                                == entries_info(
                                entries.deep_view(),
                                i as int,
                                j as int,
                                field_info@,
                                read,
                            ),
                        decreases entries.len() - j,
                    {
                        let answer = reading(readings, i, j);
                        let option = match DissolvedOption::from_meta_with(&entries[j], answer) {
                            Ok(option) => option,
                            Err(error) => {
                                return Err(FieldError::Option { attr: i, entry: j, error });
                            },
                        };
                        field_info = match field_info.with_option(option, i) {
                            Ok(next) => next,
                            Err(error) => {
                                return Err(error);
                            },
                        };
                        j = j + 1;
                    }
                },
                AttrArgs::Malformed(message) => {
                    return Err(FieldError::Syntax { attr: i, message: message.clone() });
                },
                AttrArgs::Bare => {
                    return Err(FieldError::MissingOptions { attr: i });
                },
                AttrArgs::Value => {
                    return Err(FieldError::NotAList { attr: i });
                },
            }
        }
        i = i + 1;
    }
    Ok(field_info)
}

/// Merges the `#[dissolved(..)]` attributes of `field` into one decision.
///
/// The texts of the `rename = ".."` entries are handed to the parser, and
/// the decision is what [`get_field_info_with`] gives for its answers. What
/// the parser answers is not known beforehand: the result is promised for
/// some answers, one for each text.
pub fn get_field_info(field: &Field) -> (r: Result<FieldInfo, FieldError>)
    ensures
        exists|readings: Seq<Seq<IdentReading>>|
            renames_read(field@.attrs, readings) && outcome(r) == #[trigger] field_info(
                field@.attrs,
                readings,
            ),
        r matches Ok(info) ==> info@.consistent(),
{
    let readings = read_renames(field);
    get_field_info_with(field, &readings)
}

} // verus!
