//! The configuration that `#[dissolve(..)]` on the declaration gives.

use vstd::prelude::*;
use vstd::string::*;

use crate::error::{ContainerError, ContainerErrorModel};
use crate::reading::{is_readable, outcome_of, reading_at, readings_of};
use crate::syntax::{
    outcome, AttrArgs, AttrArgsModel, Attribute, AttributeModel, DeriveInput, Meta, MetaModel,
    MetaValue, MetaValueModel,
};
use crate::visibility::{
    known_reading, lemma_supported_is_readable, read_visibility, recognised, Visibility,
    VisibilitySyntax, VisibilitySyntaxModel,
};

verus! {

/// What the attributes on the declaration configure.
#[derive(Debug, Clone, PartialEq, Eq)]
pub struct ContainerAttributes {
    /// The visibility of the generated `dissolve` method.
    pub visibility: Visibility,
}

/// The mathematical value of a [`ContainerAttributes`].
pub struct ContainerAttributesModel {
    pub visibility: Visibility,
}

impl View for ContainerAttributes {
    type V = ContainerAttributesModel;

    open spec fn view(&self) -> ContainerAttributesModel {
        ContainerAttributesModel { visibility: self.visibility }
    }
}

/// What the parser may answer for a text that is to be a visibility.
pub type VisibilityReading = Result<VisibilitySyntaxModel, Seq<char>>;

/// The text that is read as a visibility for the entry `meta`: the value of
/// `visibility = ".."`, and of no other entry.
pub open spec fn visibility_text(meta: MetaModel) -> Option<Seq<char>> {
    match meta {
        MetaModel::NameValue { path, value: MetaValueModel::Str(text) } => if path.is_ident(
            "visibility"@,
        ) {
            Some(text)
        } else {
            None
        },
        _ => None,
    }
}

/// The visibility that `visibility = "value"` configures, where `value` was
/// read as `reading`: one of the five supported ones if it was read as that,
/// else the fault that it is none of them.
pub open spec fn configured_visibility(
    reading: VisibilityReading,
    value: Seq<char>,
    attr: int,
    entry: int,
) -> Result<Visibility, ContainerErrorModel> {
    match reading {
        Ok(syntax) => match recognised(syntax) {
            Some(visibility) => Ok(visibility),
            None => Err(
                ContainerErrorModel::InvalidVisibility { attr, entry, value, message: None },
            ),
        },
        Err(message) => Err(
            ContainerErrorModel::InvalidVisibility { attr, entry, value, message: Some(message) },
        ),
    }
}

/// The visibility that entry `entry` of attribute `attr` asks for, where its
/// text was read as `reading`: the entry must be `visibility = ".."` with a
/// text that was read as a supported visibility.
pub open spec fn entry_visibility(meta: MetaModel, attr: int, entry: int, reading: VisibilityReading)
    -> Result<Visibility, ContainerErrorModel> {
    match meta {
        MetaModel::NameValue { path, value } => if path.is_ident("visibility"@) {
            match value {
                MetaValueModel::Str(text) => configured_visibility(reading, text, attr, entry),
                MetaValueModel::Other => Err(
                    ContainerErrorModel::VisibilityNotString { attr, entry },
                ),
            }
        } else {
            Err(ContainerErrorModel::UnknownOption { attr, entry, name: path.ident_or_empty() })
        },
        _ => Err(ContainerErrorModel::NotNameValue { attr, entry }),
    }
}

/// The visibility after the entries of attribute `attr` from `from` on, where
/// it was `current` before them: each entry replaces it, the first faulty one
/// ends the reading.
pub open spec fn entries_visibility(
    entries: Seq<MetaModel>,
    attr: int,
    from: int,
    current: Visibility,
    readings: Seq<Seq<VisibilityReading>>,
) -> Result<Visibility, ContainerErrorModel>
    decreases entries.len() - from,
{
    if 0 <= from < entries.len() {
        match entry_visibility(entries[from], attr, from, reading_at(readings, attr, from)) {
            Ok(visibility) => entries_visibility(entries, attr, from + 1, visibility, readings),
            Err(error) => Err(error),
        }
    } else {
        Ok(current)
    }
}

/// The visibility after attribute `attr`, where it was `current` before it.
/// Only `#[dissolve(..)]` is read; any other attribute leaves it as it was.
pub open spec fn attribute_visibility(
    attribute: AttributeModel,
    attr: int,
    current: Visibility,
    readings: Seq<Seq<VisibilityReading>>,
) -> Result<Visibility, ContainerErrorModel> {
    if attribute.path.is_ident("dissolve"@) {
        match attribute.args {
            AttrArgsModel::List(entries) => entries_visibility(entries, attr, 0, current, readings),
            AttrArgsModel::Malformed(message) => Err(ContainerErrorModel::Syntax { attr, message }),
            _ => Err(ContainerErrorModel::NotAList { attr }),
        }
    } else {
        Ok(current)
    }
}

/// The visibility after the attributes from `from` on, where it was `current`
/// before them.
pub open spec fn attributes_visibility(
    attrs: Seq<AttributeModel>,
    from: int,
    current: Visibility,
    readings: Seq<Seq<VisibilityReading>>,
) -> Result<Visibility, ContainerErrorModel>
    decreases attrs.len() - from,
{
    if 0 <= from < attrs.len() {
        match attribute_visibility(attrs[from], from, current, readings) {
            Ok(visibility) => attributes_visibility(attrs, from + 1, visibility, readings),
            Err(error) => Err(error),
        }
    } else {
        Ok(current)
    }
}

/// The configuration that the attributes `attrs` of a declaration give where
/// their texts were read as `readings`: read in source order from the
/// default `pub`, or the first fault met on the way.
pub open spec fn container_attributes(
    attrs: Seq<AttributeModel>,
    readings: Seq<Seq<VisibilityReading>>,
) -> Result<ContainerAttributesModel, ContainerErrorModel> {
    match attributes_visibility(attrs, 0, Visibility::Public, readings) {
        Ok(visibility) => Ok(ContainerAttributesModel { visibility }),
        Err(error) => Err(error),
    }
}

/// `row` has a reading for each of `entries`, and each reading of a text is
/// one that the parser may give for that text.
pub open spec fn entries_read(entries: Seq<MetaModel>, row: Seq<VisibilityReading>) -> bool {
    &&& row.len() == entries.len()
    &&& forall|e: int|
        0 <= e < entries.len() ==> (visibility_text(#[trigger] entries[e]) matches Some(text)
            ==> known_reading(text, row[e]))
}

/// `readings` are answers of the parser for `attrs`: a row for each
/// attribute, and in the row of a `#[dissolve(..)]` list a reading for each
/// entry, which for each text is one that the parser may give for it.
pub open spec fn visibilities_read(
    attrs: Seq<AttributeModel>,
    readings: Seq<Seq<VisibilityReading>>,
) -> bool {
    &&& readings.len() == attrs.len()
    &&& forall|a: int|
        0 <= a < attrs.len() && (#[trigger] attrs[a]).path.is_ident("dissolve"@) ==> (
        attrs[a].args matches AttrArgsModel::List(entries) ==> entries_read(entries, readings[a]))
}

/// The text of `meta` that is to be read as a visibility, if it has one.
fn text_to_read(meta: &Meta) -> (r: Option<&String>)
    ensures
        r.is_some() == visibility_text(meta@).is_some(),
        r matches Some(text) ==> visibility_text(meta@) == Some(text@),
{
    match meta {
        Meta::NameValue { path, value: MetaValue::Str(text) } => {
            if path.is_ident("visibility") {
                Some(text)
            } else {
                None
            }
        },
        _ => None,
    }
}

/// Asks the parser for the text of `meta`, where it has one to read.
fn answer(meta: &Meta) -> (r: Result<VisibilitySyntax, String>)
    ensures
        visibility_text(meta@) matches Some(text) ==> known_reading(text, outcome_of(r)),
{
    match text_to_read(meta) {
        Some(text) => {
            if is_readable(text.as_str()) {
                read_visibility(text.as_str())
            } else {
                proof {
                    // None of the five supported spellings has that many
                    // brackets.
                    if crate::visibility::supported(text@) is Some {
                        lemma_supported_is_readable(text@);
                    }
                }
                Err(String::from_str("too many brackets"))
            }
        },
        None => Err(String::new()),
    }
}

/// The reading that `readings` holds for entry `entry` of attribute `attr`.
fn reading(readings: &Vec<Vec<Result<VisibilitySyntax, String>>>, attr: usize, entry: usize) -> (r:
    Result<VisibilitySyntax, String>)
    ensures
        outcome_of(r) == reading_at(readings_of(readings@), attr as int, entry as int),
{
    if attr < readings.len() && entry < readings[attr].len() {
        match &readings[attr][entry] {
            Ok(syntax) => Ok(syntax.duplicate()),
            Err(message) => Err(message.clone()),
        }
    } else {
        Err(String::new())
    }
}

/// Reads entry `entry` of the `#[dissolve(..)]` attribute `attr`.
fn read_entry(meta: &Meta, attr: usize, entry: usize, reading: Result<VisibilitySyntax, String>) -> (r:
    Result<Visibility, ContainerError>)
    ensures
        outcome(r) == entry_visibility(meta@, attr as int, entry as int, outcome_of(reading)),
{
    match meta {
        Meta::NameValue { path, value } => {
            if path.is_ident("visibility") {
                match value {
                    MetaValue::Str(text) => ContainerAttributes::configured_visibility(
                        reading,
                        text,
                        attr,
                        entry,
                    ),
                    MetaValue::Other => Err(ContainerError::VisibilityNotString { attr, entry }),
                }
            } else {
                Err(ContainerError::UnknownOption { attr, entry, name: path.ident_or_empty() })
            }
        },
        _ => Err(ContainerError::NotNameValue { attr, entry }),
    }
}

impl ContainerAttributes {
    /// The visibility that `visibility = "value"` configures, given in
    /// `reading` what the parser made of `value`. Where the parser read
    /// `pub`, `pub(crate)`, `pub(super)`, `pub(self)` or nothing, that is the
    /// visibility. Where it read anything else or refused the text, the error
    /// is `InvalidVisibility` for entry `entry` of attribute `attr`.
    pub fn configured_visibility(
        reading: Result<VisibilitySyntax, String>,
        value: &String,
        attr: usize,
        entry: usize,
    ) -> (r: Result<Visibility, ContainerError>)
        ensures
            outcome(r) == configured_visibility(
                outcome_of(reading),
                value@,
                attr as int,
                entry as int,
            ),
    {
        match reading {
            Ok(syntax) => match Visibility::recognise(&syntax) {
                Some(visibility) => Ok(visibility),
                None => Err(
                    ContainerError::InvalidVisibility {
                        attr,
                        entry,
                        value: value.clone(),
                        message: None,
                    },
                ),
            },
            Err(message) => Err(
                ContainerError::InvalidVisibility {
                    attr,
                    entry,
                    value: value.clone(),
                    message: Some(message),
                },
            ),
        }
    }

    /// Has the parser read the text of each `visibility = ".."` among the
    /// `#[dissolve(..)]` attributes `attrs`.
    ///
    /// The table that comes back has a row for each attribute and, in the row
    /// of a `#[dissolve(..)]` list, a place for each entry; what the parser
    /// answered is not known before it is asked.
    pub fn read_visibilities(attrs: &Vec<Attribute>) -> (r: Vec<
        Vec<Result<VisibilitySyntax, String>>,
    >)
        ensures
            visibilities_read(attrs.deep_view(), readings_of(r@)),
    {
        let mut table: Vec<Vec<Result<VisibilitySyntax, String>>> = Vec::new();
        let mut i: usize = 0;
        while i < attrs.len()
            invariant
                i <= attrs.len(),
                table.len() == i,
                forall|a: int|
                    0 <= a < i && (#[trigger] attrs.deep_view()[a]).path.is_ident("dissolve"@) ==> (
                    attrs.deep_view()[a].args matches AttrArgsModel::List(entries) ==> entries_read(
                        entries,
                        readings_of(table@)[a],
                    )),
            decreases attrs.len() - i,
        {
            let mut row: Vec<Result<VisibilitySyntax, String>> = Vec::new();
            let attribute = &attrs[i];
            if attribute.path.is_ident("dissolve") {
                if let AttrArgs::List(entries) = &attribute.args {
                    let mut j: usize = 0;
                    while j < entries.len()
                        invariant
                            j <= entries.len(),
                            row.len() == j,
                            forall|e: int|
                                0 <= e < j ==> (visibility_text(
                                    #[trigger] entries.deep_view()[e],
                                ) matches Some(text) ==> known_reading(text, outcome_of(row[e]))),
                        decreases entries.len() - j,
                    {
                        row.push(answer(&entries[j]));
                        j = j + 1;
                    }
                }
            }
            let ghost before = readings_of(table@);
            table.push(row);
            proof {
                let now = readings_of(table@);
                assert forall|a: int|
                    0 <= a < i + 1 && (#[trigger] attrs.deep_view()[a]).path.is_ident(
                        "dissolve"@,
                    ) implies (attrs.deep_view()[a].args matches AttrArgsModel::List(entries)
                    ==> entries_read(entries, now[a])) by {
                    if a < i {
                        assert(now[a] =~= before[a]);
                    }
                }
            }
            i = i + 1;
        }
        table
    }

    /// Reads the configuration off the attributes of `input`, given in
    /// `readings` what the parser made of their texts.
    ///
    /// Attributes other than `dissolve` are passed over. Each `dissolve`
    /// attribute must be a list of `visibility = ".."` entries, each with a
    /// text that was read as one of the five supported visibilities; a later
    /// entry overrides an earlier one, and without any the method is `pub`.
    /// The first attribute or entry that is not of that form is the error.
    pub fn from_derive_input_with(
        input: &DeriveInput,
        readings: &Vec<Vec<Result<VisibilitySyntax, String>>>,
    ) -> (r: Result<ContainerAttributes, ContainerError>)
        ensures
            outcome(r) == container_attributes(input@.attrs, readings_of(readings@)),
    {
        let ghost attrs = input@.attrs;
        let ghost read = readings_of(readings@);
        let mut visibility = Visibility::Public;
        let mut i: usize = 0;
        while i < input.attrs.len()
            invariant
                i <= input.attrs.len(),
                attrs == input@.attrs,
                read == readings_of(readings@),
                attributes_visibility(attrs, 0, Visibility::Public, read) == attributes_visibility(
                    attrs,
                    i as int,
                    visibility,
                    read,
                ),
            decreases input.attrs.len() - i,
        {
            let attribute = &input.attrs[i];
            if attribute.path.is_ident("dissolve") {
                match &attribute.args {
                    AttrArgs::List(entries) => {
                        let ghost before = visibility;
                        let mut j: usize = 0;
                        while j < entries.len()
                            invariant
                                j <= entries.len(),
                                i < input.attrs.len(),
                                attrs == input@.attrs,
                                read == readings_of(readings@),
                                attrs[i as int] == attribute@,
                                attribute@.path.is_ident("dissolve"@),
                                attribute@.args == AttrArgsModel::List(entries.deep_view()),
                                attributes_visibility(attrs, 0, Visibility::Public, read)
                                    == attributes_visibility(attrs, i as int, before, read),
                                entries_visibility(entries.deep_view(), i as int, 0, before, read)
                                    == entries_visibility(
                                    entries.deep_view(),
                                    i as int,
                                    j as int,
                                    visibility,
                                    read,
                                ),
                            decreases entries.len() - j,
                        {
                            let answer = reading(readings, i, j);
                            match read_entry(&entries[j], i, j, answer) {
                                Ok(next) => {
                                    visibility = next;
                                },
                                Err(error) => {
                                    return Err(error);
                                },
                            }
                            j = j + 1;
                        }
                    },
                    AttrArgs::Malformed(message) => {
                        return Err(ContainerError::Syntax { attr: i, message: message.clone() });
                    },
                    _ => {
                        return Err(ContainerError::NotAList { attr: i });
                    },
                }
            }
            i = i + 1;
        }
        Ok(ContainerAttributes { visibility })
    }

    /// Reads the configuration off the attributes of `input`.
    ///
    /// The texts of the `visibility = ".."` entries are handed to the parser,
    /// and the configuration is what [`Self::from_derive_input_with`] gives
    /// for its answers. What the parser answers is not known beforehand: the
    /// result is promised for some answers, one for each text.
    pub fn from_derive_input(input: &DeriveInput) -> (r: Result<
        ContainerAttributes,
        ContainerError,
    >)
        ensures
            exists|readings: Seq<Seq<VisibilityReading>>|
                visibilities_read(input@.attrs, readings) && outcome(r) == #[trigger] container_attributes(
                    input@.attrs,
                    readings,
                ),
    {
        let readings = ContainerAttributes::read_visibilities(&input.attrs);
        ContainerAttributes::from_derive_input_with(input, &readings)
    }
}

} // verus!
