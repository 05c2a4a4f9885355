//! What holds of every declaration: properties of the generator that follow
//! from its definitions, each proved here.

use vstd::prelude::*;

use crate::container::{
    attribute_visibility, attributes_visibility, container_attributes, entries_visibility,
    entry_visibility, visibilities_read, visibility_text, ContainerAttributesModel,
    VisibilityReading,
};
use crate::error::{ContainerErrorModel, DissolveErrorModel, FieldErrorModel, OptionErrorModel};
use crate::field::{
    attribute_info, attributes_info, entries_info, entry_info, field_info, option_of,
    DissolvedOptionModel, FieldInfoModel, IdentReading,
};
use crate::generate::{
    dissolve_impl, dissolved_field, dissolved_fields, doc_positions, named_struct_impl,
    tuple_elements, tuple_struct_impl, DissolveImplModel, DissolvedFieldModel, DissolvedModel,
    TupleElementModel,
};
use crate::syntax::{
    AttrArgsModel, AttributeModel, DataModel, DeriveInputModel, FieldModel, FieldsModel,
    GenericsModel, MetaModel, MetaValueModel, NamedFieldModel,
};
use crate::reading::{reading_at, readings_for};
use crate::visibility::{lemma_supported_is_recognised, recognised, supported, Visibility};

verus! {

/// The attributes `attrs` of a field decide that the field is handed out.
pub open spec fn keeps(attrs: Seq<AttributeModel>, readings: Seq<Seq<IdentReading>>) -> bool {
    field_info(attrs, readings) matches Ok(info) && !info.should_skip
}

/// The attributes `attrs` of a field decide that the field is left out.
pub open spec fn skips(attrs: Seq<AttributeModel>, readings: Seq<Seq<IdentReading>>) -> bool {
    field_info(attrs, readings) matches Ok(info) && info.should_skip
}

/// The companion's fields `out` are exactly the kept fields among
/// `fields[from..]`, each once and in the declaration's order, and each is
/// made from its field as `dissolved_field` says.
pub open spec fn companion_of(
    out: Seq<DissolvedFieldModel>,
    fields: Seq<NamedFieldModel>,
    from: int,
    renames: Seq<Seq<Seq<IdentReading>>>,
) -> bool {
    &&& forall|k: int|
        0 <= k < out.len() ==> {
            &&& from <= (#[trigger] out[k]).source < fields.len()
            &&& keeps(fields[out[k].source].field.attrs, readings_for(renames, out[k].source))
            &&& out[k] == dissolved_field(
                fields[out[k].source],
                out[k].source,
                field_info(
                    fields[out[k].source].field.attrs,
                    readings_for(renames, out[k].source),
                )->Ok_0,
            )
        }
    &&& forall|j: int, k: int|
        0 <= j < k < out.len() ==> (#[trigger] out[j]).source < (#[trigger] out[k]).source
    &&& forall|i: int|
        from <= i < fields.len() ==> {
            ||| skips(#[trigger] fields[i].field.attrs, readings_for(renames, i))
            ||| (keeps(fields[i].field.attrs, readings_for(renames, i)) && exists|k: int|
                0 <= k < out.len() && (#[trigger] out[k]).source == i)
        }
}

/// The tuple's elements `out` are exactly the kept fields among
/// `fields[from..]`, each once and in the declaration's order, each with its
/// field's type, and none of them renamed.
pub open spec fn tuple_of(
    out: Seq<TupleElementModel>,
    fields: Seq<FieldModel>,
    from: int,
    renames: Seq<Seq<Seq<IdentReading>>>,
) -> bool {
    &&& forall|k: int|
        0 <= k < out.len() ==> {
            &&& from <= (#[trigger] out[k]).source < fields.len()
            &&& keeps(fields[out[k].source].attrs, readings_for(renames, out[k].source))
            &&& field_info(
                fields[out[k].source].attrs,
                readings_for(renames, out[k].source),
            )->Ok_0.renamed_to is None
            &&& out[k].ty == fields[out[k].source].ty
        }
    &&& forall|j: int, k: int|
        0 <= j < k < out.len() ==> (#[trigger] out[j]).source < (#[trigger] out[k]).source
    &&& forall|i: int|
        from <= i < fields.len() ==> {
            ||| skips(#[trigger] fields[i].attrs, readings_for(renames, i))
            ||| (keeps(fields[i].attrs, readings_for(renames, i)) && exists|k: int|
                0 <= k < out.len() && (#[trigger] out[k]).source == i)
        }
}

proof fn lemma_dissolved_fields(
    fields: Seq<NamedFieldModel>,
    from: int,
    renames: Seq<Seq<Seq<IdentReading>>>,
)
    requires
        0 <= from <= fields.len(),
    ensures
        dissolved_fields(fields, from, renames) matches Ok(out) ==> companion_of(out, fields, from, renames),
    decreases fields.len() - from,
{
    if from < fields.len() {
        lemma_dissolved_fields(fields, from + 1, renames);
        if let Ok(out) = dissolved_fields(fields, from, renames) {
            let rest = dissolved_fields(fields, from + 1, renames)->Ok_0;
            if keeps(fields[from].field.attrs, readings_for(renames, from)) {
                // `out` is the field at `from` in front of `rest`: every kept
                // field behind `from` is found one place further on.
                assert forall|i: int| from <= i < fields.len() implies {
                    ||| skips(#[trigger] fields[i].field.attrs, readings_for(renames, i))
                    ||| (keeps(fields[i].field.attrs, readings_for(renames, i)) && exists|k: int|
                        0 <= k < out.len() && (#[trigger] out[k]).source == i)
                } by {
                    if i == from {
                        assert(out[0].source == i);
                    } else if !skips(fields[i].field.attrs, readings_for(renames, i)) {
                        let k = choose|k: int| 0 <= k < rest.len() && (#[trigger] rest[k]).source == i;
                        assert(out[k + 1].source == i);
                    }
                }
            }
        }
    }
}

proof fn lemma_tuple_elements(
    fields: Seq<FieldModel>,
    from: int,
    renames: Seq<Seq<Seq<IdentReading>>>,
)
    requires
        0 <= from <= fields.len(),
    ensures
        tuple_elements(fields, from, renames) matches Ok(out) ==> tuple_of(out, fields, from, renames),
    decreases fields.len() - from,
{
    if from < fields.len() {
        lemma_tuple_elements(fields, from + 1, renames);
        if let Ok(out) = tuple_elements(fields, from, renames) {
            let rest = tuple_elements(fields, from + 1, renames)->Ok_0;
            if keeps(fields[from].attrs, readings_for(renames, from)) {
                // `out` is the field at `from` in front of `rest`.
                assert forall|j: int, k: int| 0 <= j < k < out.len() implies (#[trigger] out[j]).source
                    < (#[trigger] out[k]).source by {}
                assert forall|i: int| from <= i < fields.len() implies {
                    ||| skips(#[trigger] fields[i].attrs, readings_for(renames, i))
                    ||| (keeps(fields[i].attrs, readings_for(renames, i)) && exists|k: int|
                        0 <= k < out.len() && (#[trigger] out[k]).source == i)
                } by {
                    if i == from {
                        assert(out[0].source == i);
                    } else if !skips(fields[i].attrs, readings_for(renames, i)) {
                        let k = choose|k: int| 0 <= k < rest.len() && (#[trigger] rest[k]).source == i;
                        assert(out[k + 1].source == i);
                    }
                }
            }
        }
    }
}

/// The companion has exactly the kept fields, in the declaration's order.
///
/// Where a struct with named fields gets its `dissolve`, the companion's
/// fields are the fields that are not skipped, each once and in the order of
/// the declaration; each has its field's type and doc attributes, and the
/// name that `rename` gives it or else its own. There is at least one.
pub proof fn law_companion_fields(
    struct_name: Seq<char>,
    generics: GenericsModel,
    fields: Seq<NamedFieldModel>,
    container: ContainerAttributesModel,
    renames: Seq<Seq<Seq<IdentReading>>>,
)
    ensures
        named_struct_impl(struct_name, generics, fields, container, renames) matches Ok(emitted) ==> {
            &&& emitted.output matches DissolvedModel::Struct(companion)
            &&& companion.fields.len() > 0
            &&& companion_of(companion.fields, fields, 0, renames)
        },
{
    lemma_dissolved_fields(fields, 0, renames);
}

/// The companion does not depend on the visibility.
///
/// Two configurations give the same companion, or the same error, for the
/// same struct; only the method's visibility follows the configuration.
pub proof fn law_companion_ignores_visibility(
    struct_name: Seq<char>,
    generics: GenericsModel,
    fields: Seq<NamedFieldModel>,
    one: ContainerAttributesModel,
    other: ContainerAttributesModel,
    renames: Seq<Seq<Seq<IdentReading>>>,
)
    ensures
        match named_struct_impl(struct_name, generics, fields, one, renames) {
            Ok(emitted) => named_struct_impl(struct_name, generics, fields, other, renames) == Ok::<
                DissolveImplModel,
                DissolveErrorModel,
            >(DissolveImplModel { visibility: other.visibility, ..emitted }),
            Err(error) => named_struct_impl(struct_name, generics, fields, other, renames) == Err::<
                DissolveImplModel,
                DissolveErrorModel,
            >(error),
        },
{
}

/// A skipped field is in no companion.
///
/// Where a struct with named fields gets its `dissolve`, no field of the
/// companion is made from a field that is skipped, whatever its name.
pub proof fn law_skipped_field_not_in_companion(
    struct_name: Seq<char>,
    generics: GenericsModel,
    fields: Seq<NamedFieldModel>,
    container: ContainerAttributesModel,
    skipped: int,
    renames: Seq<Seq<Seq<IdentReading>>>,
)
    requires
        0 <= skipped < fields.len(),
        skips(fields[skipped].field.attrs, readings_for(renames, skipped)),
    ensures
        named_struct_impl(struct_name, generics, fields, container, renames) matches Ok(emitted) ==> {
            &&& emitted.output matches DissolvedModel::Struct(companion)
            &&& forall|k: int|
                0 <= k < companion.fields.len() ==> (#[trigger] companion.fields[k]).source
                    != skipped
        },
{
    lemma_dissolved_fields(fields, 0, renames);
}

/// A skipped field is in no tuple.
///
/// Where a tuple struct gets its `dissolve`, no element of the tuple is made
/// from a field that is skipped.
pub proof fn law_skipped_field_not_in_tuple(
    struct_name: Seq<char>,
    generics: GenericsModel,
    fields: Seq<FieldModel>,
    container: ContainerAttributesModel,
    skipped: int,
    renames: Seq<Seq<Seq<IdentReading>>>,
)
    requires
        0 <= skipped < fields.len(),
        skips(fields[skipped].attrs, readings_for(renames, skipped)),
    ensures
        tuple_struct_impl(struct_name, generics, fields, container, renames) matches Ok(emitted) ==> {
            &&& emitted.output matches DissolvedModel::Tuple(elements)
            &&& forall|k: int|
                0 <= k < elements.len() ==> (#[trigger] elements[k]).source != skipped
        },
{
    lemma_tuple_elements(fields, 0, renames);
}

/// The tuple has exactly the kept fields, in the declaration's order.
///
/// Where a tuple struct gets its `dissolve`, the elements of the tuple are
/// the fields that are not skipped, each once and in their positional order,
/// each with its field's type. There is at least one.
pub proof fn law_tuple_order(
    struct_name: Seq<char>,
    generics: GenericsModel,
    fields: Seq<FieldModel>,
    container: ContainerAttributesModel,
    renames: Seq<Seq<Seq<IdentReading>>>,
)
    ensures
        tuple_struct_impl(struct_name, generics, fields, container, renames) matches Ok(emitted) ==> {
            &&& emitted.output matches DissolvedModel::Tuple(elements)
            &&& elements.len() > 0
            &&& tuple_of(elements, fields, 0, renames)
        },
{
    lemma_tuple_elements(fields, 0, renames);
}

/// The positions `docs` are exactly those of the doc attributes among
/// `attrs[from..]`, in rising order.
pub open spec fn docs_of(docs: Seq<int>, attrs: Seq<AttributeModel>, from: int) -> bool {
    &&& forall|k: int|
        0 <= k < docs.len() ==> from <= #[trigger] docs[k] < attrs.len()
            && attrs[docs[k]].path.is_ident("doc"@)
    &&& forall|j: int, k: int| 0 <= j < k < docs.len() ==> #[trigger] docs[j] < #[trigger] docs[k]
    &&& forall|i: int|
        from <= i < attrs.len() && (#[trigger] attrs[i]).path.is_ident("doc"@) ==> docs.contains(i)
}

proof fn lemma_doc_positions(attrs: Seq<AttributeModel>, from: int)
    requires
        0 <= from <= attrs.len(),
    ensures
        docs_of(doc_positions(attrs, from), attrs, from),
    decreases attrs.len() - from,
{
    if from < attrs.len() {
        lemma_doc_positions(attrs, from + 1);
        let rest = doc_positions(attrs, from + 1);
        let docs = doc_positions(attrs, from);
        if attrs[from].path.is_ident("doc"@) {
            // `docs` is `from` in front of `rest`.
            assert(docs[0] == from);
            assert forall|i: int|
                from <= i < attrs.len() && (#[trigger] attrs[i]).path.is_ident(
                    "doc"@,
                ) implies docs.contains(i) by {
                if i > from {
                    let k = choose|k: int| 0 <= k < rest.len() && rest[k] == i;
                    assert(docs[k + 1] == i);
                }
            }
        }
    }
}

/// Names, types and documentation are carried over.
///
/// Where a struct with named fields gets its `dissolve`, each field of the
/// companion is called as `rename` on its field says, or else as that field
/// is called; it is filled from that field, has that field's type, and
/// carries that field's doc attributes, all of them and in their order.
pub proof fn law_companion_field(
    struct_name: Seq<char>,
    generics: GenericsModel,
    fields: Seq<NamedFieldModel>,
    container: ContainerAttributesModel,
    k: int,
    renames: Seq<Seq<Seq<IdentReading>>>,
)
    ensures
        named_struct_impl(struct_name, generics, fields, container, renames) matches Ok(emitted) ==> {
            &&& emitted.output matches DissolvedModel::Struct(companion)
            &&& 0 <= k < companion.fields.len() ==> {
                let made = companion.fields[k];
                let field = fields[made.source];
                &&& 0 <= made.source < fields.len()
                &&& field_info(
                    field.field.attrs,
                    readings_for(renames, made.source),
                ) matches Ok(info)
                &&& !info.should_skip
                &&& made.name == match info.renamed_to {
                    Some(renamed) => renamed,
                    None => field.name,
                }
                &&& made.origin == field.name
                &&& made.ty == field.field.ty
                &&& docs_of(made.docs, field.field.attrs, 0)
            }
        },
{
    lemma_dissolved_fields(fields, 0, renames);
    if let Ok(emitted) = named_struct_impl(struct_name, generics, fields, container, renames) {
        let companion = emitted.output->Struct_0;
        if 0 <= k < companion.fields.len() {
            let made = companion.fields[k];
            lemma_doc_positions(fields[made.source].field.attrs, 0);
        }
    }
}

/// No `#[dissolve(..)]` entry stands in `attrs[from..]`: each attribute
/// there is another one, or a `#[dissolve()]` with an empty list.
pub open spec fn unconfigured(attrs: Seq<AttributeModel>, from: int) -> bool {
    forall|i: int|
        from <= i < attrs.len() ==> {
            ||| !(#[trigger] attrs[i]).path.is_ident("dissolve"@)
            ||| attrs[i].args == AttrArgsModel::List(Seq::<MetaModel>::empty())
        }
}

proof fn lemma_unconfigured(
    attrs: Seq<AttributeModel>,
    from: int,
    current: Visibility,
    visibilities: Seq<Seq<VisibilityReading>>,
)
    requires
        0 <= from <= attrs.len(),
        unconfigured(attrs, from),
    ensures
        attributes_visibility(attrs, from, current, visibilities) == Ok::<Visibility, ContainerErrorModel>(
            current,
        ),
    decreases attrs.len() - from,
{
    if from < attrs.len() {
        assert(attribute_visibility(attrs[from], from, current, visibilities) == Ok::<
            Visibility,
            ContainerErrorModel,
        >(current));
        lemma_unconfigured(attrs, from + 1, current, visibilities);
    }
}

/// Without configuration the method is `pub`.
///
/// Where no attribute on the declaration is a `#[dissolve(..)]` with an
/// entry, the configuration is read without error and the visibility is
/// `pub`.
pub proof fn law_default_visibility(
    attrs: Seq<AttributeModel>,
    visibilities: Seq<Seq<VisibilityReading>>,
)
    requires
        unconfigured(attrs, 0),
    ensures
        container_attributes(attrs, visibilities) == Ok::<ContainerAttributesModel, ContainerErrorModel>(
            ContainerAttributesModel { visibility: Visibility::Public },
        ),
{
    lemma_unconfigured(attrs, 0, Visibility::Public, visibilities);
}

proof fn lemma_last_entry(
    entries: Seq<MetaModel>,
    attr: int,
    from: int,
    current: Visibility,
    visibilities: Seq<Seq<VisibilityReading>>,
)
    requires
        0 <= from < entries.len(),
    ensures
        entries_visibility(entries, attr, from, current, visibilities) matches Ok(visibility)
            ==> entry_visibility(
                entries[entries.len() - 1],
                attr,
                entries.len() - 1,
                reading_at(visibilities, attr, entries.len() - 1),
            ) == Ok::<
            Visibility,
            ContainerErrorModel,
        >(visibility),
    decreases entries.len() - from,
{
    if from + 1 < entries.len() {
        if let Ok(next) = entry_visibility(
            entries[from],
            attr,
            from,
            reading_at(visibilities, attr, from),
        ) {
            lemma_last_entry(entries, attr, from + 1, next, visibilities);
        }
    } else {
        if let Ok(next) = entry_visibility(
            entries[from],
            attr,
            from,
            reading_at(visibilities, attr, from),
        ) {
            assert(entries_visibility(entries, attr, from + 1, next, visibilities) == Ok::<
                Visibility,
                ContainerErrorModel,
            >(next));
        }
    }
}

proof fn lemma_last_configured(
    attrs: Seq<AttributeModel>,
    from: int,
    current: Visibility,
    attr: int,
    visibilities: Seq<Seq<VisibilityReading>>,
)
    requires
        0 <= from <= attr < attrs.len(),
        attrs[attr].path.is_ident("dissolve"@),
        attrs[attr].args matches AttrArgsModel::List(entries) && entries.len() > 0,
        unconfigured(attrs, attr + 1),
    ensures
        attributes_visibility(attrs, from, current, visibilities) matches Ok(visibility) ==> {
            let entries = attrs[attr].args->List_0;
            entry_visibility(
                entries[entries.len() - 1],
                attr,
                entries.len() - 1,
                reading_at(visibilities, attr, entries.len() - 1),
            ) == Ok::<
                Visibility,
                ContainerErrorModel,
            >(visibility)
        },
    decreases attr - from,
{
    if from < attr {
        if let Ok(next) = attribute_visibility(attrs[from], from, current, visibilities) {
            lemma_last_configured(attrs, from + 1, next, attr, visibilities);
        }
    } else {
        let entries = attrs[attr].args->List_0;
        if let Ok(mid) = entries_visibility(entries, attr, 0, current, visibilities) {
            lemma_last_entry(entries, attr, 0, current, visibilities);
            lemma_unconfigured(attrs, attr + 1, mid, visibilities);
        }
    }
}

/// The last `visibility = ".."` decides.
///
/// Where the configuration is read without error and entry `entry` of
/// attribute `attr` is the last entry of all `#[dissolve(..)]` attributes,
/// that entry is `visibility = "text"`, its text was read as one of the five
/// supported visibilities, and that one is configured.
pub proof fn law_configured_visibility(
    attrs: Seq<AttributeModel>,
    attr: int,
    entry: int,
    visibilities: Seq<Seq<VisibilityReading>>,
)
    requires
        0 <= attr < attrs.len(),
        attrs[attr].path.is_ident("dissolve"@),
        attrs[attr].args matches AttrArgsModel::List(entries) && entry == entries.len() - 1
            && entry >= 0,
        unconfigured(attrs, attr + 1),
    ensures
        container_attributes(attrs, visibilities) matches Ok(container) ==> {
            &&& attrs[attr].args->List_0[entry] matches MetaModel::NameValue { path, value }
            &&& path.is_ident("visibility"@)
            &&& value matches MetaValueModel::Str(text)
            &&& reading_at(visibilities, attr, entry) matches Ok(syntax)
            &&& recognised(syntax) == Some(container.visibility)
        },
{
    lemma_last_configured(attrs, 0, Visibility::Public, attr, visibilities);
}

/// The method has the configured visibility.
///
/// Where a declaration gets its `dissolve`, the attributes on the declaration
/// give a configuration, and the method's visibility is the configured one:
/// `pub` where nothing is configured.
pub proof fn law_visibility_propagates(
    input: DeriveInputModel,
    visibilities: Seq<Seq<VisibilityReading>>,
    renames: Seq<Seq<Seq<IdentReading>>>,
)
    ensures
        dissolve_impl(input, visibilities, renames) matches Ok(emitted) ==> {
            &&& container_attributes(input.attrs, visibilities) matches Ok(container)
            &&& emitted.visibility == container.visibility
            &&& unconfigured(input.attrs, 0) ==> emitted.visibility == Visibility::Public
        },
{
    if unconfigured(input.attrs, 0) {
        law_default_visibility(input.attrs, visibilities);
    }
}

proof fn lemma_all_skipped_named(
    fields: Seq<NamedFieldModel>,
    from: int,
    renames: Seq<Seq<Seq<IdentReading>>>,
)
    requires
        0 <= from <= fields.len(),
        forall|i: int| 0 <= i < fields.len() ==> skips(
            #[trigger] fields[i].field.attrs,
            readings_for(renames, i),
        ),
    ensures
        dissolved_fields(fields, from, renames) == Ok::<Seq<DissolvedFieldModel>, DissolveErrorModel>(
            Seq::<DissolvedFieldModel>::empty(),
        ),
    decreases fields.len() - from,
{
    if from < fields.len() {
        lemma_all_skipped_named(fields, from + 1, renames);
    }
}

proof fn lemma_all_skipped_tuple(
    fields: Seq<FieldModel>,
    from: int,
    renames: Seq<Seq<Seq<IdentReading>>>,
)
    requires
        0 <= from <= fields.len(),
        forall|i: int| 0 <= i < fields.len() ==> skips(
            #[trigger] fields[i].attrs,
            readings_for(renames, i),
        ),
    ensures
        tuple_elements(fields, from, renames) == Ok::<Seq<TupleElementModel>, DissolveErrorModel>(
            Seq::<TupleElementModel>::empty(),
        ),
    decreases fields.len() - from,
{
    if from < fields.len() {
        lemma_all_skipped_tuple(fields, from + 1, renames);
    }
}

/// A struct whose named fields are all skipped gets nothing.
///
/// Where every field is skipped, and so too where there is no field,
/// generation fails with `NoFieldsLeft`: no companion and no method.
pub proof fn law_all_skipped_named(
    struct_name: Seq<char>,
    generics: GenericsModel,
    fields: Seq<NamedFieldModel>,
    container: ContainerAttributesModel,
    renames: Seq<Seq<Seq<IdentReading>>>,
)
    requires
        forall|i: int| 0 <= i < fields.len() ==> skips(
            #[trigger] fields[i].field.attrs,
            readings_for(renames, i),
        ),
    ensures
        named_struct_impl(struct_name, generics, fields, container, renames) == Err::<
            DissolveImplModel,
            DissolveErrorModel,
        >(DissolveErrorModel::NoFieldsLeft),
{
    lemma_all_skipped_named(fields, 0, renames);
}

/// A tuple struct whose fields are all skipped gets nothing.
///
/// Where every field is skipped, and so too where there is no field,
/// generation fails with `NoElementsLeft`: no method.
pub proof fn law_all_skipped_tuple(
    struct_name: Seq<char>,
    generics: GenericsModel,
    fields: Seq<FieldModel>,
    container: ContainerAttributesModel,
    renames: Seq<Seq<Seq<IdentReading>>>,
)
    requires
        forall|i: int| 0 <= i < fields.len() ==> skips(
            #[trigger] fields[i].attrs,
            readings_for(renames, i),
        ),
    ensures
        tuple_struct_impl(struct_name, generics, fields, container, renames) == Err::<
            DissolveImplModel,
            DissolveErrorModel,
        >(DissolveErrorModel::NoElementsLeft),
{
    lemma_all_skipped_tuple(fields, 0, renames);
}

/// Every field of the declaration `input` is skipped.
pub open spec fn all_skipped(
    input: DeriveInputModel,
    renames: Seq<Seq<Seq<IdentReading>>>,
) -> bool {
    match input.data {
        DataModel::Struct(FieldsModel::Named(fields)) => forall|i: int|
            0 <= i < fields.len() ==> skips(
                #[trigger] fields[i].field.attrs,
                readings_for(renames, i),
            ),
        DataModel::Struct(FieldsModel::Unnamed(fields)) => forall|i: int|
            0 <= i < fields.len() ==> skips(#[trigger] fields[i].attrs, readings_for(renames, i)),
        _ => false,
    }
}

/// A declaration whose fields are all skipped gets nothing.
///
/// Whatever else the declaration holds, generation fails; where the
/// attributes on the declaration are in order, it fails because nothing is
/// left.
pub proof fn law_all_skipped(
    input: DeriveInputModel,
    visibilities: Seq<Seq<VisibilityReading>>,
    renames: Seq<Seq<Seq<IdentReading>>>,
)
    requires
        all_skipped(input, renames),
    ensures
        dissolve_impl(input, visibilities, renames) is Err,
        container_attributes(input.attrs, visibilities) is Ok ==> dissolve_impl(input, visibilities, renames) == Err::<
            DissolveImplModel,
            DissolveErrorModel,
        >(
            if input.data is Struct && input.data->Struct_0 is Named {
                DissolveErrorModel::NoFieldsLeft
            } else {
                DissolveErrorModel::NoElementsLeft
            },
        ),
{
    if let Ok(container) = container_attributes(input.attrs, visibilities) {
        match input.data {
            DataModel::Struct(FieldsModel::Named(fields)) => {
                law_all_skipped_named(input.name, input.generics, fields, container, renames);
            },
            DataModel::Struct(FieldsModel::Unnamed(fields)) => {
                law_all_skipped_tuple(input.name, input.generics, fields, container, renames);
            },
            _ => {},
        }
    }
}

proof fn lemma_entries_prefix(
    entries: Seq<MetaModel>,
    attr: int,
    from: int,
    upto: int,
    info: FieldInfoModel,
    readings: Seq<Seq<IdentReading>>,
)
    requires
        0 <= from <= upto <= entries.len(),
    ensures
        entries_info(entries, attr, from, info, readings) == match entries_info(
            entries.take(upto),
            attr,
            from,
            info,
            readings,
        ) {
            Ok(reached) => entries_info(entries, attr, upto, reached, readings),
            Err(error) => Err(error),
        },
    decreases upto - from,
{
    if from < upto {
        if let Ok(next) = entry_info(
            entries[from],
            attr,
            from,
            info,
            reading_at(readings, attr, from),
        ) {
            lemma_entries_prefix(entries, attr, from + 1, upto, next, readings);
        }
    }
}

proof fn lemma_attributes_prefix(
    attrs: Seq<AttributeModel>,
    from: int,
    upto: int,
    info: FieldInfoModel,
    readings: Seq<Seq<IdentReading>>,
)
    requires
        0 <= from <= upto <= attrs.len(),
    ensures
        attributes_info(attrs, from, info, readings) == match attributes_info(attrs.take(upto), from, info, readings) {
            Ok(reached) => attributes_info(attrs, upto, reached, readings),
            Err(error) => Err(error),
        },
    decreases upto - from,
{
    if from < upto {
        if let Ok(next) = attribute_info(attrs[from], from, info, readings) {
            lemma_attributes_prefix(attrs, from + 1, upto, next, readings);
        }
    }
}

/// The decision that is reached when the reading of a field's attributes
/// `attrs` arrives at entry `entry` of attribute `attr`: all attributes before
/// `attr` and all entries of `attr` before `entry` are read, nothing else.
pub open spec fn decision_before(
    attrs: Seq<AttributeModel>,
    attr: int,
    entry: int,
    readings: Seq<Seq<IdentReading>>,
) -> Result<
    FieldInfoModel,
    FieldErrorModel,
> {
    match attributes_info(attrs.take(attr), 0, FieldInfoModel::new(), readings) {
        Ok(reached) => match attrs[attr].args {
            AttrArgsModel::List(entries) => entries_info(entries.take(entry), attr, 0, reached, readings),
            _ => Ok(reached),
        },
        Err(error) => Err(error),
    }
}

/// Entry `entry` of attribute `attr` of a field is an option of
/// `#[dissolved(..)]`, and the reading arrives at it with decision `info`.
pub open spec fn arrives_at(
    attrs: Seq<AttributeModel>,
    attr: int,
    entry: int,
    info: FieldInfoModel,
    option: DissolvedOptionModel,
    readings: Seq<Seq<IdentReading>>,
) -> bool {
    &&& 0 <= attr < attrs.len()
    &&& attrs[attr].path.is_ident("dissolved"@)
    &&& attrs[attr].args matches AttrArgsModel::List(entries)
    &&& 0 <= entry < entries.len()
    &&& option_of(
        entries[entry],
        reading_at(readings, attr, entry),
    ) == Ok::<DissolvedOptionModel, OptionErrorModel>(option)
    &&& decision_before(attrs, attr, entry, readings) == Ok::<FieldInfoModel, FieldErrorModel>(info)
}

proof fn lemma_fault_at(
    attrs: Seq<AttributeModel>,
    attr: int,
    entry: int,
    info: FieldInfoModel,
    option: DissolvedOptionModel,
    readings: Seq<Seq<IdentReading>>,
)
    requires
        arrives_at(attrs, attr, entry, info, option, readings),
        info.with_option(option, attr) is Err,
    ensures
        field_info(attrs, readings) == Err::<FieldInfoModel, FieldErrorModel>(
            info.with_option(option, attr)->Err_0,
        ),
{
    let entries = attrs[attr].args->List_0;
    let start = FieldInfoModel::new();
    lemma_attributes_prefix(attrs, 0, attr, start, readings);
    let reached = attributes_info(attrs.take(attr), 0, start, readings)->Ok_0;
    lemma_entries_prefix(entries, attr, 0, entry, reached, readings);
    assert(entries_info(entries, attr, entry, info, readings) == Err::<FieldInfoModel, FieldErrorModel>(
        info.with_option(option, attr)->Err_0,
    ));
}

/// `skip` and `rename` on one field are refused, in either order.
///
/// Where the reading of a field's attributes arrives without fault at a
/// `rename` after the field was skipped, or at a `skip` after it was renamed,
/// the field gets no decision: the error is `RenameOnSkipped` at the
/// attribute that brought the second of the two.
pub proof fn law_skip_and_rename_conflict(
    attrs: Seq<AttributeModel>,
    attr: int,
    entry: int,
    info: FieldInfoModel,
    option: DissolvedOptionModel,
    readings: Seq<Seq<IdentReading>>,
)
    requires
        arrives_at(attrs, attr, entry, info, option, readings),
        (info.should_skip && option is Rename) || (info.renamed_to is Some && option is Skip),
    ensures
        field_info(attrs, readings) == Err::<FieldInfoModel, FieldErrorModel>(FieldErrorModel::RenameOnSkipped { attr }),
{
    lemma_fault_at(attrs, attr, entry, info, option, readings);
}

/// A second `rename` on one field is refused.
///
/// Where the reading of a field's attributes arrives without fault at a
/// `rename` after the field was renamed and not skipped, the field gets no
/// decision: the error is `DuplicateRename` at the attribute that brought the
/// second `rename`.
pub proof fn law_second_rename_refused(
    attrs: Seq<AttributeModel>,
    attr: int,
    entry: int,
    info: FieldInfoModel,
    option: DissolvedOptionModel,
    readings: Seq<Seq<IdentReading>>,
)
    requires
        arrives_at(attrs, attr, entry, info, option, readings),
        info.renamed_to is Some,
        !info.should_skip,
        option is Rename,
    ensures
        field_info(attrs, readings) == Err::<FieldInfoModel, FieldErrorModel>(FieldErrorModel::DuplicateRename { attr }),
{
    lemma_fault_at(attrs, attr, entry, info, option, readings);
}

proof fn lemma_rename_on_tuple_field(
    fields: Seq<FieldModel>,
    from: int,
    field: int,
    renames: Seq<Seq<Seq<IdentReading>>>,
)
    requires
        0 <= from <= field < fields.len(),
        field_info(
            fields[field].attrs,
            readings_for(renames, field),
        ) matches Ok(info) && !info.should_skip
            && info.renamed_to is Some,
        forall|i: int|
            0 <= i < field ==> (field_info(
                #[trigger] fields[i].attrs,
                readings_for(renames, i),
            ) matches Ok(info)
                && (info.should_skip || info.renamed_to is None)),
    ensures
        tuple_elements(fields, from, renames) == Err::<Seq<TupleElementModel>, DissolveErrorModel>(
            DissolveErrorModel::RenameOnTupleField { field },
        ),
    decreases field - from,
{
    if from < field {
        lemma_rename_on_tuple_field(fields, from + 1, field, renames);
    }
}

/// `rename` on a field of a tuple struct is refused.
///
/// Where a field of a tuple struct is kept and renamed, and no field before
/// it is at fault, generation fails with `RenameOnTupleField` for that field.
pub proof fn law_rename_on_tuple_field(
    struct_name: Seq<char>,
    generics: GenericsModel,
    fields: Seq<FieldModel>,
    container: ContainerAttributesModel,
    field: int,
    renames: Seq<Seq<Seq<IdentReading>>>,
)
    requires
        0 <= field < fields.len(),
        field_info(
            fields[field].attrs,
            readings_for(renames, field),
        ) matches Ok(info) && !info.should_skip
            && info.renamed_to is Some,
        forall|i: int|
            0 <= i < field ==> (field_info(
                #[trigger] fields[i].attrs,
                readings_for(renames, i),
            ) matches Ok(info)
                && (info.should_skip || info.renamed_to is None)),
    ensures
        tuple_struct_impl(struct_name, generics, fields, container, renames) == Err::<
            DissolveImplModel,
            DissolveErrorModel,
        >(DissolveErrorModel::RenameOnTupleField { field }),
{
    lemma_rename_on_tuple_field(fields, 0, field, renames);
}

/// The attributes `attrs` of a field are at fault: they give no decision.
pub open spec fn faulty(attrs: Seq<AttributeModel>, readings: Seq<Seq<IdentReading>>) -> bool {
    field_info(attrs, readings) is Err
}

/// The attributes `attrs` of a field of a tuple struct stand in the way of
/// the tuple: they give no decision, or they keep and rename the field.
pub open spec fn faulty_in_tuple(
    attrs: Seq<AttributeModel>,
    readings: Seq<Seq<IdentReading>>,
) -> bool {
    match field_info(attrs, readings) {
        Ok(info) => !info.should_skip && info.renamed_to is Some,
        Err(error) => true,
    }
}

/// What is reported for a field of a tuple struct with the attributes
/// `attrs`, which stand in the way of the tuple.
pub open spec fn fault_in_tuple(
    attrs: Seq<AttributeModel>,
    field: int,
    readings: Seq<Seq<IdentReading>>,
) -> DissolveErrorModel {
    match field_info(attrs, readings) {
        Ok(info) => DissolveErrorModel::RenameOnTupleField { field },
        Err(error) => DissolveErrorModel::Field { field, error },
    }
}

proof fn lemma_named_faults(
    fields: Seq<NamedFieldModel>,
    from: int,
    renames: Seq<Seq<Seq<IdentReading>>>,
)
    requires
        0 <= from <= fields.len(),
    ensures
        match dissolved_fields(fields, from, renames) {
            Ok(out) => forall|i: int|
                from <= i < fields.len() ==> !faulty(
                    #[trigger] fields[i].field.attrs,
                    readings_for(renames, i),
                ),
            Err(error) => exists|i: int|
                {
                    &&& from <= i < fields.len()
                    &&& faulty(#[trigger] fields[i].field.attrs, readings_for(renames, i))
                    &&& error == DissolveErrorModel::Field {
                        field: i,
                        error: field_info(fields[i].field.attrs, readings_for(renames, i))->Err_0,
                    }
                    &&& forall|j: int| from <= j < i ==> !faulty(
                        #[trigger] fields[j].field.attrs,
                        readings_for(renames, j),
                    )
                },
        },
    decreases fields.len() - from,
{
    if from < fields.len() {
        lemma_named_faults(fields, from + 1, renames);
        if !faulty(fields[from].field.attrs, readings_for(renames, from)) {
            if let Err(error) = dissolved_fields(fields, from + 1, renames) {
                // The first fault behind `from` is the first from `from` on.
                assert(dissolved_fields(fields, from, renames) == Err::<
                    Seq<DissolvedFieldModel>,
                    DissolveErrorModel,
                >(error));
            }
        }
    }
}

proof fn lemma_tuple_faults(
    fields: Seq<FieldModel>,
    from: int,
    renames: Seq<Seq<Seq<IdentReading>>>,
)
    requires
        0 <= from <= fields.len(),
    ensures
        match tuple_elements(fields, from, renames) {
            Ok(out) => forall|i: int|
                from <= i < fields.len() ==> !faulty_in_tuple(
                    #[trigger] fields[i].attrs,
                    readings_for(renames, i),
                ),
            Err(error) => exists|i: int|
                {
                    &&& from <= i < fields.len()
                    &&& faulty_in_tuple(#[trigger] fields[i].attrs, readings_for(renames, i))
                    &&& error == fault_in_tuple(fields[i].attrs, i, readings_for(renames, i))
                    &&& forall|j: int| from <= j < i ==> !faulty_in_tuple(
                        #[trigger] fields[j].attrs,
                        readings_for(renames, j),
                    )
                },
        },
    decreases fields.len() - from,
{
    if from < fields.len() {
        lemma_tuple_faults(fields, from + 1, renames);
        if faulty_in_tuple(fields[from].attrs, readings_for(renames, from)) {
            assert(tuple_elements(fields, from, renames) == Err::<Seq<TupleElementModel>, DissolveErrorModel>(
                fault_in_tuple(fields[from].attrs, from, readings_for(renames, from)),
            ));
        } else if let Err(error) = tuple_elements(fields, from + 1, renames) {
            // The first fault behind `from` is the first from `from` on.
            assert(tuple_elements(fields, from, renames) == Err::<
                Seq<TupleElementModel>,
                DissolveErrorModel,
            >(error));
        }
    }
}

/// When a struct with named fields gets its `dissolve`, and what is reported
/// when it does not.
///
/// It gets it exactly if no field's attributes are at fault and some field is
/// kept. Where a field's attributes are at fault, the error is that of the
/// first such field; where none are and every field is skipped, it is
/// `NoFieldsLeft`.
pub proof fn law_named_outcome(
    struct_name: Seq<char>,
    generics: GenericsModel,
    fields: Seq<NamedFieldModel>,
    container: ContainerAttributesModel,
    renames: Seq<Seq<Seq<IdentReading>>>,
)
    ensures
        match named_struct_impl(struct_name, generics, fields, container, renames) {
            Ok(emitted) => {
                &&& forall|i: int|
                    0 <= i < fields.len() ==> !faulty(
                        #[trigger] fields[i].field.attrs,
                        readings_for(renames, i),
                    )
                &&& exists|i: int| 0 <= i < fields.len() && keeps(
                    #[trigger] fields[i].field.attrs,
                    readings_for(renames, i),
                )
            },
            Err(DissolveErrorModel::NoFieldsLeft) => forall|i: int|
                0 <= i < fields.len() ==> skips(
                    #[trigger] fields[i].field.attrs,
                    readings_for(renames, i),
                ),
            Err(DissolveErrorModel::Field { field, error }) => {
                &&& 0 <= field < fields.len()
                &&& field_info(
                    fields[field].field.attrs,
                    readings_for(renames, field),
                ) == Err::<FieldInfoModel, FieldErrorModel>(
                    error,
                )
                &&& forall|j: int| 0 <= j < field ==> !faulty(
                    #[trigger] fields[j].field.attrs,
                    readings_for(renames, j),
                )
            },
            Err(other) => false,
        },
{
    lemma_named_faults(fields, 0, renames);
    lemma_dissolved_fields(fields, 0, renames);
    if let Ok(out) = dissolved_fields(fields, 0, renames) {
        if out.len() > 0 {
            assert(keeps(fields[out[0].source].field.attrs, readings_for(renames, out[0].source)));
        } else {
            // A kept field would stand in `out`.
            assert forall|i: int| 0 <= i < fields.len() implies skips(
                #[trigger] fields[i].field.attrs,
                readings_for(renames, i),
            ) by {
                if !skips(fields[i].field.attrs, readings_for(renames, i)) {
                    let k = choose|k: int| 0 <= k < out.len() && (#[trigger] out[k]).source == i;
                }
            }
        }
    }
}

/// When a tuple struct gets its `dissolve`, and what is reported when it does
/// not.
///
/// It gets it exactly if no field stands in the way and some field is kept. A
/// field stands in the way if its attributes are at fault or if it is kept
/// and renamed; the error is that of the first such field. Where none does
/// and every field is skipped, the error is `NoElementsLeft`.
pub proof fn law_tuple_outcome(
    struct_name: Seq<char>,
    generics: GenericsModel,
    fields: Seq<FieldModel>,
    container: ContainerAttributesModel,
    renames: Seq<Seq<Seq<IdentReading>>>,
)
    ensures
        match tuple_struct_impl(struct_name, generics, fields, container, renames) {
            Ok(emitted) => {
                &&& forall|i: int|
                    0 <= i < fields.len() ==> !faulty_in_tuple(
                        #[trigger] fields[i].attrs,
                        readings_for(renames, i),
                    )
                &&& exists|i: int| 0 <= i < fields.len() && keeps(
                    #[trigger] fields[i].attrs,
                    readings_for(renames, i),
                )
            },
            Err(DissolveErrorModel::NoElementsLeft) => forall|i: int|
                0 <= i < fields.len() ==> skips(
                    #[trigger] fields[i].attrs,
                    readings_for(renames, i),
                ),
            Err(error) => exists|field: int|
                {
                    &&& 0 <= field < fields.len()
                    &&& faulty_in_tuple(
                        #[trigger] fields[field].attrs,
                        readings_for(renames, field),
                    )
                    &&& error == fault_in_tuple(
                        fields[field].attrs,
                        field,
                        readings_for(renames, field),
                    )
                    &&& forall|j: int| 0 <= j < field ==> !faulty_in_tuple(
                        #[trigger] fields[j].attrs,
                        readings_for(renames, j),
                    )
                },
        },
{
    lemma_tuple_faults(fields, 0, renames);
    lemma_tuple_elements(fields, 0, renames);
    if let Ok(out) = tuple_elements(fields, 0, renames) {
        if out.len() > 0 {
            assert(keeps(fields[out[0].source].attrs, readings_for(renames, out[0].source)));
        } else {
            // A kept field would stand in `out`.
            assert forall|i: int| 0 <= i < fields.len() implies skips(
                #[trigger] fields[i].attrs,
                readings_for(renames, i),
            ) by {
                if !skips(fields[i].attrs, readings_for(renames, i)) {
                    let k = choose|k: int| 0 <= k < out.len() && (#[trigger] out[k]).source == i;
                }
            }
        }
    }
}

/// Which kind of declaration is refused, and when.
///
/// A struct without fields is refused as such, whatever its attributes are.
/// For every other declaration a fault in the attributes on it is reported
/// first; an enum or a union whose attributes are in order is refused as no
/// struct. Only a struct with fields gets as far as its fields.
pub proof fn law_shape(
    input: DeriveInputModel,
    visibilities: Seq<Seq<VisibilityReading>>,
    renames: Seq<Seq<Seq<IdentReading>>>,
)
    ensures
        input.data == DataModel::Struct(FieldsModel::Unit) <==> dissolve_impl(input, visibilities, renames) == Err::<
            DissolveImplModel,
            DissolveErrorModel,
        >(DissolveErrorModel::UnitStruct { name: input.name }),
        input.data != DataModel::Struct(FieldsModel::Unit) ==> match container_attributes(
            input.attrs,
            visibilities,
        ) {
            Ok(container) => match input.data {
                DataModel::Struct(FieldsModel::Named(fields)) => dissolve_impl(input, visibilities, renames)
                    == named_struct_impl(input.name, input.generics, fields, container, renames),
                DataModel::Struct(FieldsModel::Unnamed(fields)) => dissolve_impl(input, visibilities, renames)
                    == tuple_struct_impl(input.name, input.generics, fields, container, renames),
                _ => dissolve_impl(input, visibilities, renames) == Err::<DissolveImplModel, DissolveErrorModel>(
                    DissolveErrorModel::NotAStruct,
                ),
            },
            Err(error) => dissolve_impl(input, visibilities, renames) == Err::<DissolveImplModel, DissolveErrorModel>(
                DissolveErrorModel::Container(error),
            ),
        },
{
    // Neither generator reports a unit struct: each reports a field or that
    // nothing is left.
    if input.data != DataModel::Struct(FieldsModel::Unit) {
        if let Ok(container) = container_attributes(input.attrs, visibilities) {
            match input.data {
                DataModel::Struct(FieldsModel::Named(fields)) => {
                    law_named_outcome(input.name, input.generics, fields, container, renames);
                },
                DataModel::Struct(FieldsModel::Unnamed(fields)) => {
                    law_tuple_outcome(input.name, input.generics, fields, container, renames);
                },
                _ => {},
            }
        }
    }
}

proof fn lemma_entries_consistent(
    entries: Seq<MetaModel>,
    attr: int,
    from: int,
    info: FieldInfoModel,
    readings: Seq<Seq<IdentReading>>,
)
    requires
        0 <= from <= entries.len(),
        info.consistent(),
    ensures
        entries_info(entries, attr, from, info, readings) matches Ok(reached) ==> reached.consistent(),
    decreases entries.len() - from,
{
    if from < entries.len() {
        if let Ok(next) = entry_info(
            entries[from],
            attr,
            from,
            info,
            reading_at(readings, attr, from),
        ) {
            lemma_entries_consistent(entries, attr, from + 1, next, readings);
        }
    }
}

proof fn lemma_attributes_consistent(
    attrs: Seq<AttributeModel>,
    from: int,
    info: FieldInfoModel,
    readings: Seq<Seq<IdentReading>>,
)
    requires
        0 <= from <= attrs.len(),
        info.consistent(),
    ensures
        attributes_info(attrs, from, info, readings) matches Ok(reached) ==> reached.consistent(),
    decreases attrs.len() - from,
{
    if from < attrs.len() {
        if let Ok(next) = attribute_info(attrs[from], from, info, readings) {
            if let AttrArgsModel::List(entries) = attrs[from].args {
                lemma_entries_consistent(entries, from, 0, info, readings);
            }
            lemma_attributes_consistent(attrs, from + 1, next, readings);
        }
    }
}

/// No field is both skipped and renamed.
///
/// Whatever attributes a field has, a decision that is reached for it does
/// not both leave the field out and give it a new name.
pub proof fn law_decision_consistent(attrs: Seq<AttributeModel>, readings: Seq<Seq<IdentReading>>)
    ensures
        field_info(attrs, readings) matches Ok(info) ==> info.consistent(),
{
    lemma_attributes_consistent(attrs, 0, FieldInfoModel::new(), readings);
}

proof fn lemma_passed_over(
    attrs: Seq<AttributeModel>,
    from: int,
    upto: int,
    current: Visibility,
    visibilities: Seq<Seq<VisibilityReading>>,
)
    requires
        0 <= from <= upto <= attrs.len(),
        forall|i: int| from <= i < upto ==> !(#[trigger] attrs[i]).path.is_ident("dissolve"@),
    ensures
        attributes_visibility(attrs, from, current, visibilities) == attributes_visibility(
            attrs,
            upto,
            current,
            visibilities,
        ),
    decreases upto - from,
{
    if from < upto {
        assert(!attrs[from].path.is_ident("dissolve"@));
        lemma_passed_over(attrs, from + 1, upto, current, visibilities);
    }
}

/// Each of the five supported spellings configures what it writes.
///
/// Where the only `#[dissolve(..)]` attribute of a declaration is
/// `#[dissolve(visibility = "text")]` with one of `pub`, `pub(crate)`,
/// `pub(super)`, `pub(self)` and the empty text, and `visibilities` are
/// answers of the parser, the configuration is read without error and the
/// visibility is the one that the text asks for: public, within the crate,
/// within the parent module, within the module, or private.
pub proof fn law_supported_visibility(
    attrs: Seq<AttributeModel>,
    attr: int,
    text: Seq<char>,
    visibilities: Seq<Seq<VisibilityReading>>,
)
    requires
        0 <= attr < attrs.len(),
        forall|i: int|
            0 <= i < attrs.len() && i != attr ==> !(#[trigger] attrs[i]).path.is_ident(
                "dissolve"@,
            ),
        attrs[attr].path.is_ident("dissolve"@),
        attrs[attr].args matches AttrArgsModel::List(entries) && entries.len() == 1
            && visibility_text(entries[0]) == Some(text),
        supported(text) is Some,
        visibilities_read(attrs, visibilities),
    ensures
        container_attributes(attrs, visibilities) == Ok::<
            ContainerAttributesModel,
            ContainerErrorModel,
        >(ContainerAttributesModel { visibility: supported(text)->Some_0 }),
{
    let entries = attrs[attr].args->List_0;
    let reading = reading_at(visibilities, attr, 0);
    assert(reading == visibilities[attr][0]);
    lemma_supported_is_recognised(text, reading);
    let level = supported(text)->Some_0;
    assert(entry_visibility(entries[0], attr, 0, reading) == Ok::<Visibility, ContainerErrorModel>(
        level,
    ));
    assert(entries_visibility(entries, attr, 1, level, visibilities) == Ok::<
        Visibility,
        ContainerErrorModel,
    >(level));
    assert(attribute_visibility(attrs[attr], attr, Visibility::Public, visibilities) == Ok::<
        Visibility,
        ContainerErrorModel,
    >(level));
    lemma_passed_over(attrs, 0, attr, Visibility::Public, visibilities);
    lemma_passed_over(attrs, attr + 1, attrs.len() as int, level, visibilities);
}

/// The entry `meta` is `visibility = ".."` with a text that was read, as
/// `reading`, as one of the five supported visibilities.
pub open spec fn entry_in_order(meta: MetaModel, reading: VisibilityReading) -> bool {
    &&& visibility_text(meta) is Some
    &&& reading matches Ok(syntax)
    &&& recognised(syntax) is Some
}

/// Attribute `attr` is not `dissolve`, or it is a list of entries that are
/// all in order.
pub open spec fn attribute_in_order(
    attribute: AttributeModel,
    attr: int,
    visibilities: Seq<Seq<VisibilityReading>>,
) -> bool {
    attribute.path.is_ident("dissolve"@) ==> {
        &&& attribute.args matches AttrArgsModel::List(entries)
        &&& forall|e: int|
            0 <= e < entries.len() ==> entry_in_order(
                #[trigger] entries[e],
                reading_at(visibilities, attr, e),
            )
    }
}

proof fn lemma_entries_in_order(
    entries: Seq<MetaModel>,
    attr: int,
    from: int,
    current: Visibility,
    visibilities: Seq<Seq<VisibilityReading>>,
)
    requires
        0 <= from <= entries.len(),
    ensures
        entries_visibility(entries, attr, from, current, visibilities) is Ok <==> forall|e: int|
            from <= e < entries.len() ==> entry_in_order(
                #[trigger] entries[e],
                reading_at(visibilities, attr, e),
            ),
    decreases entries.len() - from,
{
    if from < entries.len() {
        let reading = reading_at(visibilities, attr, from);
        match entry_visibility(entries[from], attr, from, reading) {
            Ok(next) => {
                lemma_entries_in_order(entries, attr, from + 1, next, visibilities);
                assert(entry_in_order(entries[from], reading));
                if entries_visibility(entries, attr, from + 1, next, visibilities) is Ok {
                    assert forall|e: int| from <= e < entries.len() implies entry_in_order(
                        #[trigger] entries[e],
                        reading_at(visibilities, attr, e),
                    ) by {
                        if e > from {
                            assert(from + 1 <= e);
                        }
                    }
                }
            },
            Err(error) => {
                assert(!entry_in_order(entries[from], reading));
            },
        }
    }
}

proof fn lemma_attributes_in_order(
    attrs: Seq<AttributeModel>,
    from: int,
    current: Visibility,
    visibilities: Seq<Seq<VisibilityReading>>,
)
    requires
        0 <= from <= attrs.len(),
    ensures
        attributes_visibility(attrs, from, current, visibilities) is Ok <==> forall|a: int|
            from <= a < attrs.len() ==> attribute_in_order(#[trigger] attrs[a], a, visibilities),
    decreases attrs.len() - from,
{
    if from < attrs.len() {
        if let AttrArgsModel::List(entries) = attrs[from].args {
            lemma_entries_in_order(entries, from, 0, current, visibilities);
        }
        match attribute_visibility(attrs[from], from, current, visibilities) {
            Ok(next) => {
                lemma_attributes_in_order(attrs, from + 1, next, visibilities);
                assert(attribute_in_order(attrs[from], from, visibilities));
                if attributes_visibility(attrs, from + 1, next, visibilities) is Ok {
                    assert forall|a: int| from <= a < attrs.len() implies attribute_in_order(
                        #[trigger] attrs[a],
                        a,
                        visibilities,
                    ) by {
                        if a > from {
                            assert(from + 1 <= a);
                        }
                    }
                }
            },
            Err(error) => {
                assert(!attribute_in_order(attrs[from], from, visibilities));
            },
        }
    }
}

/// When the configuration is read without error.
///
/// It is, exactly if every `dissolve` attribute is a list in brackets, every
/// entry of it is `visibility = ".."` with a string literal, and every such
/// text was read as one of the five supported visibilities. Nothing but the
/// attributes on the declaration and what their texts were read as has a
/// say: not the fields, not the name, and no attribute that is not
/// `dissolve`.
pub proof fn law_container_outcome(
    attrs: Seq<AttributeModel>,
    visibilities: Seq<Seq<VisibilityReading>>,
)
    ensures
        container_attributes(attrs, visibilities) is Ok <==> forall|a: int|
            0 <= a < attrs.len() ==> attribute_in_order(#[trigger] attrs[a], a, visibilities),
{
    lemma_attributes_in_order(attrs, 0, Visibility::Public, visibilities);
}

} // verus!
