//! What is emitted for a declaration: the companion struct or the tuple, and
//! the `dissolve` method that returns it.

use vstd::prelude::*;
use vstd::string::*;

use crate::container::{
    container_attributes, visibilities_read, ContainerAttributes, ContainerAttributesModel,
    VisibilityReading,
};
use crate::error::{DissolveError, DissolveErrorModel};
use crate::field::{
    field_info, get_field_info_with, read_renames, renames_read, FieldInfo, FieldInfoModel,
    IdentReading,
};
use crate::laws::{law_companion_fields, law_tuple_order};
use crate::reading::{readings_for, readings_of};
use crate::syntax::{
    outcome, positions, AttributeModel, Data, DataModel, DeriveInput, DeriveInputModel, Field,
    FieldModel, Fields, FieldsModel, Generics, GenericsModel, NamedField, NamedFieldModel,
};
use crate::visibility::{Visibility, VisibilitySyntax};

verus! {

/// One field of the companion struct. It is public; `dissolve` fills it with
/// `self.origin`.
#[derive(Debug, Clone, PartialEq, Eq)]
pub struct DissolvedField {
    /// The field's name in the companion.
    pub name: String,
    /// The name of the field of the declaration that it is moved out of.
    pub origin: String,
    /// Its type, as the declaration has it.
    pub ty: String,
    /// The position of that field among the declaration's fields.
    pub source: usize,
    /// The positions, among that field's attributes, of its doc attributes:
    /// the companion's field carries these, in this order.
    pub docs: Vec<usize>,
}

/// The mathematical value of a [`DissolvedField`].
pub struct DissolvedFieldModel {
    pub name: Seq<char>,
    pub origin: Seq<char>,
    pub ty: Seq<char>,
    pub source: int,
    pub docs: Seq<int>,
}

impl View for DissolvedField {
    type V = DissolvedFieldModel;

    open spec fn view(&self) -> DissolvedFieldModel {
        DissolvedFieldModel {
            name: self.name@,
            origin: self.origin@,
            ty: self.ty@,
            source: self.source as int,
            docs: positions(self.docs@),
        }
    }
}

impl DeepView for DissolvedField {
    type V = DissolvedFieldModel;

    open spec fn deep_view(&self) -> DissolvedFieldModel {
        self@
    }
}

/// The companion of a struct with named fields: a public struct with the
/// declaration's generics and the fields that are handed out.
#[derive(Debug, Clone, PartialEq, Eq)]
pub struct DissolvedStruct {
    /// The companion's name.
    pub name: String,
    /// The text of its doc comment.
    pub doc: String,
    /// Its fields, in the order of the declaration.
    pub fields: Vec<DissolvedField>,
}

/// The mathematical value of a [`DissolvedStruct`].
pub struct DissolvedStructModel {
    pub name: Seq<char>,
    pub doc: Seq<char>,
    pub fields: Seq<DissolvedFieldModel>,
}

impl View for DissolvedStruct {
    type V = DissolvedStructModel;

    open spec fn view(&self) -> DissolvedStructModel {
        DissolvedStructModel {
            name: self.name@,
            doc: self.doc@,
            fields: self.fields.deep_view(),
        }
    }
}

/// One element of the tuple that a tuple struct dissolves into; `dissolve`
/// fills it with `self.<source>`.
#[derive(Debug, Clone, PartialEq, Eq)]
pub struct TupleElement {
    /// Its type, as the declaration has it.
    pub ty: String,
    /// The position of the field that it is moved out of.
    pub source: usize,
}

/// The mathematical value of a [`TupleElement`].
pub struct TupleElementModel {
    pub ty: Seq<char>,
    pub source: int,
}

impl View for TupleElement {
    type V = TupleElementModel;

    open spec fn view(&self) -> TupleElementModel {
        TupleElementModel { ty: self.ty@, source: self.source as int }
    }
}

impl DeepView for TupleElement {
    type V = TupleElementModel;

    open spec fn deep_view(&self) -> TupleElementModel {
        self@
    }
}

/// What `dissolve` returns.
#[derive(Debug, Clone, PartialEq, Eq)]
pub enum Dissolved {
    /// A value of the companion struct, which is emitted beside the method.
    Struct(DissolvedStruct),
    /// A tuple of these elements; with one element it is still a tuple,
    /// `(T,)`.
    Tuple(Vec<TupleElement>),
}

/// The mathematical value of a [`Dissolved`].
pub enum DissolvedModel {
    Struct(DissolvedStructModel),
    Tuple(Seq<TupleElementModel>),
}

impl DissolvedModel {
    /// Something is handed out, and it is handed out in the declaration's
    /// order: the positions of the fields that are moved out rise.
    pub open spec fn well_formed(self) -> bool {
        match self {
            DissolvedModel::Struct(companion) => {
                &&& companion.fields.len() > 0
                &&& forall|j: int, k: int|
                    0 <= j < k < companion.fields.len() ==> (#[trigger] companion.fields[j]).source
                        < (#[trigger] companion.fields[k]).source
            },
            DissolvedModel::Tuple(elements) => {
                &&& elements.len() > 0
                &&& forall|j: int, k: int|
                    0 <= j < k < elements.len() ==> (#[trigger] elements[j]).source
                        < (#[trigger] elements[k]).source
            },
        }
    }
}

impl View for Dissolved {
    type V = DissolvedModel;

    open spec fn view(&self) -> DissolvedModel {
        match self {
            Dissolved::Struct(companion) => DissolvedModel::Struct(companion@),
            Dissolved::Tuple(elements) => DissolvedModel::Tuple(elements.deep_view()),
        }
    }
}

/// All that is emitted for one declaration: an `impl` block for the declared
/// type with the method `dissolve(self)`, and the companion struct where the
/// method returns one.
#[derive(Debug, Clone, PartialEq, Eq)]
pub struct DissolveImpl {
    /// The name of the type that gets the method.
    pub struct_name: String,
    /// The declaration's generics: the `impl` block and the companion are
    /// written with them.
    pub generics: Generics,
    /// The visibility of the method.
    pub visibility: Visibility,
    /// What the method returns.
    pub output: Dissolved,
}

/// The mathematical value of a [`DissolveImpl`].
pub struct DissolveImplModel {
    pub struct_name: Seq<char>,
    pub generics: GenericsModel,
    pub visibility: Visibility,
    pub output: DissolvedModel,
}

impl View for DissolveImpl {
    type V = DissolveImplModel;

    open spec fn view(&self) -> DissolveImplModel {
        DissolveImplModel {
            struct_name: self.struct_name@,
            generics: self.generics@,
            visibility: self.visibility,
            output: self.output@,
        }
    }
}

/// The positions from `from` on of the doc attributes among `attrs`, in
/// rising order.
pub open spec fn doc_positions(attrs: Seq<AttributeModel>, from: int) -> Seq<int>
    decreases attrs.len() - from,
{
    if 0 <= from < attrs.len() {
        if attrs[from].path.is_ident("doc"@) {
            seq![from] + doc_positions(attrs, from + 1)
        } else {
            doc_positions(attrs, from + 1)
        }
    } else {
        Seq::empty()
    }
}

/// The name under which a field called `name` is handed out.
pub open spec fn effective_name(name: Seq<char>, info: FieldInfoModel) -> Seq<char> {
    match info.renamed_to {
        Some(renamed) => renamed,
        None => name,
    }
}

/// The companion's field for the field at `source` of the declaration.
pub open spec fn dissolved_field(field: NamedFieldModel, source: int, info: FieldInfoModel)
    -> DissolvedFieldModel {
    DissolvedFieldModel {
        name: effective_name(field.name, info),
        origin: field.name,
        ty: field.field.ty,
        source,
        docs: doc_positions(field.field.attrs, 0),
    }
}

/// `items` in front of what `rest` holds; an error stays as it is.
pub open spec fn preceded<T>(items: Seq<T>, rest: Result<Seq<T>, DissolveErrorModel>) -> Result<
    Seq<T>,
    DissolveErrorModel,
> {
    match rest {
        Ok(others) => Ok(items + others),
        Err(error) => Err(error),
    }
}

/// The companion's fields for the declaration's fields from `from` on, where
/// the texts of field `i` were read as row `i` of `renames`: one for each
/// field that is not skipped, in the declaration's order. The first field
/// whose attributes are at fault gives the error.
pub open spec fn dissolved_fields(
    fields: Seq<NamedFieldModel>,
    from: int,
    renames: Seq<Seq<Seq<IdentReading>>>,
) -> Result<Seq<DissolvedFieldModel>, DissolveErrorModel>
    decreases fields.len() - from,
{
    if 0 <= from < fields.len() {
        match field_info(fields[from].field.attrs, readings_for(renames, from)) {
            Ok(info) => if info.should_skip {
                dissolved_fields(fields, from + 1, renames)
            } else {
                preceded(
                    seq![dissolved_field(fields[from], from, info)],
                    dissolved_fields(fields, from + 1, renames),
                )
            },
            Err(error) => Err(DissolveErrorModel::Field { field: from, error }),
        }
    } else {
        Ok(Seq::empty())
    }
}

/// The tuple's element for the kept field at `source` of the declaration. A
/// tuple has no names, so a renamed field is refused.
pub open spec fn tuple_element(field: FieldModel, source: int, info: FieldInfoModel) -> Result<
    TupleElementModel,
    DissolveErrorModel,
> {
    if info.renamed_to is Some {
        Err(DissolveErrorModel::RenameOnTupleField { field: source })
    } else {
        Ok(TupleElementModel { ty: field.ty, source })
    }
}

/// The tuple's elements for the declaration's fields from `from` on, where
/// the texts of field `i` were read as row `i` of `renames`: one for each
/// field that is not skipped, in the declaration's order. The first field
/// that is at fault gives the error: its attributes, or that it is kept and
/// renamed.
pub open spec fn tuple_elements(
    fields: Seq<FieldModel>,
    from: int,
    renames: Seq<Seq<Seq<IdentReading>>>,
) -> Result<Seq<TupleElementModel>, DissolveErrorModel>
    decreases fields.len() - from,
{
    if 0 <= from < fields.len() {
        match field_info(fields[from].attrs, readings_for(renames, from)) {
            Ok(info) => if info.should_skip {
                tuple_elements(fields, from + 1, renames)
            } else {
                match tuple_element(fields[from], from, info) {
                    Ok(element) => preceded(
                        seq![element],
                        tuple_elements(fields, from + 1, renames),
                    ),
                    Err(error) => Err(error),
                }
            },
            Err(error) => Err(DissolveErrorModel::Field { field: from, error }),
        }
    } else {
        Ok(Seq::empty())
    }
}

/// The name of the companion of the struct `struct_name`.
pub open spec fn companion_name(struct_name: Seq<char>) -> Seq<char> {
    struct_name + "Dissolved"@
}

/// The doc comment of the companion of the struct `struct_name`.
pub open spec fn companion_doc(struct_name: Seq<char>) -> Seq<char> {
    "Dissolved struct for [`"@ + struct_name
        + "`].\n\nThis struct contains all non-skipped fields from the original struct with public visibility. Fields may be renamed according to `#[dissolved(rename = \"...\")]` attributes."@
}

/// What is emitted for a struct with the named fields `fields`, where the
/// texts of field `i` were read as row `i` of `renames`.
pub open spec fn named_struct_impl(
    struct_name: Seq<char>,
    generics: GenericsModel,
    fields: Seq<NamedFieldModel>,
    container: ContainerAttributesModel,
    renames: Seq<Seq<Seq<IdentReading>>>,
) -> Result<DissolveImplModel, DissolveErrorModel> {
    match dissolved_fields(fields, 0, renames) {
        Ok(kept) => if kept.len() == 0 {
            Err(DissolveErrorModel::NoFieldsLeft)
        } else {
            Ok(
                DissolveImplModel {
                    struct_name,
                    generics,
                    visibility: container.visibility,
                    output: DissolvedModel::Struct(
                        DissolvedStructModel {
                            name: companion_name(struct_name),
                            doc: companion_doc(struct_name),
                            fields: kept,
                        },
                    ),
                },
            )
        },
        Err(error) => Err(error),
    }
}

/// What is emitted for a tuple struct with the fields `fields`, where the
/// texts of field `i` were read as row `i` of `renames`.
pub open spec fn tuple_struct_impl(
    struct_name: Seq<char>,
    generics: GenericsModel,
    fields: Seq<FieldModel>,
    container: ContainerAttributesModel,
    renames: Seq<Seq<Seq<IdentReading>>>,
) -> Result<DissolveImplModel, DissolveErrorModel> {
    match tuple_elements(fields, 0, renames) {
        Ok(kept) => if kept.len() == 0 {
            Err(DissolveErrorModel::NoElementsLeft)
        } else {
            Ok(
                DissolveImplModel {
                    struct_name,
                    generics,
                    visibility: container.visibility,
                    output: DissolvedModel::Tuple(kept),
                },
            )
        },
        Err(error) => Err(error),
    }
}

/// What is emitted for the declaration `input`, or why nothing is, where the
/// texts of its attributes were read as `visibilities` and the texts of field
/// `i` as row `i` of `renames`.
///
/// A struct without fields is refused whatever its attributes say. Otherwise
/// the attributes on the declaration are read first, then the kind of
/// declaration decides: a struct with named fields gets a companion struct,
/// a tuple struct a tuple, and an enum or a union is refused.
pub open spec fn dissolve_impl(
    input: DeriveInputModel,
    visibilities: Seq<Seq<VisibilityReading>>,
    renames: Seq<Seq<Seq<IdentReading>>>,
) -> Result<DissolveImplModel, DissolveErrorModel> {
    if input.data == DataModel::Struct(FieldsModel::Unit) {
        Err(DissolveErrorModel::UnitStruct { name: input.name })
    } else {
        match container_attributes(input.attrs, visibilities) {
            Ok(container) => match input.data {
                DataModel::Struct(FieldsModel::Named(fields)) => named_struct_impl(
                    input.name,
                    input.generics,
                    fields,
                    container,
                    renames,
                ),
                DataModel::Struct(FieldsModel::Unnamed(fields)) => tuple_struct_impl(
                    input.name,
                    input.generics,
                    fields,
                    container,
                    renames,
                ),
                _ => Err(DissolveErrorModel::NotAStruct),
            },
            Err(error) => Err(DissolveErrorModel::Container(error)),
        }
    }
}

/// The positions of the doc attributes of `field`.
fn doc_attributes(field: &Field) -> (r: Vec<usize>)
    ensures
        positions(r@) == doc_positions(field@.attrs, 0),
{
    let ghost attrs = field@.attrs;
    let mut docs: Vec<usize> = Vec::new();
    let mut i: usize = 0;
    while i < field.attrs.len()
        invariant
            i <= field.attrs.len(),
            attrs == field@.attrs,
            doc_positions(attrs, 0) == positions(docs@) + doc_positions(attrs, i as int),
        decreases field.attrs.len() - i,
    {
        if field.attrs[i].path.is_ident("doc") {
            let ghost before = positions(docs@);
            docs.push(i);
            // The new position ends what is gathered and no longer heads
            // what is to come.
            assert(before + (seq![i as int] + doc_positions(attrs, i + 1)) =~= before.push(
                i as int,
            ) + doc_positions(attrs, i + 1));
        }
        i = i + 1;
    }
    docs
}

impl DissolvedField {
    /// The companion's field for the field `field` at position `source` of
    /// the declaration, for which `info` is decided: called as `info` renames
    /// it, or else as `field` is called, with the type and the doc attributes
    /// of `field`.
    pub fn new(field: &NamedField, source: usize, info: &FieldInfo) -> (r: DissolvedField)
        ensures
            r@ == dissolved_field(field@, source as int, info@),
    {
        let name = match &info.renamed_to {
            Some(renamed) => renamed.clone(),
            None => field.name.clone(),
        };
        DissolvedField {
            name,
            origin: field.name.clone(),
            ty: field.field.ty.clone(),
            source,
            docs: doc_attributes(&field.field),
        }
    }
}

impl TupleElement {
    /// The tuple's element for the kept field `field` at position `source` of
    /// the declaration, for which `info` is decided: it has the field's type.
    /// Where `info` renames the field, the error is `RenameOnTupleField`.
    pub fn new(field: &Field, source: usize, info: &FieldInfo) -> (r: Result<
        TupleElement,
        DissolveError,
    >)
        ensures
            outcome(r) == tuple_element(field@, source as int, info@),
    {
        if info.renamed_to.is_some() {
            return Err(DissolveError::RenameOnTupleField { field: source });
        }
        Ok(TupleElement { ty: field.ty.clone(), source })
    }
}

/// The readings of the fields of a declaration as a mathematical value.
pub open spec fn renames_of(tables: Seq<Vec<Vec<Result<String, String>>>>) -> Seq<
    Seq<Seq<IdentReading>>,
> {
    Seq::new(tables.len(), |i: int| readings_of(tables[i]@))
}

/// `renames` has the readings of each field: a table for each of the fields,
/// whose attributes are `attrs[i]`, with a reading for each entry.
pub open spec fn fields_read(
    attrs: Seq<Seq<AttributeModel>>,
    renames: Seq<Seq<Seq<IdentReading>>>,
) -> bool {
    &&& renames.len() == attrs.len()
    &&& forall|i: int| 0 <= i < attrs.len() ==> renames_read(#[trigger] attrs[i], renames[i])
}

/// The attributes of each of the named fields `fields`.
pub open spec fn named_attrs(fields: Seq<NamedFieldModel>) -> Seq<Seq<AttributeModel>> {
    Seq::new(fields.len(), |i: int| fields[i].field.attrs)
}

/// The attributes of each of the fields `fields`.
pub open spec fn unnamed_attrs(fields: Seq<FieldModel>) -> Seq<Seq<AttributeModel>> {
    Seq::new(fields.len(), |i: int| fields[i].attrs)
}

/// The attributes of each field of the declaration `input`.
pub open spec fn field_attrs(input: DeriveInputModel) -> Seq<Seq<AttributeModel>> {
    match input.data {
        DataModel::Struct(FieldsModel::Named(fields)) => named_attrs(fields),
        DataModel::Struct(FieldsModel::Unnamed(fields)) => unnamed_attrs(fields),
        _ => Seq::empty(),
    }
}

/// Has the parser read the texts of the `rename = ".."` entries of each of
/// the named fields `fields`.
pub fn read_named_renames(fields: &Vec<NamedField>) -> (r: Vec<Vec<Vec<Result<String, String>>>>)
    ensures
        fields_read(named_attrs(fields.deep_view()), renames_of(r@)),
{
    let mut tables: Vec<Vec<Vec<Result<String, String>>>> = Vec::new();
    let mut i: usize = 0;
    while i < fields.len()
        invariant
            i <= fields.len(),
            tables.len() == i,
            forall|k: int|
                0 <= k < i ==> renames_read(
                    #[trigger] named_attrs(fields.deep_view())[k],
                    renames_of(tables@)[k],
                ),
        decreases fields.len() - i,
    {
        let table = read_renames(&fields[i].field);
        tables.push(table);
        i = i + 1;
    }
    tables
}

/// Has the parser read the texts of the `rename = ".."` entries of each of
/// the fields `fields` of a tuple struct.
pub fn read_tuple_renames(fields: &Vec<Field>) -> (r: Vec<Vec<Vec<Result<String, String>>>>)
    ensures
        fields_read(unnamed_attrs(fields.deep_view()), renames_of(r@)),
{
    let mut tables: Vec<Vec<Vec<Result<String, String>>>> = Vec::new();
    let mut i: usize = 0;
    while i < fields.len()
        invariant
            i <= fields.len(),
            tables.len() == i,
            forall|k: int|
                0 <= k < i ==> renames_read(
                    #[trigger] unnamed_attrs(fields.deep_view())[k],
                    renames_of(tables@)[k],
                ),
        decreases fields.len() - i,
    {
        let table = read_renames(&fields[i]);
        tables.push(table);
        i = i + 1;
    }
    tables
}

/// Emits the companion struct and the method for a struct with named fields,
/// given in `renames` what the parser made of the texts of each field.
///
/// The companion is called `<struct_name>Dissolved`. It has one public field
/// for each field of `fields` that is not skipped, in the same order, with
/// the field's type and doc attributes and with the name that `rename` gives,
/// or the field's own. The method has the visibility of `container_attrs`;
/// the generics are those of the declaration.
///
/// The error is that of the first field whose attributes are at fault, or,
/// where none is, `NoFieldsLeft` if no field is left.
pub fn generate_named_struct_impl_with(
    struct_name: &String,
    generics: &Generics,
    fields: &Vec<NamedField>,
    container_attrs: &ContainerAttributes,
    renames: &Vec<Vec<Vec<Result<String, String>>>>,
) -> (r: Result<DissolveImpl, DissolveError>)
    ensures
        outcome(r) == named_struct_impl(
            struct_name@,
            generics@,
            fields.deep_view(),
            container_attrs@,
            renames_of(renames@),
        ),
        r matches Ok(emitted) ==> emitted@.output.well_formed(),
{
    proof {
        law_companion_fields(
            struct_name@,
            generics@,
            fields.deep_view(),
            container_attrs@,
            renames_of(renames@),
        );
    }
    let ghost all = fields.deep_view();
    let ghost read = renames_of(renames@);
    let mut included: Vec<DissolvedField> = Vec::new();
    let mut i: usize = 0;
    while i < fields.len()
        invariant
            i <= fields.len(),
            all == fields.deep_view(),
            read == renames_of(renames@),
            dissolved_fields(all, 0, read) == preceded(
                included.deep_view(),
                dissolved_fields(all, i as int, read),
            ),
        decreases fields.len() - i,
    {
        let named = &fields[i];
        let none: Vec<Vec<Result<String, String>>> = Vec::new();
        let readings = if i < renames.len() {
            &renames[i]
        } else {
            &none
        };
        assert(readings_of(readings@) =~= readings_for(read, i as int));
        let info = match get_field_info_with(&named.field, readings) {
            Ok(info) => info,
            Err(error) => {
                return Err(DissolveError::Field { field: i, error });
            },
        };
        if !info.should_skip {
            let entry = DissolvedField::new(named, i, &info);
            let ghost before = included.deep_view();
            included.push(entry);
            proof {
                // The new field ends what is gathered and no longer heads
                // what is to come.
                assert(included.deep_view() =~= before.push(entry@));
                let rest = dissolved_fields(all, i + 1, read);
                if let Ok(others) = rest {
                    assert(before + (seq![entry@] + others) =~= before.push(entry@) + others);
                }
            }
        }
        i = i + 1;
    }
    if included.len() == 0 {
        return Err(DissolveError::NoFieldsLeft);
    }
    let mut name = struct_name.clone();
    name.append("Dissolved");
    let mut doc = String::from_str("Dissolved struct for [`");
    doc.append(struct_name.as_str());
    doc.append(
        "`].\n\nThis struct contains all non-skipped fields from the original struct with public visibility. Fields may be renamed according to `#[dissolved(rename = \"...\")]` attributes.",
    );
    Ok(
        DissolveImpl {
            struct_name: struct_name.clone(),
            generics: generics.duplicate(),
            visibility: container_attrs.visibility,
            output: Dissolved::Struct(DissolvedStruct { name, doc, fields: included }),
        },
    )
}

/// Emits the companion struct and the method for a struct with named fields.
///
/// The texts of the `rename = ".."` entries are handed to the parser, and
/// what is emitted is what [`generate_named_struct_impl_with`] gives for its
/// answers. What the parser answers is not known beforehand: the result is
/// promised for some answers, one for each text.
pub fn generate_named_struct_impl(
    struct_name: &String,
    generics: &Generics,
    fields: &Vec<NamedField>,
    container_attrs: &ContainerAttributes,
) -> (r: Result<DissolveImpl, DissolveError>)
    ensures
        exists|renames: Seq<Seq<Seq<IdentReading>>>|
            fields_read(named_attrs(fields.deep_view()), renames) && outcome(r)
                == #[trigger] named_struct_impl(
                struct_name@,
                generics@,
                fields.deep_view(),
                container_attrs@,
                renames,
            ),
        r matches Ok(emitted) ==> emitted@.output.well_formed(),
{
    let renames = read_named_renames(fields);
    generate_named_struct_impl_with(struct_name, generics, fields, container_attrs, &renames)
}

/// Emits the method for a tuple struct, given in `renames` what the parser
/// made of the texts of each field.
///
/// The method returns a tuple with one element for each field of `fields`
/// that is not skipped, in the same order, with the field's type. A tuple
/// has no names, so `rename` on a field that is kept is refused. The method
/// has the visibility of `container_attrs`; the generics are those of the
/// declaration.
///
/// The error is that of the first field at fault, or, where none is,
/// `NoElementsLeft` if no field is left.
pub fn generate_tuple_struct_impl_with(
    struct_name: &String,
    generics: &Generics,
    fields: &Vec<Field>,
    container_attrs: &ContainerAttributes,
    renames: &Vec<Vec<Vec<Result<String, String>>>>,
) -> (r: Result<DissolveImpl, DissolveError>)
    ensures
        outcome(r) == tuple_struct_impl(
            struct_name@,
            generics@,
            fields.deep_view(),
            container_attrs@,
            renames_of(renames@),
        ),
        r matches Ok(emitted) ==> emitted@.output.well_formed(),
{
    proof {
        law_tuple_order(
            struct_name@,
            generics@,
            fields.deep_view(),
            container_attrs@,
            renames_of(renames@),
        );
    }
    let ghost all = fields.deep_view();
    let ghost read = renames_of(renames@);
    let mut included: Vec<TupleElement> = Vec::new();
    let mut i: usize = 0;
    while i < fields.len()
        invariant
            i <= fields.len(),
            all == fields.deep_view(),
            read == renames_of(renames@),
            tuple_elements(all, 0, read) == preceded(
                included.deep_view(),
                tuple_elements(all, i as int, read),
            ),
        decreases fields.len() - i,
    {
        let field = &fields[i];
        let none: Vec<Vec<Result<String, String>>> = Vec::new();
        let readings = if i < renames.len() {
            &renames[i]
        } else {
            &none
        };
        assert(readings_of(readings@) =~= readings_for(read, i as int));
        let info = match get_field_info_with(field, readings) {
            Ok(info) => info,
            Err(error) => {
                return Err(DissolveError::Field { field: i, error });
            },
        };
        if !info.should_skip {
            let element = match TupleElement::new(field, i, &info) {
                Ok(element) => element,
                Err(error) => {
                    return Err(error);
                },
            };
            let ghost before = included.deep_view();
            included.push(element);
            proof {
                // The new element ends what is gathered and no longer heads
                // what is to come.
                assert(included.deep_view() =~= before.push(element@));
                let rest = tuple_elements(all, i + 1, read);
                if let Ok(others) = rest {
                    assert(before + (seq![element@] + others) =~= before.push(element@) + others);
                }
            }
        }
        i = i + 1;
    }
    if included.len() == 0 {
        return Err(DissolveError::NoElementsLeft);
    }
    Ok(
        DissolveImpl {
            struct_name: struct_name.clone(),
            generics: generics.duplicate(),
            visibility: container_attrs.visibility,
            output: Dissolved::Tuple(included),
        },
    )
}

/// Emits the method for a tuple struct.
///
/// The texts of the `rename = ".."` entries are handed to the parser, and
/// what is emitted is what [`generate_tuple_struct_impl_with`] gives for its
/// answers. What the parser answers is not known beforehand: the result is
/// promised for some answers, one for each text.
pub fn generate_tuple_struct_impl(
    struct_name: &String,
    generics: &Generics,
    fields: &Vec<Field>,
    container_attrs: &ContainerAttributes,
) -> (r: Result<DissolveImpl, DissolveError>)
    ensures
        exists|renames: Seq<Seq<Seq<IdentReading>>>|
            fields_read(unnamed_attrs(fields.deep_view()), renames) && outcome(r)
                == #[trigger] tuple_struct_impl(
                struct_name@,
                generics@,
                fields.deep_view(),
                container_attrs@,
                renames,
            ),
        r matches Ok(emitted) ==> emitted@.output.well_formed(),
{
    let renames = read_tuple_renames(fields);
    generate_tuple_struct_impl_with(struct_name, generics, fields, container_attrs, &renames)
}

/// Decides what the derive emits for `input`, given in `visibilities` what
/// the parser made of the texts of the attributes on the declaration and in
/// `renames` what it made of the texts of each field.
pub fn generate_dissolve_impl_with(
    input: &DeriveInput,
    visibilities: &Vec<Vec<Result<VisibilitySyntax, String>>>,
    renames: &Vec<Vec<Vec<Result<String, String>>>>,
) -> (r: Result<DissolveImpl, DissolveError>)
    ensures
        outcome(r) == dissolve_impl(input@, readings_of(visibilities@), renames_of(renames@)),
        r matches Ok(emitted) ==> emitted@.output.well_formed(),
{
    if let Data::Struct(Fields::Unit) = &input.data {
        return Err(DissolveError::UnitStruct { name: input.name.clone() });
    }
    let container_attrs = match ContainerAttributes::from_derive_input_with(input, visibilities) {
        Ok(container_attrs) => container_attrs,
        Err(error) => {
            return Err(DissolveError::Container(error));
        },
    };
    match &input.data {
        Data::Struct(Fields::Named(fields)) => generate_named_struct_impl_with(
            &input.name,
            &input.generics,
            fields,
            &container_attrs,
            renames,
        ),
        Data::Struct(Fields::Unnamed(fields)) => generate_tuple_struct_impl_with(
            &input.name,
            &input.generics,
            fields,
            &container_attrs,
            renames,
        ),
        _ => Err(DissolveError::NotAStruct),
    }
}

/// Decides what the derive emits for `input`.
///
/// A struct without fields is refused before anything is read. For every
/// other declaration the texts of its `visibility = ".."` and
/// `rename = ".."` entries are handed to the parser, and what is emitted is
/// what [`generate_dissolve_impl_with`] gives for its answers. What the
/// parser answers is not known beforehand: the result is promised for some
/// answers, one for each text.
pub fn generate_dissolve_impl(input: &DeriveInput) -> (r: Result<DissolveImpl, DissolveError>)
    ensures
        exists|visibilities: Seq<Seq<VisibilityReading>>, renames: Seq<Seq<Seq<IdentReading>>>|
            {
                &&& input@.data != DataModel::Struct(FieldsModel::Unit) ==> visibilities_read(
                    input@.attrs,
                    visibilities,
                ) && fields_read(field_attrs(input@), renames)
                &&& outcome(r) == #[trigger] dissolve_impl(input@, visibilities, renames)
            },
        r matches Ok(emitted) ==> emitted@.output.well_formed(),
{
    let mut visibilities: Vec<Vec<Result<VisibilitySyntax, String>>> = Vec::new();
    let mut renames: Vec<Vec<Vec<Result<String, String>>>> = Vec::new();
    match &input.data {
        Data::Struct(Fields::Unit) => {},
        Data::Struct(Fields::Named(fields)) => {
            visibilities = ContainerAttributes::read_visibilities(&input.attrs);
            renames = read_named_renames(fields);
        },
        Data::Struct(Fields::Unnamed(fields)) => {
            visibilities = ContainerAttributes::read_visibilities(&input.attrs);
            renames = read_tuple_renames(fields);
        },
        _ => {
            visibilities = ContainerAttributes::read_visibilities(&input.attrs);
            assert(renames_of(renames@) =~= Seq::<Seq<Seq<IdentReading>>>::empty());
        },
    }
    generate_dissolve_impl_with(input, &visibilities, &renames)
}

} // verus!
