//! The declaration that the derive is applied to, reduced to what the generator
//! reads: names, attribute paths, attribute entries and string literal values.
//! Types, generics and non-literal expressions are only carried as text.

use vstd::prelude::*;
use vstd::string::*;

verus! {

/// A path of plain identifiers, as it heads an attribute or one of its
/// entries: `skip`, `serde::rename`, `::a::b`.
#[derive(Debug, Clone, PartialEq, Eq)]
pub struct MetaPath {
    /// Whether the path starts with `::`.
    pub leading_colon: bool,
    /// The identifiers between the `::` separators, in order.
    pub segments: Vec<String>,
}

/// The mathematical value of a [`MetaPath`].
pub struct MetaPathModel {
    pub leading_colon: bool,
    pub segments: Seq<Seq<char>>,
}

impl View for MetaPath {
    type V = MetaPathModel;

    open spec fn view(&self) -> MetaPathModel {
        MetaPathModel {
            leading_colon: self.leading_colon,
            segments: self.segments.deep_view(),
        }
    }
}

/// The parts of `parts`, with `sep` between each two neighbours.
pub open spec fn join(parts: Seq<Seq<char>>, sep: Seq<char>) -> Seq<char>
    decreases parts.len(),
{
    if parts.len() == 0 {
        Seq::empty()
    } else if parts.len() == 1 {
        parts[0]
    } else {
        join(parts.drop_last(), sep) + sep + parts.last()
    }
}

impl MetaPathModel {
    /// The path is the single identifier `name` and nothing else.
    pub open spec fn is_ident(self, name: Seq<char>) -> bool {
        !self.leading_colon && self.segments.len() == 1 && self.segments[0] == name
    }

    /// The identifier that the path consists of, or the empty text where the
    /// path is more than one identifier.
    pub open spec fn ident_or_empty(self) -> Seq<char> {
        if !self.leading_colon && self.segments.len() == 1 {
            self.segments[0]
        } else {
            Seq::empty()
        }
    }

    /// The segments written with `::` between them; a leading `::` is not
    /// written.
    pub open spec fn joined(self) -> Seq<char> {
        join(self.segments, "::"@)
    }
}

impl MetaPath {
    /// Whether the path is exactly the identifier `name`.
    pub fn is_ident(&self, name: &str) -> (r: bool)
        ensures
            r == self@.is_ident(name@),
    {
        if self.leading_colon || self.segments.len() != 1 {
            return false;
        }
        let wanted = String::from_str(name);
        self.segments[0] == wanted
    }

    /// The path's only identifier, or the empty string where it has a leading
    /// `::` or more than one segment.
    pub fn ident_or_empty(&self) -> (r: String)
        ensures
            r@ == self@.ident_or_empty(),
    {
        if !self.leading_colon && self.segments.len() == 1 {
            self.segments[0].clone()
        } else {
            String::new()
        }
    }

    /// A copy of the path.
    pub fn duplicate(&self) -> (r: MetaPath)
        ensures
            r@ == self@,
    {
        let mut segments: Vec<String> = Vec::new();
        let mut i: usize = 0;
        while i < self.segments.len()
            invariant
                i <= self.segments.len(),
                segments.len() == i,
                segments.deep_view() == self.segments.deep_view().take(i as int),
            decreases self.segments.len() - i,
        {
            let ghost before = segments.deep_view();
            segments.push(self.segments[i].clone());
            assert forall|k: int| 0 <= k < i + 1 implies segments.deep_view()[k]
                == self.segments.deep_view()[k] by {
                if k < i {
                    assert(before[k] == self.segments.deep_view().take(i as int)[k]);
                }
            }
            i = i + 1;
        }
        assert(self.segments.deep_view().take(self.segments.len() as int)
            =~= self.segments.deep_view());
        MetaPath { leading_colon: self.leading_colon, segments }
    }

    /// The path's segments joined by `::`.
    pub fn joined(&self) -> (r: String)
        ensures
            r@ == self@.joined(),
    {
        let mut out = String::new();
        let mut i: usize = 0;
        while i < self.segments.len()
            invariant
                i <= self.segments.len(),
                out@ == join(self.segments.deep_view().take(i as int), "::"@),
            decreases self.segments.len() - i,
        {
            if i > 0 {
                out.append("::");
            }
            out.append(self.segments[i].as_str());
            proof {
                let parts = self.segments.deep_view();
                let now = parts.take(i + 1);
                assert(now.drop_last() == parts.take(i as int));
                if i == 0 {
                }
            }
            i = i + 1;
        }
        proof {
            let parts = self.segments.deep_view();
            assert(parts.take(parts.len() as int) == parts);
        }
        out
    }
}

/// The value after `=` in an entry `name = value`.
#[derive(Debug, Clone, PartialEq, Eq)]
pub enum MetaValue {
    /// A string literal; the text is the literal's value, not its spelling.
    Str(String),
    /// Any other expression.
    Other,
}

/// The mathematical value of a [`MetaValue`].
pub enum MetaValueModel {
    Str(Seq<char>),
    Other,
}

impl View for MetaValue {
    type V = MetaValueModel;

    open spec fn view(&self) -> MetaValueModel {
        match self {
            MetaValue::Str(text) => MetaValueModel::Str(text@),
            MetaValue::Other => MetaValueModel::Other,
        }
    }
}

/// One entry of an attribute's argument list.
#[derive(Debug, Clone, PartialEq, Eq)]
pub enum Meta {
    /// A bare path: `skip`.
    Path { path: MetaPath },
    /// A path with a delimited group behind it: `any(..)`.
    List { path: MetaPath },
    /// A path, `=` and a value: `rename = "id"`.
    NameValue { path: MetaPath, value: MetaValue },
}

/// The mathematical value of a [`Meta`].
pub enum MetaModel {
    Path { path: MetaPathModel },
    List { path: MetaPathModel },
    NameValue { path: MetaPathModel, value: MetaValueModel },
}

impl View for Meta {
    type V = MetaModel;

    open spec fn view(&self) -> MetaModel {
        match self {
            Meta::Path { path } => MetaModel::Path { path: path@ },
            Meta::List { path } => MetaModel::List { path: path@ },
            Meta::NameValue { path, value } => MetaModel::NameValue { path: path@, value: value@ },
        }
    }
}

impl DeepView for Meta {
    type V = MetaModel;

    open spec fn deep_view(&self) -> MetaModel {
        self@
    }
}

/// What follows the path of an attribute.
#[derive(Debug, Clone, PartialEq, Eq)]
pub enum AttrArgs {
    /// Nothing: `#[dissolved]`.
    Bare,
    /// `=` and an expression: `#[dissolved = ".."]`.
    Value,
    /// A delimited group that reads as entries separated by commas:
    /// `#[dissolved(skip)]`.
    List(Vec<Meta>),
    /// A delimited group that does not read as such a list; the text is the
    /// parser's complaint.
    Malformed(String),
}

/// The mathematical value of an [`AttrArgs`].
pub enum AttrArgsModel {
    Bare,
    Value,
    List(Seq<MetaModel>),
    Malformed(Seq<char>),
}

impl View for AttrArgs {
    type V = AttrArgsModel;

    open spec fn view(&self) -> AttrArgsModel {
        match self {
            AttrArgs::Bare => AttrArgsModel::Bare,
            AttrArgs::Value => AttrArgsModel::Value,
            AttrArgs::List(entries) => AttrArgsModel::List(entries.deep_view()),
            AttrArgs::Malformed(message) => AttrArgsModel::Malformed(message@),
        }
    }
}

/// One attribute: `#[path]`, `#[path = value]` or `#[path(..)]`.
#[derive(Debug, Clone, PartialEq, Eq)]
pub struct Attribute {
    pub path: MetaPath,
    pub args: AttrArgs,
}

/// The mathematical value of an [`Attribute`].
pub struct AttributeModel {
    pub path: MetaPathModel,
    pub args: AttrArgsModel,
}

impl View for Attribute {
    type V = AttributeModel;

    open spec fn view(&self) -> AttributeModel {
        AttributeModel { path: self.path@, args: self.args@ }
    }
}

impl DeepView for Attribute {
    type V = AttributeModel;

    open spec fn deep_view(&self) -> AttributeModel {
        self@
    }
}

/// A field of the declaration, without its name.
#[derive(Debug, Clone, PartialEq, Eq)]
pub struct Field {
    /// The field's type, as text.
    pub ty: String,
    /// The field's attributes, doc comments included, in source order.
    pub attrs: Vec<Attribute>,
}

/// The mathematical value of a [`Field`].
pub struct FieldModel {
    pub ty: Seq<char>,
    pub attrs: Seq<AttributeModel>,
}

impl View for Field {
    type V = FieldModel;

    open spec fn view(&self) -> FieldModel {
        FieldModel { ty: self.ty@, attrs: self.attrs.deep_view() }
    }
}

impl DeepView for Field {
    type V = FieldModel;

    open spec fn deep_view(&self) -> FieldModel {
        self@
    }
}

/// A field of a struct with named fields.
#[derive(Debug, Clone, PartialEq, Eq)]
pub struct NamedField {
    pub name: String,
    pub field: Field,
}

/// The mathematical value of a [`NamedField`].
pub struct NamedFieldModel {
    pub name: Seq<char>,
    pub field: FieldModel,
}

impl View for NamedField {
    type V = NamedFieldModel;

    open spec fn view(&self) -> NamedFieldModel {
        NamedFieldModel { name: self.name@, field: self.field@ }
    }
}

impl DeepView for NamedField {
    type V = NamedFieldModel;

    open spec fn deep_view(&self) -> NamedFieldModel {
        self@
    }
}

/// The fields of a struct.
#[derive(Debug, Clone, PartialEq, Eq)]
pub enum Fields {
    /// `struct S { a: A, b: B }`
    Named(Vec<NamedField>),
    /// `struct S(A, B);`
    Unnamed(Vec<Field>),
    /// `struct S;`
    Unit,
}

/// The mathematical value of a [`Fields`].
pub enum FieldsModel {
    Named(Seq<NamedFieldModel>),
    Unnamed(Seq<FieldModel>),
    Unit,
}

impl View for Fields {
    type V = FieldsModel;

    open spec fn view(&self) -> FieldsModel {
        match self {
            Fields::Named(fields) => FieldsModel::Named(fields.deep_view()),
            Fields::Unnamed(fields) => FieldsModel::Unnamed(fields.deep_view()),
            Fields::Unit => FieldsModel::Unit,
        }
    }
}

/// The kind of item that the derive stands on.
#[derive(Debug, Clone, PartialEq, Eq)]
pub enum Data {
    Struct(Fields),
    Enum,
    Union,
}

/// The mathematical value of a [`Data`].
pub enum DataModel {
    Struct(FieldsModel),
    Enum,
    Union,
}

impl View for Data {
    type V = DataModel;

    open spec fn view(&self) -> DataModel {
        match self {
            Data::Struct(fields) => DataModel::Struct(fields@),
            Data::Enum => DataModel::Enum,
            Data::Union => DataModel::Union,
        }
    }
}

/// The generic parameters of the declaration, as the texts that the
/// declaration and an `impl` for it are written with. The generator copies
/// them and reads none.
#[derive(Debug, Clone, PartialEq, Eq)]
pub struct Generics {
    /// The parameters as the declaration writes them, with bounds and
    /// defaults: `<'a, T: Clone = u8>`; empty without parameters. The
    /// companion is declared with these.
    pub declared: String,
    /// The parameters as an `impl` writes them, with bounds and without
    /// defaults: `<'a, T: Clone>`.
    pub params: String,
    /// The parameters as arguments of the type: `<'a, T>`.
    pub args: String,
    /// The `where` clause, or the empty string.
    pub where_clause: String,
}

/// The mathematical value of a [`Generics`].
pub struct GenericsModel {
    pub declared: Seq<char>,
    pub params: Seq<char>,
    pub args: Seq<char>,
    pub where_clause: Seq<char>,
}

impl View for Generics {
    type V = GenericsModel;

    open spec fn view(&self) -> GenericsModel {
        GenericsModel {
            declared: self.declared@,
            params: self.params@,
            args: self.args@,
            where_clause: self.where_clause@,
        }
    }
}

impl Generics {
    /// A copy with the same three texts.
    pub fn duplicate(&self) -> (r: Generics)
        ensures
            r@ == self@,
    {
        Generics {
            declared: self.declared.clone(),
            params: self.params.clone(),
            args: self.args.clone(),
            where_clause: self.where_clause.clone(),
        }
    }
}

/// The whole declaration: what a derive macro is handed.
#[derive(Debug, Clone, PartialEq, Eq)]
pub struct DeriveInput {
    /// The declared type's name.
    pub name: String,
    pub generics: Generics,
    /// The attributes on the declaration itself, in source order.
    pub attrs: Vec<Attribute>,
    pub data: Data,
}

/// The mathematical value of a [`DeriveInput`].
pub struct DeriveInputModel {
    pub name: Seq<char>,
    pub generics: GenericsModel,
    pub attrs: Seq<AttributeModel>,
    pub data: DataModel,
}

impl View for DeriveInput {
    type V = DeriveInputModel;

    open spec fn view(&self) -> DeriveInputModel {
        DeriveInputModel {
            name: self.name@,
            generics: self.generics@,
            attrs: self.attrs.deep_view(),
            data: self.data@,
        }
    }
}

/// A result of the library as a mathematical value: the view of what it holds.
pub open spec fn outcome<T: View, E: View>(r: Result<T, E>) -> Result<T::V, E::V> {
    match r {
        Ok(value) => Ok(value@),
        Err(error) => Err(error@),
    }
}

/// Positions as mathematical integers.
pub open spec fn positions(v: Seq<usize>) -> Seq<int> {
    Seq::new(v.len(), |i: int| v[i] as int)
}

} // verus!
