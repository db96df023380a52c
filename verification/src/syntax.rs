//! A plain description of the items that the expanders read: attributes,
//! fields, and the input of a derive.
//!
//! Token text is kept as it is printed from a token stream. A name is the
//! text of an identifier.

use vstd::prelude::*;

verus! {

/// The shape of what follows an attribute's name.
#[derive(Debug, PartialEq, Eq)]
pub enum Meta {
    /// A bare marker, `#[name]`.
    Path,
    /// A list, `#[name(tokens)]`, with the text between the brackets.
    List { tokens: String },
    /// A name and a value, `#[name = value]`.
    NameValue { value: String },
}

pub enum MetaView {
    Path,
    List { tokens: Seq<char> },
    NameValue { value: Seq<char> },
}

impl View for Meta {
    type V = MetaView;

    open spec fn view(&self) -> MetaView {
        match self {
            Meta::Path => MetaView::Path,
            Meta::List { tokens } => MetaView::List { tokens: tokens@ },
            Meta::NameValue { value } => MetaView::NameValue { value: value@ },
        }
    }
}

/// One attribute on a field. `name` is the attribute's path as written; only a
/// path of a single identifier can equal one of the names the expanders know.
#[derive(Debug, PartialEq, Eq)]
pub struct Attribute {
    pub name: String,
    pub meta: Meta,
}

pub struct AttributeView {
    pub name: Seq<char>,
    pub meta: MetaView,
}

impl View for Attribute {
    type V = AttributeView;

    open spec fn view(&self) -> AttributeView {
        AttributeView { name: self.name@, meta: self.meta@ }
    }
}

/// The views of a list of attributes, in the same order.
pub open spec fn attribute_views(attrs: Seq<Attribute>) -> Seq<AttributeView> {
    attrs.map_values(|a: Attribute| a@)
}

/// A field's declared type: its text, and the name of the last segment where
/// the type is a path (`None` for a reference, a tuple, and so on).
#[derive(Debug, PartialEq, Eq)]
pub struct Type {
    pub tokens: String,
    pub last_segment: Option<String>,
}

pub struct TypeView {
    pub tokens: Seq<char>,
    pub last_segment: Option<Seq<char>>,
}

impl View for Type {
    type V = TypeView;

    open spec fn view(&self) -> TypeView {
        TypeView {
            tokens: self.tokens@,
            last_segment: match self.last_segment {
                Some(name) => Some(name@),
                None => None,
            },
        }
    }
}

/// A named field with its attributes in source order.
#[derive(Debug, PartialEq, Eq)]
pub struct Field {
    pub name: String,
    pub ty: Type,
    pub attrs: Vec<Attribute>,
}

pub struct FieldView {
    pub name: Seq<char>,
    pub ty: TypeView,
    pub attrs: Seq<AttributeView>,
}

impl View for Field {
    type V = FieldView;

    open spec fn view(&self) -> FieldView {
        FieldView {
            name: self.name@,
            ty: self.ty@,
            attrs: attribute_views(self.attrs@),
        }
    }
}

/// The views of a list of fields, in the same order.
pub open spec fn field_views(fields: Seq<Field>) -> Seq<FieldView> {
    fields.map_values(|f: Field| f@)
}

/// What kind of item a derive was applied to. Only a struct with named fields
/// carries its fields: nothing is read from the others.
#[derive(Debug, PartialEq, Eq)]
pub enum Data {
    Named { fields: Vec<Field> },
    Tuple,
    Unit,
    Enum,
    Union,
}

pub enum DataView {
    Named { fields: Seq<FieldView> },
    Tuple,
    Unit,
    Enum,
    Union,
}

impl View for Data {
    type V = DataView;

    open spec fn view(&self) -> DataView {
        match self {
            Data::Named { fields } => DataView::Named { fields: field_views(fields@) },
            Data::Tuple => DataView::Tuple,
            Data::Unit => DataView::Unit,
            Data::Enum => DataView::Enum,
            Data::Union => DataView::Union,
        }
    }
}

/// The generics of an item, split into the three pieces that an `impl` needs:
/// `impl<..>`'s parameters with their bounds, the type's arguments, and the
/// `where` clause. A piece that the item lacks is empty.
#[derive(Debug, PartialEq, Eq)]
pub struct Generics {
    pub impl_generics: String,
    pub ty_generics: String,
    pub where_clause: String,
}

pub struct GenericsView {
    pub impl_generics: Seq<char>,
    pub ty_generics: Seq<char>,
    pub where_clause: Seq<char>,
}

impl View for Generics {
    type V = GenericsView;

    open spec fn view(&self) -> GenericsView {
        GenericsView {
            impl_generics: self.impl_generics@,
            ty_generics: self.ty_generics@,
            where_clause: self.where_clause@,
        }
    }
}

/// The input of a derive: the item's name, its generics and its body.
#[derive(Debug, PartialEq, Eq)]
pub struct DeriveInput {
    pub ident: String,
    pub generics: Generics,
    pub data: Data,
}

pub struct DeriveInputView {
    pub ident: Seq<char>,
    pub generics: GenericsView,
    pub data: DataView,
}

impl View for DeriveInput {
    type V = DeriveInputView;

    open spec fn view(&self) -> DeriveInputView {
        DeriveInputView { ident: self.ident@, generics: self.generics@, data: self.data@ }
    }
}

} // verus!
