//! The declaration that a panel is generated for: a struct, its fields, and
//! the metadata attached to each field.

use crate::views::views;
use crate::token::{Token, TokenView};
use vstd::prelude::*;

verus! {

/// The form of one metadata entry, after its path.
#[derive(Clone, Debug, PartialEq, Eq)]
pub enum Meta {
    /// The path alone: `#[name]`.
    Word,
    /// A delimited token list: `#[name(tokens)]`.
    List(Vec<Token>),
    /// A string literal as value: `#[name = "text"]`. Holds the literal as
    /// written, quotes included.
    Text(String),
    /// Any other value: `#[name = expr]`.
    Value,
}

/// What a `Meta` holds, as a mathematical value.
pub enum MetaView {
    Word,
    List(Seq<TokenView>),
    Text(Seq<char>),
    Value,
}

impl View for Meta {
    type V = MetaView;

    open spec fn view(&self) -> MetaView {
        match *self {
            Meta::Word => MetaView::Word,
            Meta::List(tokens) => MetaView::List(views(tokens@)),
            Meta::Text(literal) => MetaView::Text(literal@),
            Meta::Value => MetaView::Value,
        }
    }
}

/// One metadata entry of a field: a path and what follows it.
#[derive(Clone, Debug, PartialEq, Eq)]
pub struct Attribute {
    /// The segments of the path, in order.
    pub path: Vec<String>,
    pub meta: Meta,
}

/// What an `Attribute` holds, as a mathematical value.
pub struct AttributeView {
    pub path: Seq<Seq<char>>,
    pub meta: MetaView,
}

impl View for Attribute {
    type V = AttributeView;

    open spec fn view(&self) -> AttributeView {
        AttributeView { path: views(self.path@), meta: self.meta@ }
    }
}

/// One named field.
#[derive(Clone, Debug, PartialEq, Eq)]
pub struct Field {
    pub name: String,
    /// The declared type, as its tokens print.
    pub ty: String,
    /// The attached metadata entries, in source order.
    pub attrs: Vec<Attribute>,
}

/// What a `Field` holds, as a mathematical value.
pub struct FieldView {
    pub name: Seq<char>,
    pub ty: Seq<char>,
    pub attrs: Seq<AttributeView>,
}

impl View for Field {
    type V = FieldView;

    open spec fn view(&self) -> FieldView {
        FieldView { name: self.name@, ty: self.ty@, attrs: views(self.attrs@) }
    }
}

/// The kind of item a derive was put on.
#[derive(Clone, Debug, PartialEq, Eq)]
pub enum Data {
    /// A struct with named fields, in declaration order.
    Struct(Vec<Field>),
    /// A struct with positional fields.
    Tuple,
    /// A struct without a field list.
    Unit,
    Enum,
    Union,
}

/// What a `Data` holds, as a mathematical value.
pub enum DataView {
    Struct(Seq<FieldView>),
    Tuple,
    Unit,
    Enum,
    Union,
}

impl View for Data {
    type V = DataView;

    open spec fn view(&self) -> DataView {
        match *self {
            Data::Struct(fields) => DataView::Struct(views(fields@)),
            Data::Tuple => DataView::Tuple,
            Data::Unit => DataView::Unit,
            Data::Enum => DataView::Enum,
            Data::Union => DataView::Union,
        }
    }
}

/// A type declaration: its name and what it declares.
#[derive(Clone, Debug, PartialEq, Eq)]
pub struct DeriveInput {
    pub name: String,
    pub data: Data,
}

/// What a `DeriveInput` holds, as a mathematical value.
pub struct DeriveInputView {
    pub name: Seq<char>,
    pub data: DataView,
}

impl View for DeriveInput {
    type V = DeriveInputView;

    open spec fn view(&self) -> DeriveInputView {
        DeriveInputView { name: self.name@, data: self.data@ }
    }
}

} // verus!
