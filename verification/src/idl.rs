//! The IDL data model: the type shapes an interface definition document can
//! carry, together with their mathematical views.
//!
//! Every exec type here mirrors one shape of the input document; its
//! `deep_view` maps it to a ghost value over `Seq<char>` and `nat`, which is
//! what all contracts in this crate speak about.

use vstd::prelude::*;

verus! {

/// One IDL type: a primitive, a named reference to another declared type, or
/// a container around another IDL type.
#[derive(Debug, PartialEq, Eq)]
pub enum IdlType {
    U8,
    I8,
    U16,
    I16,
    U32,
    I32,
    U64,
    I64,
    U128,
    I128,
    Bool,
    /// UTF-8 text.
    Text,
    /// A 32-byte public-key value.
    PublicKey,
    /// A raw variable-length byte blob.
    Bytes,
    /// A reference to the type definition with the given name.
    Defined(String),
    /// A homogeneous variable-length sequence.
    List(Box<IdlType>),
    /// A homogeneous fixed-length sequence.
    Array(Box<IdlType>, usize),
    /// An optional wrapper.
    Optional(Box<IdlType>),
}

/// Ghost view of `IdlType`.
pub enum IdlTypeView {
    U8,
    I8,
    U16,
    I16,
    U32,
    I32,
    U64,
    I64,
    U128,
    I128,
    Bool,
    Text,
    PublicKey,
    Bytes,
    Defined(Seq<char>),
    List(Box<IdlTypeView>),
    Array(Box<IdlTypeView>, nat),
    Optional(Box<IdlTypeView>),
}

/// The view of one `IdlType`, written as a free function so the recursion
/// through the container variants has a plain structural `decreases` measure.
pub open spec fn view_of_type(t: IdlType) -> IdlTypeView
    decreases t,
{
    match t {
        IdlType::U8 => IdlTypeView::U8,
        IdlType::I8 => IdlTypeView::I8,
        IdlType::U16 => IdlTypeView::U16,
        IdlType::I16 => IdlTypeView::I16,
        IdlType::U32 => IdlTypeView::U32,
        IdlType::I32 => IdlTypeView::I32,
        IdlType::U64 => IdlTypeView::U64,
        IdlType::I64 => IdlTypeView::I64,
        IdlType::U128 => IdlTypeView::U128,
        IdlType::I128 => IdlTypeView::I128,
        IdlType::Bool => IdlTypeView::Bool,
        IdlType::Text => IdlTypeView::Text,
        IdlType::PublicKey => IdlTypeView::PublicKey,
        IdlType::Bytes => IdlTypeView::Bytes,
        IdlType::Defined(name) => IdlTypeView::Defined(name.deep_view()),
        IdlType::List(elem) => IdlTypeView::List(Box::new(view_of_type(*elem))),
        IdlType::Array(elem, len) => IdlTypeView::Array(Box::new(view_of_type(*elem)), len as nat),
        IdlType::Optional(elem) => IdlTypeView::Optional(Box::new(view_of_type(*elem))),
    }
}

impl DeepView for IdlType {
    type V = IdlTypeView;

    open spec fn deep_view(&self) -> IdlTypeView {
        view_of_type(*self)
    }
}

/// One named field of a struct or of a data-carrying enum variant. The name
/// carries the source casing of the document.
#[derive(Debug, PartialEq, Eq)]
pub struct IdlField {
    pub name: String,
    pub ty: IdlType,
}

/// Ghost view of `IdlField`.
pub struct IdlFieldView {
    pub name: Seq<char>,
    pub ty: IdlTypeView,
}

impl DeepView for IdlField {
    type V = IdlFieldView;

    open spec fn deep_view(&self) -> IdlFieldView {
        IdlFieldView { name: self.name.deep_view(), ty: self.ty.deep_view() }
    }
}

/// One enum variant: a name, plus the fields it carries, if any. A variant
/// with `fields == None` is a unit variant.
#[derive(Debug, PartialEq, Eq)]
pub struct IdlEnumVariant {
    pub name: String,
    pub fields: Option<Vec<IdlField>>,
}

/// Ghost view of `IdlEnumVariant`.
pub struct IdlEnumVariantView {
    pub name: Seq<char>,
    pub fields: Option<Seq<IdlFieldView>>,
}

impl DeepView for IdlEnumVariant {
    type V = IdlEnumVariantView;

    open spec fn deep_view(&self) -> IdlEnumVariantView {
        IdlEnumVariantView { name: self.name.deep_view(), fields: self.fields.deep_view() }
    }
}

/// The body of a type definition. `Unsupported` stands for a definition shape
/// outside struct and enum, as an evolving input schema may carry; the
/// pipeline reports it instead of silently skipping the definition.
#[derive(Debug, PartialEq, Eq)]
pub enum IdlTypeDefinitionTy {
    Struct { fields: Vec<IdlField> },
    Enum { variants: Vec<IdlEnumVariant> },
    Unsupported,
}

/// Ghost view of `IdlTypeDefinitionTy`.
pub enum IdlTypeDefinitionTyView {
    Struct { fields: Seq<IdlFieldView> },
    Enum { variants: Seq<IdlEnumVariantView> },
    Unsupported,
}

impl DeepView for IdlTypeDefinitionTy {
    type V = IdlTypeDefinitionTyView;

    open spec fn deep_view(&self) -> IdlTypeDefinitionTyView {
        match self {
            IdlTypeDefinitionTy::Struct { fields } => IdlTypeDefinitionTyView::Struct {
                fields: fields.deep_view(),
            },
            IdlTypeDefinitionTy::Enum { variants } => IdlTypeDefinitionTyView::Enum {
                variants: variants.deep_view(),
            },
            IdlTypeDefinitionTy::Unsupported => IdlTypeDefinitionTyView::Unsupported,
        }
    }
}

/// One named type definition of the document.
#[derive(Debug, PartialEq, Eq)]
pub struct IdlTypeDefinition {
    pub name: String,
    pub ty: IdlTypeDefinitionTy,
}

/// Ghost view of `IdlTypeDefinition`.
pub struct IdlTypeDefinitionView {
    pub name: Seq<char>,
    pub ty: IdlTypeDefinitionTyView,
}

impl DeepView for IdlTypeDefinition {
    type V = IdlTypeDefinitionView;

    open spec fn deep_view(&self) -> IdlTypeDefinitionView {
        IdlTypeDefinitionView { name: self.name.deep_view(), ty: self.ty.deep_view() }
    }
}

/// A whole IDL document: a name, the account type definitions, and the
/// auxiliary type definitions. The pipeline reads it and never mutates it.
#[derive(Debug, PartialEq, Eq)]
pub struct Idl {
    pub name: String,
    pub accounts: Vec<IdlTypeDefinition>,
    pub types: Vec<IdlTypeDefinition>,
}

/// Ghost view of `Idl`.
pub struct IdlView {
    pub name: Seq<char>,
    pub accounts: Seq<IdlTypeDefinitionView>,
    pub types: Seq<IdlTypeDefinitionView>,
}

impl DeepView for Idl {
    type V = IdlView;

    open spec fn deep_view(&self) -> IdlView {
        IdlView {
            name: self.name.deep_view(),
            accounts: self.accounts.deep_view(),
            types: self.types.deep_view(),
        }
    }
}

} // verus!
