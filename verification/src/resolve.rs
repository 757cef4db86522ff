//! The type resolver: maps one IDL type to a target-language type
//! expression, recursively and structurally. It is total and pure; whether a
//! `Defined` reference actually resolves within the document is checked by
//! the assembler, not here.

use vstd::prelude::*;

use crate::idl::{IdlType, IdlTypeView, view_of_type};

verus! {

/// A target-language type expression, kept structural so that nested
/// containers stay nested and distinct rather than collapsing to text early.
/// Only the emission backend turns it into concrete syntax.
#[derive(Debug, PartialEq, Eq)]
pub enum TypeExpr {
    /// A fixed-width integer of the given signedness and bit width.
    Int { signed: bool, width: u32 },
    /// An arbitrary-precision integer, standing in for 128-bit values.
    BigInt,
    /// The target's fixed-size public-key value type.
    PublicKey,
    Bool,
    /// UTF-8 text.
    Text,
    /// A variable-length byte sequence.
    Bytes,
    /// A reference to the generated declaration with the given name.
    Ref(String),
    /// A homogeneous sequence of the element type; `fixed_len` carries the
    /// length of a fixed-length sequence, which a backend may use for
    /// validation but need not enforce at the type level.
    Sequence { elem: Box<TypeExpr>, fixed_len: Option<usize> },
    /// A nullable wrapper around the inner expression.
    Optional(Box<TypeExpr>),
}

/// Ghost view of `TypeExpr`.
pub enum TypeExprView {
    Int { signed: bool, width: u32 },
    BigInt,
    PublicKey,
    Bool,
    Text,
    Bytes,
    Ref(Seq<char>),
    Sequence { elem: Box<TypeExprView>, fixed_len: Option<nat> },
    Optional(Box<TypeExprView>),
}

/// The view of one `TypeExpr`, a free function for the same reason as
/// `view_of_type`.
pub open spec fn view_of_expr(e: TypeExpr) -> TypeExprView
    decreases e,
{
    match e {
        TypeExpr::Int { signed, width } => TypeExprView::Int { signed, width },
        TypeExpr::BigInt => TypeExprView::BigInt,
        TypeExpr::PublicKey => TypeExprView::PublicKey,
        TypeExpr::Bool => TypeExprView::Bool,
        TypeExpr::Text => TypeExprView::Text,
        TypeExpr::Bytes => TypeExprView::Bytes,
        TypeExpr::Ref(name) => TypeExprView::Ref(name.deep_view()),
        TypeExpr::Sequence { elem, fixed_len } => TypeExprView::Sequence {
            elem: Box::new(view_of_expr(*elem)),
            fixed_len: match fixed_len {
                Some(n) => Some(n as nat),
                None => None,
            },
        },
        TypeExpr::Optional(elem) => TypeExprView::Optional(Box::new(view_of_expr(*elem))),
    }
}

impl DeepView for TypeExpr {
    type V = TypeExprView;

    open spec fn deep_view(&self) -> TypeExprView {
        view_of_expr(*self)
    }
}

/// The type expression one IDL type resolves to. The mapping is structural:
/// nesting is preserved exactly, references are carried by name and are not
/// expanded.
pub open spec fn spec_resolve(t: IdlTypeView) -> TypeExprView
    decreases t,
{
    match t {
        IdlTypeView::U8 => TypeExprView::Int { signed: false, width: 8 },
        IdlTypeView::I8 => TypeExprView::Int { signed: true, width: 8 },
        IdlTypeView::U16 => TypeExprView::Int { signed: false, width: 16 },
        IdlTypeView::I16 => TypeExprView::Int { signed: true, width: 16 },
        IdlTypeView::U32 => TypeExprView::Int { signed: false, width: 32 },
        IdlTypeView::I32 => TypeExprView::Int { signed: true, width: 32 },
        IdlTypeView::U64 => TypeExprView::Int { signed: false, width: 64 },
        IdlTypeView::I64 => TypeExprView::Int { signed: true, width: 64 },
        IdlTypeView::U128 => TypeExprView::BigInt,
        IdlTypeView::I128 => TypeExprView::BigInt,
        IdlTypeView::Bool => TypeExprView::Bool,
        IdlTypeView::Text => TypeExprView::Text,
        IdlTypeView::PublicKey => TypeExprView::PublicKey,
        IdlTypeView::Bytes => TypeExprView::Bytes,
        IdlTypeView::Defined(name) => TypeExprView::Ref(name),
        IdlTypeView::List(elem) => TypeExprView::Sequence {
            elem: Box::new(spec_resolve(*elem)),
            fixed_len: None,
        },
        IdlTypeView::Array(elem, len) => TypeExprView::Sequence {
            elem: Box::new(spec_resolve(*elem)),
            fixed_len: Some(len),
        },
        IdlTypeView::Optional(elem) => TypeExprView::Optional(Box::new(spec_resolve(*elem))),
    }
}

/// Resolve one IDL type to its target-language type expression.
pub fn resolve(t: &IdlType) -> (r: TypeExpr)
    ensures
        r.deep_view() == spec_resolve(t.deep_view()),
    decreases t,
{
    match t {
        IdlType::U8 => TypeExpr::Int { signed: false, width: 8 },
        IdlType::I8 => TypeExpr::Int { signed: true, width: 8 },
        IdlType::U16 => TypeExpr::Int { signed: false, width: 16 },
        IdlType::I16 => TypeExpr::Int { signed: true, width: 16 },
        IdlType::U32 => TypeExpr::Int { signed: false, width: 32 },
        IdlType::I32 => TypeExpr::Int { signed: true, width: 32 },
        IdlType::U64 => TypeExpr::Int { signed: false, width: 64 },
        IdlType::I64 => TypeExpr::Int { signed: true, width: 64 },
        IdlType::U128 => TypeExpr::BigInt,
        IdlType::I128 => TypeExpr::BigInt,
        IdlType::Bool => TypeExpr::Bool,
        IdlType::Text => TypeExpr::Text,
        IdlType::PublicKey => TypeExpr::PublicKey,
        IdlType::Bytes => TypeExpr::Bytes,
        IdlType::Defined(name) => TypeExpr::Ref(name.clone()),
        IdlType::List(elem) => TypeExpr::Sequence {
            elem: Box::new(resolve(elem)),
            fixed_len: None,
        },
        IdlType::Array(elem, len) => TypeExpr::Sequence {
            elem: Box::new(resolve(elem)),
            fixed_len: Some(*len),
        },
        IdlType::Optional(elem) => TypeExpr::Optional(Box::new(resolve(elem))),
    }
}

} // verus!
