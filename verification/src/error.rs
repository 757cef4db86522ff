//! The errors generation can report. Every one aborts generation for the
//! whole document and carries the offending name verbatim; the caller decides
//! presentation.

use vstd::prelude::*;

verus! {

/// Why generation failed.
#[derive(Debug, PartialEq, Eq)]
pub enum GenError {
    /// A `Defined` type names a declaration that exists nowhere in the
    /// document.
    UnresolvedReference(String),
    /// A definition refers to itself without a reference-breaking container
    /// in between, which would make the emitted declaration infinitely sized.
    DirectSelfRecursion(String),
    /// Two definitions in the combined account and auxiliary-type set share
    /// a name.
    DuplicateDeclarationName(String),
    /// A definition has a shape outside struct and enum.
    UnsupportedDefinitionKind(String),
}

/// Ghost view of `GenError`.
pub enum GenErrorView {
    UnresolvedReference(Seq<char>),
    DirectSelfRecursion(Seq<char>),
    DuplicateDeclarationName(Seq<char>),
    UnsupportedDefinitionKind(Seq<char>),
}

impl DeepView for GenError {
    type V = GenErrorView;

    open spec fn deep_view(&self) -> GenErrorView {
        match self {
            GenError::UnresolvedReference(n) => GenErrorView::UnresolvedReference(n.deep_view()),
            GenError::DirectSelfRecursion(n) => GenErrorView::DirectSelfRecursion(n.deep_view()),
            GenError::DuplicateDeclarationName(n) => GenErrorView::DuplicateDeclarationName(
                n.deep_view(),
            ),
            GenError::UnsupportedDefinitionKind(n) => GenErrorView::UnsupportedDefinitionKind(
                n.deep_view(),
            ),
        }
    }
}

/// The deep view of a `Result`, case by case.
pub open spec fn result_view<T: DeepView, E: DeepView>(r: Result<T, E>) -> Result<T::V, E::V> {
    match r {
        Ok(t) => Ok(t.deep_view()),
        Err(e) => Err(e.deep_view()),
    }
}

} // verus!
