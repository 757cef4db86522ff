//! The whole pipeline in one call: assemble the document, then render it.
//! Generation either returns the complete output text or one error, never a
//! partial result.

use vstd::prelude::*;

use crate::assemble::{assemble, spec_assemble};
use crate::casing::CaseStyle;
use crate::error::{GenError, GenErrorView, result_view};
use crate::idl::{Idl, IdlView};
use crate::render::{render, spec_render};

verus! {

/// What generation yields: the rendered text of the assembled document, or
/// the error assembly reports.
pub open spec fn spec_generate(v: IdlView, style: CaseStyle) -> Result<Seq<char>, GenErrorView> {
    match spec_assemble(v, style) {
        Ok(doc) => Ok(spec_render(doc)),
        Err(e) => Err(e),
    }
}

/// Generate the target-language source text for one IDL document.
pub fn generate(idl: &Idl, style: CaseStyle) -> (r: Result<String, GenError>)
    ensures
        result_view(r) == spec_generate(idl.deep_view(), style),
{
    match assemble(idl, style) {
        Ok(doc) => Ok(render(&doc)),
        Err(e) => Err(e),
    }
}

} // verus!
