//! Verified code-generation pipeline for Interface Definition Language (IDL)
//! documents: resolves IDL types to target-language type expressions,
//! synthesizes declarations, assembles them into a namespaced document, and
//! renders the result as C# source text.

pub mod assemble;
pub mod casing;
pub mod error;
pub mod idl;
pub mod laws;
pub mod pipeline;
pub mod render;
pub mod resolve;
pub mod synth;
