//! The casing seam: the pipeline re-cases names for the target language
//! through an injectable policy, so different targets can pick different
//! conventions. The conversions themselves come from the `heck` crate; their
//! results are named, not restated, since each is a pure function of the
//! input characters alone.

use vstd::prelude::*;

verus! {

/// The characters that heck's `CamelCase` conversion produces for the given
/// input characters.
pub uninterp spec fn camel_of(s: Seq<char>) -> Seq<char>;

/// The characters that heck's `SnakeCase` conversion produces for the given
/// input characters.
pub uninterp spec fn snake_of(s: Seq<char>) -> Seq<char>;

/// Relies on heck's `CamelCase::to_camel_case`: a pure conversion whose
/// result depends on the input characters alone.
#[verifier::external_body]
fn to_camel_case(s: &str) -> (r: String)
    ensures
        r@ == camel_of(s@),
{
    heck::CamelCase::to_camel_case(s)
}

/// Relies on heck's `SnakeCase::to_snake_case`: a pure conversion whose
/// result depends on the input characters alone.
#[verifier::external_body]
fn to_snake_case(s: &str) -> (r: String)
    ensures
        r@ == snake_of(s@),
{
    heck::SnakeCase::to_snake_case(s)
}

/// One casing policy for emitted names. The pipeline takes the policy as
/// configuration and applies it uniformly; the target language picks it.
#[derive(Clone, Copy, Debug, PartialEq, Eq, Structural)]
pub enum CaseStyle {
    /// PascalCase, e.g. `my_account` becomes `MyAccount`.
    Pascal,
    /// snake_case, e.g. `MyAccount` becomes `my_account`.
    Snake,
}

/// What applying a casing policy to a name means.
pub open spec fn spec_cased(style: CaseStyle, s: Seq<char>) -> Seq<char> {
    match style {
        CaseStyle::Pascal => camel_of(s),
        CaseStyle::Snake => snake_of(s),
    }
}

/// Re-case one name under the chosen policy.
pub fn apply_case(style: CaseStyle, s: &str) -> (r: String)
    ensures
        r@ == spec_cased(style, s@),
{
    match style {
        CaseStyle::Pascal => to_camel_case(s),
        CaseStyle::Snake => to_snake_case(s),
    }
}

} // verus!
