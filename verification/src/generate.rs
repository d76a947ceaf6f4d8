//! The derivation from end to end.

use vstd::prelude::*;
use crate::assemble::{expand, expansion_of};
use crate::descriptor::{ErrorDiagnostic, ErrorDiagnosticView, TypeDecl, TypeDeclView};
use crate::extract::{extract_enum, extracted};
use crate::render::{expansion_text, render_expansion};

verus! {

/// What the derivation yields for a declaration: for an enum the text of the
/// tag enum and of the implementation of `TaggedEnum`, for a struct or a
/// union the diagnostic anchored at its keyword.
pub open spec fn generated(input: TypeDeclView) -> Result<Seq<char>, ErrorDiagnosticView> {
    match extracted(input) {
        Ok(desc) => Ok(expansion_text(expansion_of(desc))),
        Err(diag) => Err(diag),
    }
}

/// The view of what the derivation yielded.
pub open spec fn generated_view(out: Result<String, ErrorDiagnostic>) -> Result<
    Seq<char>,
    ErrorDiagnosticView,
> {
    match out {
        Ok(source) => Ok(source@),
        Err(diag) => Err(diag@),
    }
}

/// Derives the tag enum of a declaration and the implementation of
/// `TaggedEnum` that goes with it, as source text. Only an enum has them: on
/// a struct or a union the result is the diagnostic, and nothing is emitted.
pub fn generate_tokens(input: TypeDecl) -> (out: Result<String, ErrorDiagnostic>)
    ensures
        generated_view(out) == generated(input@),
{
    let desc = match extract_enum(input) {
        Ok(desc) => desc,
        Err(diag) => {
            return Err(diag);
        },
    };
    let expansion = expand(&desc);
    Ok(render_expansion(&expansion))
}

} // verus!
