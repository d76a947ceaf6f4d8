//! The shape check: only an enum has a tag enum.

use vstd::prelude::*;
use crate::descriptor::{
    DeclData, DeclDataView, EnumDescriptor, EnumView, ErrorDiagnostic, ErrorDiagnosticView,
    TypeDecl, TypeDeclView,
};

verus! {

/// What the diagnostic says when the declaration is not an enum.
pub open spec fn inapplicable_message() -> Seq<char> {
    "Can only derive the tag facility for enums."@
}

/// The span of the keyword that introduces a struct or a union.
pub open spec fn decl_keyword_span(data: DeclDataView) -> proc_macro2::Span
    recommends
        !(data is Enum),
{
    match data {
        DeclDataView::Struct { keyword } => keyword,
        DeclDataView::Union { keyword } => keyword,
        DeclDataView::Enum { .. } => arbitrary(),
    }
}

/// The outcome of the shape check: the enum that the declaration describes,
/// or for a struct or a union the diagnostic anchored at its keyword.
pub open spec fn extracted(input: TypeDeclView) -> Result<EnumView, ErrorDiagnosticView> {
    match input.data {
        DeclDataView::Enum { variants } => Ok(
            EnumView {
                name: input.name,
                visibility: input.visibility,
                generics: input.generics,
                where_clause: input.where_clause,
                variants,
            },
        ),
        _ => Err(
            ErrorDiagnosticView {
                message: inapplicable_message(),
                span: decl_keyword_span(input.data),
            },
        ),
    }
}

/// The view of an outcome of the shape check.
pub open spec fn outcome_view(out: Result<EnumDescriptor, ErrorDiagnostic>) -> Result<
    EnumView,
    ErrorDiagnosticView,
> {
    match out {
        Ok(desc) => Ok(desc@),
        Err(diag) => Err(diag@),
    }
}

/// The span of the `struct` or `union` keyword of a declaration that is not
/// an enum.
pub fn get_decl_keyword_span(data: &DeclData) -> (span: proc_macro2::Span)
    requires
        !(data is Enum),
    ensures
        span == decl_keyword_span(data@),
{
    match data {
        DeclData::Struct { keyword } => *keyword,
        DeclData::Union { keyword } => *keyword,
        DeclData::Enum { .. } => vstd::pervasive::unreached(),
    }
}

/// Checks that the declaration is an enum and hands out its description.
/// A struct or a union yields the diagnostic instead, anchored at the
/// `struct` or `union` keyword.
pub fn extract_enum(input: TypeDecl) -> (out: Result<EnumDescriptor, ErrorDiagnostic>)
    ensures
        outcome_view(out) == extracted(input@),
{
    match input.data {
        DeclData::Enum { variants } => Ok(
            EnumDescriptor {
                name: input.name,
                visibility: input.visibility,
                generics: input.generics,
                where_clause: input.where_clause,
                variants,
            },
        ),
        data => {
            let span = get_decl_keyword_span(&data);
            Err(
                ErrorDiagnostic {
                    message: String::from_str("Can only derive the tag facility for enums."),
                    span,
                },
            )
        },
    }
}

} // verus!
