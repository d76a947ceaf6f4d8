//! The discriminant that the compiler gives each variant of an enum.
//!
//! An explicit discriminant is an expression, which the library does not
//! evaluate; a variant without one counts on from the variant before it, and
//! the first from zero. So a discriminant is known as an expression, or zero,
//! and a number of steps beyond it.

use vstd::prelude::*;
use crate::descriptor::{
    clone_optional_text, optional_text, variant_views, VariantDescriptor, VariantView,
};

verus! {

/// The discriminant of a variant: the value of `base`, or zero where there is
/// none, plus `offset`.
#[derive(Clone, Debug, PartialEq, Eq)]
pub struct Discriminant {
    /// The nearest explicit discriminant at or before the variant.
    pub base: Option<String>,
    /// The number of variants since then.
    pub offset: usize,
}

/// A discriminant as contracts see it.
pub struct DiscriminantView {
    pub base: Option<Seq<char>>,
    pub offset: nat,
}

impl View for Discriminant {
    type V = DiscriminantView;

    open spec fn view(&self) -> DiscriminantView {
        DiscriminantView { base: optional_text(self.base), offset: self.offset as nat }
    }
}

/// The discriminant of the variant at `index`: its own expression if it has
/// one, else one more than that of the variant before it, and zero for the
/// first variant.
pub open spec fn discriminant_at(variants: Seq<VariantView>, index: int) -> DiscriminantView
    recommends
        0 <= index < variants.len(),
    decreases index,
{
    if variants[index].discriminant is Some || index <= 0 {
        DiscriminantView { base: variants[index].discriminant, offset: 0 }
    } else {
        let before = discriminant_at(variants, index - 1);
        DiscriminantView { base: before.base, offset: before.offset + 1 }
    }
}

/// The discriminant of the variant at `index`, or `None` if there is no such
/// variant.
pub fn discriminant_of(variants: &Vec<VariantDescriptor>, index: usize) -> (out: Option<
    Discriminant,
>)
    ensures
        match out {
            Some(d) => index < variants.len() && d@ == discriminant_at(
                variant_views(variants@),
                index as int,
            ),
            None => index >= variants.len(),
        },
{
    if index >= variants.len() {
        return None;
    }
    let ghost views = variant_views(variants@);
    let mut at: usize = index;
    while at > 0 && variants[at].discriminant.is_none()
        invariant
            at <= index < variants.len(),
            views == variant_views(variants@),
            discriminant_at(views, index as int) == (DiscriminantView {
                base: discriminant_at(views, at as int).base,
                offset: (discriminant_at(views, at as int).offset + (index - at)) as nat,
            }),
        decreases at,
    {
        at -= 1;
    }
    Some(Discriminant { base: clone_optional_text(&variants[at].discriminant), offset: index - at })
}

} // verus!
