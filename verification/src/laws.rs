//! What holds of every derivation.

use vstd::prelude::*;
use crate::assemble::{tag_impl_of, tag_type_of};
use crate::descriptor::{EnumView, TypeDeclView};
use crate::dispatch::{first_match, lemma_first_match_stays};
use crate::extract::{decl_keyword_span, inapplicable_message};
use crate::generate::generated;
use crate::numbering::discriminant_at;
use crate::render::tag_type_text;

verus! {

/// The tag enum mirrors the described enum variant by variant: as many
/// variants, in the same order, each with the name and the explicit
/// discriminant of the variant it stands for, and without fields. So every
/// variant of the tag enum gets the discriminant of the variant it stands
/// for, explicit or counted.
pub proof fn lemma_discriminants_preserved(desc: EnumView, index: int)
    requires
        0 <= index < desc.variants.len(),
    ensures
        tag_type_of(desc).variants.len() == desc.variants.len(),
        tag_type_of(desc).variants[index].name == desc.variants[index].name,
        tag_type_of(desc).variants[index].fields is Unit,
        tag_type_of(desc).variants[index].discriminant == desc.variants[index].discriminant,
        discriminant_at(tag_type_of(desc).variants, index) == discriminant_at(
            desc.variants,
            index,
        ),
    decreases index,
{
    if index > 0 {
        lemma_discriminants_preserved(desc, index - 1);
    }
}

/// Of an enum whose variants all are data-less, the tag enum has the very
/// same variants, and so the same discriminants in the same order.
pub proof fn lemma_data_less_enum_unchanged(desc: EnumView)
    requires
        desc.data_less(),
    ensures
        tag_type_of(desc).variants == desc.variants,
        forall|index: int|
            0 <= index < desc.variants.len() ==> discriminant_at(
                tag_type_of(desc).variants,
                index,
            ) == discriminant_at(desc.variants, index),
{
    assert(tag_type_of(desc).variants =~= desc.variants);
}

/// A value built from a variant, whatever the shape of the variant and
/// whatever its fields hold, is dispatched to the arm of that variant, and
/// the arm evaluates to the variant of the tag enum that stands at the same
/// place and has the same name. The match has one arm for each variant, so it
/// leaves no value out.
pub proof fn lemma_tag_of_variant(desc: EnumView, index: int)
    requires
        desc.well_formed(),
        0 <= index < desc.variants.len(),
    ensures
        tag_impl_of(desc).arms.len() == desc.variants.len(),
        first_match(tag_impl_of(desc).arms, desc.variants[index]) == Some(index),
        tag_impl_of(desc).arms[index].tag == tag_type_of(desc).variants[index].name,
        tag_impl_of(desc).arms[index].tag == desc.variants[index].name,
{
    let arms = tag_impl_of(desc).arms;
    let v = desc.variants[index];
    lemma_no_earlier_match(desc, index, index);
    assert(arms.take(index + 1).drop_last() =~= arms.take(index));
    lemma_first_match_stays(arms, v, index + 1);
}

/// None of the arms before that of a variant matches the values built from
/// the variant.
proof fn lemma_no_earlier_match(desc: EnumView, index: int, n: int)
    requires
        desc.well_formed(),
        0 <= n <= index < desc.variants.len(),
    ensures
        first_match(tag_impl_of(desc).arms.take(n), desc.variants[index]) is None,
    decreases n,
{
    let arms = tag_impl_of(desc).arms;
    if n > 0 {
        lemma_no_earlier_match(desc, index, n - 1);
        assert(arms.take(n).drop_last() =~= arms.take(n - 1));
        assert(arms.take(n).last().pattern.variant() == desc.variants[n - 1].name);
    }
}

/// The implementation of `TaggedEnum` is for the described enum applied to
/// its own parameters: it declares each parameter as the enum does, bounds
/// included, and hands the target each parameter by its name alone, in the
/// declared order. The where-clause is carried over as it stands.
pub proof fn lemma_impl_for_own_parameters(desc: EnumView)
    ensures
        tag_impl_of(desc).target == desc.name,
        tag_impl_of(desc).parameters == desc.generics,
        tag_impl_of(desc).arguments.len() == desc.generics.len(),
        forall|index: int|
            0 <= index < desc.generics.len() ==> tag_impl_of(desc).arguments[index]
                == desc.generics[index].name(),
        tag_impl_of(desc).where_clause == desc.where_clause,
{
}

/// The tag enum does not depend on the generic parameters or the
/// where-clause of the described enum: two enums that differ in nothing else
/// have the same tag enum, declared by the same text.
pub proof fn lemma_tag_type_not_generic(a: EnumView, b: EnumView)
    requires
        a.name == b.name,
        a.visibility == b.visibility,
        a.variants == b.variants,
    ensures
        tag_type_of(a) == tag_type_of(b),
        tag_type_text(tag_type_of(a)) == tag_type_text(tag_type_of(b)),
{
}

/// The derivation succeeds on enums and on nothing else. On a struct or a
/// union it yields the one diagnostic, which carries the fixed message and
/// is anchored at the keyword of the declaration.
pub proof fn lemma_only_enums_derive(input: TypeDeclView)
    ensures
        generated(input) is Ok <==> input.data is Enum,
        generated(input) matches Err(diag) ==> diag.message == inapplicable_message()
            && diag.span == decl_keyword_span(input.data),
{
}

} // verus!
