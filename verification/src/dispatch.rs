//! What the emitted match does with a value.
//!
//! The patterns bind nothing, so all that a match sees of a value is the
//! variant that it was built from.

use vstd::prelude::*;
use crate::assemble::arm_views;
use crate::descriptor::{texts, variant_views, FieldShape, VariantDescriptor, VariantView};
use crate::project::{ArmPattern, ArmPatternView, DispatchArm, DispatchArmView};

verus! {

/// Whether the pattern matches the values built from the variant: it names
/// the variant and ignores each of its fields.
pub open spec fn covers(p: ArmPatternView, v: VariantView) -> bool {
    p.variant() == v.name && p.shape() == v.fields
}

/// The first arm, by its index, whose pattern matches the values built from
/// the variant.
pub open spec fn first_match(arms: Seq<DispatchArmView>, v: VariantView) -> Option<int>
    decreases arms.len(),
{
    if arms.len() == 0 {
        None
    } else {
        match first_match(arms.drop_last(), v) {
            Some(i) => Some(i),
            None => if covers(arms.last().pattern, v) {
                Some(arms.len() - 1)
            } else {
                None
            },
        }
    }
}

/// Whether two lists hold the same texts in the same order.
pub fn same_texts(a: &Vec<String>, b: &Vec<String>) -> (same: bool)
    ensures
        same == (texts(a@) == texts(b@)),
{
    if a.len() != b.len() {
        assert(texts(a@).len() != texts(b@).len());
        return false;
    }
    let mut i: usize = 0;
    while i < a.len()
        invariant
            i <= a.len(),
            a.len() == b.len(),
            forall|j: int| 0 <= j < i ==> (#[trigger] a[j])@ == b[j]@,
        decreases a.len() - i,
    {
        if a[i] != b[i] {
            assert(texts(a@)[i as int] != texts(b@)[i as int]);
            return false;
        }
        i += 1;
    }
    assert(texts(a@) =~= texts(b@));
    true
}

/// Whether the pattern matches the values built from the variant.
pub fn pattern_covers(p: &ArmPattern, v: &VariantDescriptor) -> (hit: bool)
    ensures
        hit == covers(p@, v@),
{
    match p {
        ArmPattern::Bare { variant } => match &v.fields {
            FieldShape::Unit => *variant == v.name,
            _ => false,
        },
        ArmPattern::Positional { variant, ignored } => match &v.fields {
            FieldShape::Tuple(n) => *variant == v.name && *ignored == *n,
            _ => false,
        },
        ArmPattern::Keyed { variant, keys } => match &v.fields {
            FieldShape::Named(names) => *variant == v.name && same_texts(keys, names),
            _ => false,
        },
    }
}

/// The arm that a value built from the variant is dispatched to: the first
/// one whose pattern matches, by its index, or `None` if no arm does.
pub fn dispatch(arms: &Vec<DispatchArm>, v: &VariantDescriptor) -> (hit: Option<usize>)
    ensures
        match hit {
            Some(i) => first_match(arm_views(arms@), v@) == Some(i as int),
            None => first_match(arm_views(arms@), v@) is None,
        },
{
    let ghost views = arm_views(arms@);
    let mut i: usize = 0;
    while i < arms.len()
        invariant
            i <= arms.len(),
            views == arm_views(arms@),
            first_match(views.take(i as int), v@) is None,
        decreases arms.len() - i,
    {
        proof {
            assert(views.take(i + 1).drop_last() =~= views.take(i as int));
        }
        if pattern_covers(&arms[i].pattern, v) {
            proof {
                lemma_first_match_stays(views, v@, i + 1);
            }
            return Some(i);
        }
        i += 1;
    }
    assert(views.take(arms.len() as int) =~= views);
    None
}

/// A match that is found among the first `n` arms is the match among all of
/// them.
pub proof fn lemma_first_match_stays(arms: Seq<DispatchArmView>, v: VariantView, n: int)
    requires
        0 <= n <= arms.len(),
        first_match(arms.take(n), v) is Some,
    ensures
        first_match(arms, v) == first_match(arms.take(n), v),
    decreases arms.len() - n,
{
    if n == arms.len() {
        assert(arms.take(n) =~= arms);
    } else {
        assert(arms.take(n + 1).drop_last() =~= arms.take(n));
        lemma_first_match_stays(arms, v, n + 1);
    }
}

} // verus!
