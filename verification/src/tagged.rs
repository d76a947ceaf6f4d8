use vstd::prelude::*;

verus! {

/// Binding between an enum and its data-less companion.
///
/// Implemented by the code that the derivation emits: `Tag` is the companion
/// type and `tag` names the variant that a value was built from.
pub trait TaggedEnum {
    type Tag;

    fn tag(&self) -> Self::Tag;
}

} // verus!
