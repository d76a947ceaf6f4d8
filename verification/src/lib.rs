//! Derivation of data-less companion enums.
//!
//! Given the description of an enum, the library assembles a second enum with
//! the same variant names and discriminants but without any fields, together
//! with an implementation of [`TaggedEnum`] that maps every value of the
//! described enum to the matching variant of the companion.

pub mod assemble;
pub mod descriptor;
pub mod dispatch;
pub mod extract;
pub mod generate;
pub mod laws;
pub mod numbering;
pub mod project;
pub mod render;
pub mod tagged;

pub use crate::generate::generate_tokens;
pub use crate::tagged::TaggedEnum;
