//! Small extensions of the standard library.

pub mod range;
