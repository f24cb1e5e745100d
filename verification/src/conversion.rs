//! Tools for converting to colors. Conversions may lose color precision.
//!
//! The library only ever converts downwards, to a lower level than the
//! color's own.
use crate::colors::{EightBit, Simple};
use vstd::prelude::*;

verus! {

/// Trait to mark that a value can be converted to simple colors.
pub trait ToSimple {
    /// The simple color that this value converts to.
    spec fn spec_to_simple(&self) -> Simple;

    /// Converts to a simple color.
    fn to_simple(&self) -> (simple: Simple)
        ensures
            simple == self.spec_to_simple(),
    ;
}

/// Trait to mark that a value can be converted to eight-bit colors.
pub trait ToEightBit {
    /// The eight-bit color that this value converts to.
    spec fn spec_to_eight_bit(&self) -> EightBit;

    /// Converts to an eight-bit color.
    fn to_eight_bit(&self) -> (eight_bit: EightBit)
        ensures
            eight_bit == self.spec_to_eight_bit(),
    ;
}

} // verus!
