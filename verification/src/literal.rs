//! The values that the machine holds.

use vstd::prelude::*;

verus! {

/// A value that the machine can hold: a small scalar with no identity beyond
/// its content.
#[derive(Clone, Copy, Debug, PartialEq, Eq)]
pub enum Literal {
    /// A 32-bit signed integer.
    Int(i32),
    /// A single-precision floating-point number, held as its IEEE 754 bit
    /// pattern. The machine moves such a value around and never looks into it.
    Float(u32),
    /// Immutable text that outlives the machine.
    Str(&'static str),
}

} // verus!
