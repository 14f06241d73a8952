//! The instruction set.

use vstd::prelude::*;
use crate::literal::Literal;

verus! {

/// One executable unit of a program. Operands that are not carried here are
/// taken from the stack.
#[derive(Clone, Copy, Debug, PartialEq, Eq)]
pub enum Instruction {
    /// Replace the two topmost values by their sum.
    Add,
    /// Replace the two topmost values by their difference.
    Sub,
    /// Replace the two topmost values by their product.
    Mul,
    /// Replace the two topmost values by their quotient.
    Div,
    /// Place the literal on top of the stack.
    Push(Literal),
    /// Remove the topmost value and send it to the output sink.
    Display,
    /// Remove the topmost value and keep it in memory at the address.
    Mstore(u32),
    /// Place a copy of the value kept at the address on top of the stack.
    Mload(u32),
}

/// The four binary arithmetic operations.
#[derive(Clone, Copy, Debug, PartialEq, Eq)]
pub enum Operator {
    Add,
    Sub,
    Mul,
    Div,
}

} // verus!
