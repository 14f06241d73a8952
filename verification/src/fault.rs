//! The ways in which an execution fails.

use vstd::prelude::*;

verus! {

/// The conditions that end an execution. None of them is recoverable: a
/// program that raises one is malformed.
#[derive(Clone, Copy, Debug, PartialEq, Eq)]
pub enum Fault {
    /// An operand was popped from an empty stack.
    StackUnderflow,
    /// Arithmetic met an operand of the text kind.
    TypeMismatch,
    /// An integer was divided by the integer zero.
    DivisionByZero,
    /// An address was loaded that no instruction had stored to.
    UnboundAddress,
}

} // verus!
