//! What the machine asks of its host: output, and arithmetic on floats.

use vstd::prelude::*;
use crate::fault::Fault;
use crate::instruction::Operator;
use crate::literal::Literal;

verus! {

/// An operand of floating-point arithmetic, in the kind it had on the stack.
/// An integer operand is widened to a float by whoever computes with it.
#[derive(Clone, Copy, Debug, PartialEq, Eq)]
pub enum Number {
    /// A 32-bit signed integer.
    Int(i32),
    /// A single-precision float, by its IEEE 754 bit pattern.
    Float(u32),
}

impl Number {
    /// The value that stands on the stack for this operand.
    pub open spec fn literal(self) -> Literal {
        match self {
            Number::Int(x) => Literal::Int(x),
            Number::Float(bits) => Literal::Float(bits),
        }
    }
}

/// Work that an instruction leaves to the host of the machine.
#[derive(Debug, PartialEq, Eq)]
pub enum Request {
    /// Append the text to the output sink as it stands, and flush the sink.
    Write(String),
    /// Render the float with this bit pattern, append the rendering to the
    /// output sink, and flush the sink.
    WriteFloat(u32),
    /// Compute `lhs op rhs` in single-precision floating point, each integer
    /// operand widened to a float first, and push the result, a float, onto
    /// the machine's stack. At least one of the two operands is a float.
    Compute { op: Operator, lhs: Number, rhs: Number },
}

/// A request with its text as a sequence of characters.
pub enum RequestView {
    Write(Seq<char>),
    WriteFloat(u32),
    Compute { op: Operator, lhs: Number, rhs: Number },
}

impl View for Request {
    type V = RequestView;

    open spec fn view(&self) -> RequestView {
        match *self {
            Request::Write(text) => RequestView::Write(text@),
            Request::WriteFloat(bits) => RequestView::WriteFloat(bits),
            Request::Compute { op, lhs, rhs } => RequestView::Compute { op, lhs, rhs },
        }
    }
}

/// How an instruction, or a run of them, ends: with nothing left to do, with
/// a request to the host, or with a fault.
pub open spec fn signal_view(signal: Result<Option<Request>, Fault>) -> Result<
    Option<RequestView>,
    Fault,
> {
    match signal {
        Ok(Some(request)) => Ok(Some(request@)),
        Ok(None) => Ok(None),
        Err(fault) => Err(fault),
    }
}

} // verus!
