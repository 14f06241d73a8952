//! A minimal stack-based bytecode machine with verified execution semantics.
//!
//! A program is a fixed sequence of [`Instruction`]s. A [`Machine`] runs it
//! front to back against an operand stack and an address-keyed memory; there
//! are no jumps, so every run ends. Stack and memory effects, integer
//! arithmetic and the rendering of integers and text are carried out here.
//! Floating-point arithmetic and the output sink belong to the host: floats
//! are carried as bit patterns, and whenever an instruction needs one of the
//! two, [`Machine::execute`] stops with a [`Request`] that the host serves
//! before it calls `execute` again.
//!
//! What the machine does is defined on [`MachineView`], a mathematical
//! model of its state; the executable functions are proved to follow it.

pub mod arith;
pub mod fault;
pub mod instruction;
pub mod laws;
pub mod literal;
pub mod machine;
pub mod request;
pub mod semantics;
pub mod text;

pub use fault::Fault;
pub use instruction::{Instruction, Operator};
pub use literal::Literal;
pub use machine::Machine;
pub use request::{Number, Request, RequestView};
pub use semantics::{MachineView, Outcome};
