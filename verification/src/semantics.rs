//! The mathematical model of the machine: its state, the effect of each
//! instruction, and the run of a program.

use vstd::prelude::*;
use crate::arith::int_result;
use crate::fault::Fault;
use crate::instruction::{Instruction, Operator};
use crate::literal::Literal;
use crate::request::{Number, RequestView};
use crate::text::decimal;

verus! {

/// The state of a machine: the operand stack with its top last, the program,
/// the index of the next instruction, and the memory.
pub struct MachineView {
    pub stack: Seq<Literal>,
    pub code: Seq<Instruction>,
    pub pc: nat,
    pub mem: Map<u32, Literal>,
}

/// A state together with the way it was reached: `Ok(None)` with nothing
/// left to do, `Ok(Some(..))` with a request to the host, `Err(..)` with a
/// fault.
pub struct Outcome {
    pub state: MachineView,
    pub result: Result<Option<RequestView>, Fault>,
}

/// What the output sink is asked to do with a displayed value: integers go
/// out in decimal, text verbatim, and a float is left to the host to render.
pub open spec fn rendering(value: Literal) -> RequestView {
    match value {
        Literal::Int(x) => RequestView::Write(decimal(x as int)),
        Literal::Float(bits) => RequestView::WriteFloat(bits),
        Literal::Str(text) => RequestView::Write(text@),
    }
}

impl MachineView {
    /// The state in which a machine starts on a program.
    pub open spec fn start(code: Seq<Instruction>) -> MachineView {
        MachineView { stack: Seq::empty(), code, pc: 0, mem: Map::empty() }
    }

    /// Whether the program counter has run past the end of the program.
    pub open spec fn halted(self) -> bool {
        self.pc >= self.code.len()
    }

    /// This state with another stack.
    pub open spec fn with_stack(self, stack: Seq<Literal>) -> MachineView {
        MachineView { stack, ..self }
    }

    /// This state after a step that needs nothing from the host.
    pub open spec fn done(self) -> Outcome {
        Outcome { state: self, result: Ok(None) }
    }

    /// This state after a step that ends in a request to the host.
    pub open spec fn asking(self, request: RequestView) -> Outcome {
        Outcome { state: self, result: Ok(Some(request)) }
    }

    /// This state after a step that ends in a fault.
    pub open spec fn failed(self, fault: Fault) -> Outcome {
        Outcome { state: self, result: Err(fault) }
    }

    /// Binary arithmetic. The topmost value is the right-hand operand and the
    /// one below it the left-hand operand. Two integers are combined here;
    /// with a float among them the operands go to the host, each in its own
    /// position. Both operands are gone from the stack in any case; with
    /// fewer than two values on it, the stack is left empty.
    pub open spec fn arithmetic(self, op: Operator) -> Outcome {
        let n = self.stack.len() as int;
        if n < 2 {
            self.with_stack(Seq::empty()).failed(Fault::StackUnderflow)
        } else {
            let rest = self.with_stack(self.stack.take(n - 2));
            match (self.stack[n - 2], self.stack[n - 1]) {
                (Literal::Int(x), Literal::Int(y)) => match int_result(op, x, y) {
                    Ok(v) => rest.with_stack(rest.stack.push(Literal::Int(v))).done(),
                    Err(fault) => rest.failed(fault),
                },
                (Literal::Int(x), Literal::Float(y)) => rest.asking(
                    RequestView::Compute { op, lhs: Number::Int(x), rhs: Number::Float(y) },
                ),
                (Literal::Float(x), Literal::Int(y)) => rest.asking(
                    RequestView::Compute { op, lhs: Number::Float(x), rhs: Number::Int(y) },
                ),
                (Literal::Float(x), Literal::Float(y)) => rest.asking(
                    RequestView::Compute { op, lhs: Number::Float(x), rhs: Number::Float(y) },
                ),
                _ => rest.failed(Fault::TypeMismatch),
            }
        }
    }

    /// The effect of one instruction on the stack and the memory. The
    /// program and the program counter stay as they are.
    pub open spec fn dispatch(self, opcode: Instruction) -> Outcome {
        match opcode {
            Instruction::Push(value) => self.with_stack(self.stack.push(value)).done(),
            Instruction::Add => self.arithmetic(Operator::Add),
            Instruction::Sub => self.arithmetic(Operator::Sub),
            Instruction::Mul => self.arithmetic(Operator::Mul),
            Instruction::Div => self.arithmetic(Operator::Div),
            Instruction::Display => if self.stack.len() == 0 {
                self.failed(Fault::StackUnderflow)
            } else {
                self.with_stack(self.stack.drop_last()).asking(rendering(self.stack.last()))
            },
            Instruction::Mstore(addr) => if self.stack.len() == 0 {
                self.failed(Fault::StackUnderflow)
            } else {
                MachineView {
                    stack: self.stack.drop_last(),
                    mem: self.mem.insert(addr, self.stack.last()),
                    ..self
                }.done()
            },
            Instruction::Mload(addr) => if self.mem.contains_key(addr) {
                self.with_stack(self.stack.push(self.mem[addr])).done()
            } else {
                self.failed(Fault::UnboundAddress)
            },
        }
    }

    /// This state with the program counter moved past the instruction it
    /// points to.
    pub open spec fn advanced(self) -> MachineView {
        MachineView { pc: self.pc + 1, ..self }
    }

    /// Fetching the instruction at the program counter, moving the counter
    /// past it, and carrying the instruction out.
    pub open spec fn step(self) -> Outcome
        recommends
            !self.halted(),
    {
        self.advanced().dispatch(self.code[self.pc as int])
    }

    /// Stepping until the program counter runs past the end of the program,
    /// or until a step ends in a request or a fault.
    pub open spec fn run(self) -> Outcome
        decreases self.code.len() - self.pc,
    {
        if self.halted() {
            self.done()
        } else {
            let next = self.step();
            if next.result == Ok::<Option<RequestView>, Fault>(None) {
                next.state.run()
            } else {
                next
            }
        }
    }
}

} // verus!
