//! The machine itself: its state and the functions that run a program.

use std::collections::HashMap;
use vstd::prelude::*;
use crate::arith::int_op;
use crate::fault::Fault;
use crate::instruction::{Instruction, Operator};
use crate::literal::Literal;
use crate::request::{signal_view, Number, Request};
use crate::semantics::MachineView;
use crate::text::decimal_text;

verus! {

broadcast use vstd::std_specs::hash::group_hash_axioms;

/// A machine: an operand stack, a program, a program counter and a memory.
pub struct Machine {
    stack: Vec<Literal>,
    code: Vec<Instruction>,
    pc: usize,
    mem: HashMap<u32, Literal>,
}

impl View for Machine {
    type V = MachineView;

    closed spec fn view(&self) -> MachineView {
        MachineView { stack: self.stack@, code: self.code@, pc: self.pc as nat, mem: self.mem@ }
    }
}

impl Machine {
    /// A machine at the start of the program, with an empty stack and an
    /// empty memory. The program is not examined.
    pub fn new(code: Vec<Instruction>) -> (machine: Machine)
        ensures
            machine@ == MachineView::start(code@),
    {
        Machine { stack: Vec::new(), code, pc: 0, mem: HashMap::new() }
    }

    /// The operand stack, with its top last.
    pub fn stack(&self) -> (stack: &[Literal])
        ensures
            stack@ == self@.stack,
    {
        self.stack.as_slice()
    }

    /// The index of the next instruction.
    pub fn pc(&self) -> (pc: usize)
        ensures
            pc == self@.pc,
    {
        self.pc
    }

    /// Whether the program counter has run past the end of the program.
    pub fn halted(&self) -> (halted: bool)
        ensures
            halted == self@.halted(),
    {
        self.pc >= self.code.len()
    }

    /// Places a value on top of the stack.
    pub fn push(&mut self, x: Literal)
        ensures
            final(self)@ == old(self)@.with_stack(old(self)@.stack.push(x)),
    {
        self.stack.push(x);
    }

    /// Takes the topmost value off the stack, or reports that there is none.
    pub fn pop(&mut self) -> (top: Result<Literal, Fault>)
        ensures
            old(self)@.stack.len() == 0 ==> top == Err::<Literal, Fault>(Fault::StackUnderflow)
                && final(self)@ == old(self)@,
            old(self)@.stack.len() > 0 ==> top == Ok::<Literal, Fault>(old(self)@.stack.last())
                && final(self)@ == old(self)@.with_stack(old(self)@.stack.drop_last()),
    {
        match self.stack.pop() {
            Some(value) => Ok(value),
            None => Err(Fault::StackUnderflow),
        }
    }

    /// Keeps a value in memory at an address, in place of what was there.
    pub fn mem_store(&mut self, addr: u32, value: Literal)
        ensures
            final(self)@ == (MachineView { mem: old(self)@.mem.insert(addr, value), ..old(self)@ }),
    {
        self.mem.insert(addr, value);
    }

    /// The value kept in memory at an address, if one was stored there.
    pub fn mem_load(&mut self, addr: &u32) -> (value: Option<&Literal>)
        ensures
            final(self)@ == old(self)@,
            match value {
                Some(found) => old(self)@.mem.contains_key(*addr) && *found == old(self)@.mem[*addr],
                None => !old(self)@.mem.contains_key(*addr),
            },
    {
        self.mem.get(addr)
    }

    /// Carries out binary arithmetic on the two topmost values.
    fn arithmetic(&mut self, op: Operator) -> (signal: Result<Option<Request>, Fault>)
        ensures
            final(self)@ == old(self)@.arithmetic(op).state,
            signal_view(signal) == old(self)@.arithmetic(op).result,
    {
        let rhs = self.pop();
        let lhs = self.pop();
        let (lhs, rhs) = match (lhs, rhs) {
            (Ok(lhs), Ok(rhs)) => (lhs, rhs),
            _ => {
                assert(self@.stack =~= Seq::empty());
                return Err(Fault::StackUnderflow);
            },
        };
        assert(self@.stack =~= old(self)@.stack.take(old(self)@.stack.len() - 2));
        match (lhs, rhs) {
            (Literal::Int(x), Literal::Int(y)) => {
                let v = int_op(op, x, y)?;
                self.push(Literal::Int(v));
                Ok(None)
            },
            (Literal::Int(x), Literal::Float(y)) => Ok(
                Some(Request::Compute { op, lhs: Number::Int(x), rhs: Number::Float(y) }),
            ),
            (Literal::Float(x), Literal::Int(y)) => Ok(
                Some(Request::Compute { op, lhs: Number::Float(x), rhs: Number::Int(y) }),
            ),
            (Literal::Float(x), Literal::Float(y)) => Ok(
                Some(Request::Compute { op, lhs: Number::Float(x), rhs: Number::Float(y) }),
            ),
            _ => Err(Fault::TypeMismatch),
        }
    }

    /// Carries out one instruction: on the stack and the memory where it can,
    /// and by a request to the host for output and for floating-point
    /// arithmetic.
    pub fn dispatch(&mut self, opcode: Instruction) -> (signal: Result<Option<Request>, Fault>)
        ensures
            final(self)@ == old(self)@.dispatch(opcode).state,
            signal_view(signal) == old(self)@.dispatch(opcode).result,
    {
        match opcode {
            Instruction::Push(lit) => {
                self.push(lit);
                Ok(None)
            },
            Instruction::Add => self.arithmetic(Operator::Add),
            Instruction::Sub => self.arithmetic(Operator::Sub),
            Instruction::Mul => self.arithmetic(Operator::Mul),
            Instruction::Div => self.arithmetic(Operator::Div),
            Instruction::Display => {
                match self.pop()? {
                    Literal::Int(x) => Ok(Some(Request::Write(decimal_text(x)))),
                    Literal::Float(x) => Ok(Some(Request::WriteFloat(x))),
                    Literal::Str(x) => Ok(Some(Request::Write(x.to_owned()))),
                }
            },
            Instruction::Mstore(addr) => {
                let value = self.pop()?;
                self.mem_store(addr, value);
                Ok(None)
            },
            Instruction::Mload(addr) => {
                match self.mem_load(&addr) {
                    Some(found) => {
                        let value = *found;
                        self.push(value);
                        Ok(None)
                    },
                    None => Err(Fault::UnboundAddress),
                }
            },
        }
    }

    /// Runs the program from the program counter on: fetches the instruction
    /// there, moves the counter past it and carries the instruction out,
    /// until the counter has run past the end of the program, or until an
    /// instruction ends in a request or a fault.
    ///
    /// `Ok(None)` says that the program has run to its end. After a request
    /// the host does what is asked and calls `execute` again to go on.
    pub fn execute(&mut self) -> (signal: Result<Option<Request>, Fault>)
        ensures
            final(self)@ == old(self)@.run().state,
            signal_view(signal) == old(self)@.run().result,
            signal matches Ok(None) ==> final(self)@.halted(),
    {
        while self.pc < self.code.len()
            invariant
                self@.run() == old(self)@.run(),
            decreases self.code.len() - self.pc,
        {
            let opcode = self.code[self.pc];
            self.pc += 1;
            let signal = self.dispatch(opcode);
            match signal {
                Ok(None) => {},
                _ => {
                    return signal;
                },
            }
        }
        Ok(None)
    }
}

} // verus!
