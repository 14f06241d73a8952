//! Laws of the machine, proved of its model.

use vstd::prelude::*;
use crate::arith::{int_result, lemma_wrap_in_range, quotient, wrap};
use crate::fault::Fault;
use crate::instruction::{Instruction, Operator};
use crate::literal::Literal;
use crate::request::{Number, RequestView};
use crate::semantics::MachineView;

verus! {

/// The instruction that stands for an operator.
pub open spec fn instruction_of(op: Operator) -> Instruction {
    match op {
        Operator::Add => Instruction::Add,
        Operator::Sub => Instruction::Sub,
        Operator::Mul => Instruction::Mul,
        Operator::Div => Instruction::Div,
    }
}

/// The program that pushes two values and applies an operator to them.
pub open spec fn binary_program(op: Operator, first: Literal, second: Literal) -> Seq<Instruction> {
    seq![Instruction::Push(first), Instruction::Push(second), instruction_of(op)]
}

/// A program that pushes two integers and applies an operator to them runs
/// to its end with the exact result, brought back into 32 bits, as the only
/// value on the stack; the first integer pushed is the left-hand operand.
/// The one exception is a division by zero, which ends in that fault with an
/// empty stack. The memory stays empty.
pub proof fn lemma_integer_program(op: Operator, a: i32, b: i32)
    ensures
        ({
            let code = binary_program(op, Literal::Int(a), Literal::Int(b));
            let end = MachineView::start(code).run();
            &&& end.state.code == code
            &&& end.state.pc == 3
            &&& end.state.mem == Map::<u32, Literal>::empty()
            &&& match int_result(op, a, b) {
                Ok(v) => end.result == Ok::<Option<RequestView>, Fault>(None) && end.state.stack
                    == seq![Literal::Int(v)],
                Err(fault) => end.result == Err::<Option<RequestView>, Fault>(fault)
                    && end.state.stack == Seq::<Literal>::empty(),
            }
        }),
{
    reveal_with_fuel(MachineView::run, 4);
    let code = binary_program(op, Literal::Int(a), Literal::Int(b));
    let s0 = MachineView::start(code);
    let s1 = s0.step().state;
    let s2 = s1.step().state;
    let end = s2.step();
    match int_result(op, a, b) {
        Ok(v) => {
            assert(end.state.stack =~= seq![Literal::Int(v)]);
        },
        Err(fault) => {
            assert(end.state.stack =~= Seq::<Literal>::empty());
        },
    }
}

/// Pushing two integers and adding them leaves their sum, an integer, as the
/// only value on the stack: the exact sum where it fits in 32 bits, and the
/// sum brought back into 32 bits where it does not.
pub proof fn lemma_add_integers(a: i32, b: i32)
    ensures
        ({
            let end = MachineView::start(
                binary_program(Operator::Add, Literal::Int(a), Literal::Int(b)),
            ).run();
            &&& end.result == Ok::<Option<RequestView>, Fault>(None)
            &&& end.state.stack == seq![Literal::Int(wrap(a + b))]
            &&& i32::MIN <= a + b <= i32::MAX ==> end.state.stack == seq![
                Literal::Int((a + b) as i32),
            ]
        }),
{
    lemma_integer_program(Operator::Add, a, b);
    if i32::MIN <= a + b <= i32::MAX {
        lemma_wrap_in_range(a + b);
    }
}

/// Subtraction takes the value pushed last from the value pushed before it:
/// pushing `a`, then `b`, and subtracting leaves `a - b`, brought back into
/// 32 bits where it does not fit.
pub proof fn lemma_sub_integers(a: i32, b: i32)
    ensures
        ({
            let end = MachineView::start(
                binary_program(Operator::Sub, Literal::Int(a), Literal::Int(b)),
            ).run();
            &&& end.result == Ok::<Option<RequestView>, Fault>(None)
            &&& end.state.stack == seq![Literal::Int(wrap(a - b))]
            &&& i32::MIN <= a - b <= i32::MAX ==> end.state.stack == seq![
                Literal::Int((a - b) as i32),
            ]
        }),
{
    lemma_integer_program(Operator::Sub, a, b);
    if i32::MIN <= a - b <= i32::MAX {
        lemma_wrap_in_range(a - b);
    }
}

/// Dividing an integer by an integer other than zero leaves the quotient
/// rounded toward zero; dividing by zero is a fault.
pub proof fn lemma_div_integers(a: i32, b: i32)
    ensures
        ({
            let end = MachineView::start(
                binary_program(Operator::Div, Literal::Int(a), Literal::Int(b)),
            ).run();
            &&& b == 0 ==> end.result == Err::<Option<RequestView>, Fault>(Fault::DivisionByZero)
            &&& b != 0 ==> end.result == Ok::<Option<RequestView>, Fault>(None)
                && end.state.stack == seq![Literal::Int(wrap(quotient(a as int, b as int)))]
        }),
{
    lemma_integer_program(Operator::Div, a, b);
}

/// A program that pushes two numbers, at least one of them a float, and
/// applies an operator to them stops with a request to compute the result.
/// The request names the operator and both operands, the first one pushed on
/// the left, each in the kind it was pushed in; the stack is empty. Once the
/// host has pushed its answer and the run goes on, the program ends with
/// that answer as the only value on the stack.
///
/// So an integer and a float are handed over in either order of pushing:
/// that the sum is the same in both orders is a fact of floating-point
/// addition, which the host carries out.
pub proof fn lemma_float_program(op: Operator, lhs: Number, rhs: Number, answer: u32)
    requires
        lhs is Float || rhs is Float,
    ensures
        ({
            let code = binary_program(op, lhs.literal(), rhs.literal());
            let stop = MachineView::start(code).run();
            let resumed = stop.state.with_stack(stop.state.stack.push(Literal::Float(answer)));
            &&& stop.result == Ok::<Option<RequestView>, Fault>(
                Some(RequestView::Compute { op, lhs, rhs }),
            )
            &&& stop.state.stack == Seq::<Literal>::empty()
            &&& stop.state.pc == 3
            &&& resumed.run().result == Ok::<Option<RequestView>, Fault>(None)
            &&& resumed.run().state.stack == seq![Literal::Float(answer)]
        }),
{
    reveal_with_fuel(MachineView::run, 4);
    let code = binary_program(op, lhs.literal(), rhs.literal());
    let s0 = MachineView::start(code);
    let s1 = s0.step().state;
    let s2 = s1.step().state;
    let stop = s2.step();
    assert(stop.state.stack =~= Seq::<Literal>::empty());
    let resumed = stop.state.with_stack(stop.state.stack.push(Literal::Float(answer)));
    assert(resumed.stack =~= seq![Literal::Float(answer)]);
}

/// Storing the topmost value at an address and loading that address at once
/// brings the stored value back: the stack is again what it was, and the
/// memory holds the value at the address.
pub proof fn lemma_store_then_load(s: MachineView, addr: u32)
    requires
        s.stack.len() > 0,
    ensures
        ({
            let stored = s.dispatch(Instruction::Mstore(addr));
            let loaded = stored.state.dispatch(Instruction::Mload(addr));
            &&& stored.result == Ok::<Option<RequestView>, Fault>(None)
            &&& stored.state.stack == s.stack.drop_last()
            &&& loaded.result == Ok::<Option<RequestView>, Fault>(None)
            &&& loaded.state.stack == s.stack
            &&& loaded.state.stack.last() == s.stack.last()
            &&& loaded.state.mem == s.mem.insert(addr, s.stack.last())
        }),
{
    let stored = s.dispatch(Instruction::Mstore(addr));
    let loaded = stored.state.dispatch(Instruction::Mload(addr));
    assert(loaded.state.stack =~= s.stack);
}

/// The program that pushes a value, stores it at an address and loads that
/// address runs to its end with the value as the only one on the stack, and
/// with the value as the only one in memory, at the address.
pub proof fn lemma_store_load_program(value: Literal, addr: u32)
    ensures
        ({
            let code = seq![
                Instruction::Push(value),
                Instruction::Mstore(addr),
                Instruction::Mload(addr),
            ];
            let end = MachineView::start(code).run();
            &&& end.result == Ok::<Option<RequestView>, Fault>(None)
            &&& end.state.stack == seq![value]
            &&& end.state.mem == Map::<u32, Literal>::empty().insert(addr, value)
        }),
{
    reveal_with_fuel(MachineView::run, 4);
    let code = seq![Instruction::Push(value), Instruction::Mstore(addr), Instruction::Mload(addr)];
    let s0 = MachineView::start(code);
    let s1 = s0.step().state;
    let s2 = s1.step().state;
    let end = s2.step();
    assert(end.state.stack =~= seq![value]);
}

/// Loading an address at which the memory holds nothing is a fault, and
/// leaves the machine as it was.
pub proof fn lemma_load_unbound(s: MachineView, addr: u32)
    requires
        !s.mem.contains_key(addr),
    ensures
        s.dispatch(Instruction::Mload(addr)) == s.failed(Fault::UnboundAddress),
{
}

/// The memory holds something at an address only once a store to that
/// address has succeeded: an instruction leaves the bound addresses as they
/// were, but for a store that finds a value on the stack, which binds its
/// address.
pub proof fn lemma_bound_addresses(s: MachineView, opcode: Instruction)
    ensures
        ({
            let after = s.dispatch(opcode).state.mem.dom();
            match opcode {
                Instruction::Mstore(addr) if s.stack.len() > 0 => after == s.mem.dom().insert(addr),
                _ => after == s.mem.dom(),
            }
        }),
{
    match opcode {
        Instruction::Mstore(addr) if s.stack.len() > 0 => {
            assert(s.dispatch(opcode).state.mem.dom() =~= s.mem.dom().insert(addr));
        },
        _ => {},
    }
}

/// Displaying with nothing on the stack is a fault, and leaves the machine
/// as it was.
pub proof fn lemma_display_empty(s: MachineView)
    requires
        s.stack.len() == 0,
    ensures
        s.dispatch(Instruction::Display) == s.failed(Fault::StackUnderflow),
{
}

/// A machine that comes to load an address at which its memory holds
/// nothing stops there with that fault: the program counter has moved past
/// the load, and the stack and the memory are as they were.
pub proof fn lemma_run_stops_at_unbound_load(s: MachineView, addr: u32)
    requires
        !s.halted(),
        s.code[s.pc as int] == Instruction::Mload(addr),
        !s.mem.contains_key(addr),
    ensures
        s.run() == s.advanced().failed(Fault::UnboundAddress),
{
}

/// A machine that comes to display a value with nothing on its stack stops
/// there with that fault: the program counter has moved past the display,
/// and the stack and the memory are as they were.
pub proof fn lemma_run_stops_at_empty_display(s: MachineView)
    requires
        !s.halted(),
        s.code[s.pc as int] == Instruction::Display,
        s.stack.len() == 0,
    ensures
        s.run() == s.advanced().failed(Fault::StackUnderflow),
{
}

/// Whether the program holds a store to the address at an index from `from`
/// up to, and not including, `to`.
pub open spec fn stores_between(code: Seq<Instruction>, from: int, to: int, addr: u32) -> bool {
    exists|i: int| from <= i < to && i < code.len() && #[trigger] code[i] == Instruction::Mstore(addr)
}

/// A run never changes the program and never moves the program counter
/// back. A run that ends with nothing left to do has moved the counter past
/// the end of the program: there is no other way for a program to finish. A
/// run that ends otherwise has stopped right after the instruction that
/// asked or failed.
pub proof fn lemma_run_end(s: MachineView)
    ensures
        s.run().state.code == s.code,
        s.run().state.pc >= s.pc,
        s.run().result == Ok::<Option<RequestView>, Fault>(None) ==> s.run().state.halted(),
        s.run().result != Ok::<Option<RequestView>, Fault>(None) ==> s.pc < s.run().state.pc
            <= s.code.len(),
        s.halted() ==> s.run() == s.done(),
    decreases s.code.len() - s.pc,
{
    if !s.halted() {
        let next = s.step();
        if next.result == Ok::<Option<RequestView>, Fault>(None) {
            lemma_run_end(next.state);
        }
    }
}

/// An address that is bound after a run was bound before it, or the run has
/// passed a store to it.
pub proof fn lemma_run_binds_by_store(s: MachineView, addr: u32)
    ensures
        s.run().state.mem.contains_key(addr) ==> s.mem.contains_key(addr) || stores_between(
            s.code,
            s.pc as int,
            s.run().state.pc as int,
            addr,
        ),
    decreases s.code.len() - s.pc,
{
    if !s.halted() {
        let opcode = s.code[s.pc as int];
        let next = s.step();
        lemma_bound_addresses(s.advanced(), opcode);
        if next.result == Ok::<Option<RequestView>, Fault>(None) {
            lemma_run_binds_by_store(next.state, addr);
            lemma_run_end(next.state);
            if next.state.mem.contains_key(addr) && !s.mem.contains_key(addr) {
                assert(s.code[s.pc as int] == Instruction::Mstore(addr));
            }
        }
    }
}

} // verus!
