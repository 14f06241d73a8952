use stack_vm::{Fault, Instruction, Literal, Machine, Number, Operator, Request};

fn float(value: f32) -> Literal {
    Literal::Float(value.to_bits())
}

fn widen(operand: Number) -> f32 {
    match operand {
        Number::Int(x) => x as f32,
        Number::Float(bits) => f32::from_bits(bits),
    }
}

fn compute(op: Operator, lhs: Number, rhs: Number) -> u32 {
    let (lhs, rhs) = (widen(lhs), widen(rhs));
    let result = match op {
        Operator::Add => lhs + rhs,
        Operator::Sub => lhs - rhs,
        Operator::Mul => lhs * rhs,
        Operator::Div => lhs / rhs,
    };
    result.to_bits()
}

fn run(code: Vec<Instruction>) -> (Machine, String, Result<(), Fault>) {
    let mut machine = Machine::new(code);
    let mut output = String::new();
    loop {
        match machine.execute() {
            Ok(None) => return (machine, output, Ok(())),
            Ok(Some(Request::Write(text))) => output.push_str(&text),
            Ok(Some(Request::WriteFloat(bits))) => {
                output.push_str(&format!("{:?}", f32::from_bits(bits)))
            }
            Ok(Some(Request::Compute { op, lhs, rhs })) => {
                machine.push(Literal::Float(compute(op, lhs, rhs)))
            }
            Err(fault) => return (machine, output, Err(fault)),
        }
    }
}

fn top_float(machine: &Machine) -> f32 {
    match machine.stack().last() {
        Some(&Literal::Float(bits)) => f32::from_bits(bits),
        other => panic!("expected a float on top, found {:?}", other),
    }
}

#[test]
fn add_integer_and_float_gives_float() {
    let (machine, _, result) = run(vec![
        Instruction::Push(Literal::Int(2)),
        Instruction::Push(float(1.0)),
        Instruction::Add,
    ]);
    assert_eq!(result, Ok(()));
    assert_eq!(machine.stack(), &[float(3.0)]);
}

#[test]
fn mixed_add_is_the_same_in_either_order() {
    let ints = [-1_000_000, -3, 0, 1, 2, 16_777_217, i32::MAX, i32::MIN];
    let floats = [-2.5f32, -0.0, 0.0, 0.1, 1.0, 1.0e10, 3.4e38, f32::INFINITY];
    for &i in ints.iter() {
        for &f in floats.iter() {
            let (int_first, _, first_result) = run(vec![
                Instruction::Push(Literal::Int(i)),
                Instruction::Push(float(f)),
                Instruction::Add,
            ]);
            let (float_first, _, second_result) = run(vec![
                Instruction::Push(float(f)),
                Instruction::Push(Literal::Int(i)),
                Instruction::Add,
            ]);
            assert_eq!(first_result, Ok(()));
            assert_eq!(second_result, Ok(()));
            assert_eq!(int_first.stack().len(), 1);
            assert_eq!(float_first.stack().len(), 1);
            assert_eq!(top_float(&int_first), f + i as f32);
            assert_eq!(top_float(&float_first), f + i as f32);
            assert_eq!(int_first.stack(), float_first.stack());
        }
    }
}

#[test]
fn add_two_floats() {
    let (machine, _, result) = run(vec![
        Instruction::Push(float(0.5)),
        Instruction::Push(float(0.25)),
        Instruction::Add,
    ]);
    assert_eq!(result, Ok(()));
    assert_eq!(machine.stack(), &[float(0.75)]);
}

#[test]
fn float_sub_is_second_popped_minus_first_popped() {
    let (machine, _, _) = run(vec![
        Instruction::Push(float(5.0)),
        Instruction::Push(Literal::Int(3)),
        Instruction::Sub,
    ]);
    assert_eq!(machine.stack(), &[float(2.0)]);
    let (machine, _, _) = run(vec![
        Instruction::Push(Literal::Int(3)),
        Instruction::Push(float(5.0)),
        Instruction::Sub,
    ]);
    assert_eq!(machine.stack(), &[float(-2.0)]);
}

#[test]
fn float_mul() {
    let (machine, _, _) = run(vec![
        Instruction::Push(float(1.5)),
        Instruction::Push(Literal::Int(-4)),
        Instruction::Mul,
    ]);
    assert_eq!(machine.stack(), &[float(-6.0)]);
}

#[test]
fn float_div_does_not_truncate() {
    let (machine, _, _) = run(vec![
        Instruction::Push(Literal::Int(7)),
        Instruction::Push(float(2.0)),
        Instruction::Div,
    ]);
    assert_eq!(machine.stack(), &[float(3.5)]);
    let (machine, _, _) = run(vec![
        Instruction::Push(float(1.0)),
        Instruction::Push(Literal::Int(4)),
        Instruction::Div,
    ]);
    assert_eq!(machine.stack(), &[float(0.25)]);
}

#[test]
fn float_div_by_zero_is_infinite() {
    let (machine, _, result) = run(vec![
        Instruction::Push(float(1.0)),
        Instruction::Push(Literal::Int(0)),
        Instruction::Div,
    ]);
    assert_eq!(result, Ok(()));
    assert_eq!(machine.stack(), &[float(f32::INFINITY)]);
    let (machine, _, result) = run(vec![
        Instruction::Push(Literal::Int(0)),
        Instruction::Push(float(0.0)),
        Instruction::Div,
    ]);
    assert_eq!(result, Ok(()));
    assert!(top_float(&machine).is_nan());
}

#[test]
fn float_result_feeds_later_arithmetic() {
    let (machine, _, result) = run(vec![
        Instruction::Push(Literal::Int(10)),
        Instruction::Push(Literal::Int(1)),
        Instruction::Push(float(0.5)),
        Instruction::Add,
        Instruction::Mul,
    ]);
    assert_eq!(result, Ok(()));
    assert_eq!(machine.stack(), &[float(15.0)]);
}

#[test]
fn display_renders_each_kind() {
    let (machine, output, result) = run(vec![
        Instruction::Push(Literal::Int(-5)),
        Instruction::Display,
        Instruction::Push(Literal::Str(" \"q\" ")),
        Instruction::Display,
        Instruction::Push(float(0.1)),
        Instruction::Display,
    ]);
    assert_eq!(result, Ok(()));
    assert_eq!(output, "-5 \"q\" 0.1");
    assert!(machine.stack().is_empty());
}

#[test]
fn output_before_a_fault_is_kept() {
    let (machine, output, result) = run(vec![
        Instruction::Push(Literal::Str("so far")),
        Instruction::Display,
        Instruction::Display,
        Instruction::Push(Literal::Str("never")),
        Instruction::Display,
    ]);
    assert_eq!(result, Err(Fault::StackUnderflow));
    assert_eq!(output, "so far");
    assert_eq!(machine.pc(), 3);
}

#[test]
fn one_plus_two_end_to_end() {
    let (machine, output, result) = run(vec![
        Instruction::Push(Literal::Int(2)),
        Instruction::Push(float(1.0)),
        Instruction::Add,
        Instruction::Mstore(666),
        Instruction::Push(Literal::Str("1 + 2 is ")),
        Instruction::Display,
        Instruction::Mload(666),
        Instruction::Display,
        Instruction::Push(Literal::Str("\n")),
        Instruction::Display,
    ]);
    assert_eq!(result, Ok(()));
    assert_eq!(output, "1 + 2 is 3.0\n");
    assert!(machine.stack().is_empty());
    assert!(machine.halted());
    assert_eq!(machine.pc(), 10);
}
