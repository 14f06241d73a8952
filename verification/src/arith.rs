//! Integer arithmetic of the machine: exact results brought back into 32
//! bits, and division that rounds toward zero.

use vstd::prelude::*;
use vstd::math::abs;
use crate::fault::Fault;
use crate::instruction::Operator;

verus! {

/// The 32-bit two's-complement integer that is congruent to `v` modulo 2^32.
/// A value that fits in 32 bits is its own image.
pub open spec fn wrap(v: int) -> i32 {
    let r = v % 0x1_0000_0000;
    if r > i32::MAX {
        (r - 0x1_0000_0000) as i32
    } else {
        r as i32
    }
}

/// The quotient of `lhs` by `rhs` rounded toward zero, for `rhs` other than
/// zero.
pub open spec fn quotient(lhs: int, rhs: int) -> int {
    if lhs >= 0 && rhs > 0 {
        lhs / rhs
    } else if lhs < 0 && rhs < 0 {
        (-lhs) / (-rhs)
    } else if lhs < 0 {
        -((-lhs) / rhs)
    } else {
        -(lhs / (-rhs))
    }
}

/// What an operator makes of two integers: the exact result brought back
/// into 32 bits, or `DivisionByZero` for a division by zero.
pub open spec fn int_result(op: Operator, lhs: i32, rhs: i32) -> Result<i32, Fault> {
    match op {
        Operator::Add => Ok(wrap(lhs + rhs)),
        Operator::Sub => Ok(wrap(lhs - rhs)),
        Operator::Mul => Ok(wrap(lhs * rhs)),
        Operator::Div => if rhs == 0 {
            Err(Fault::DivisionByZero)
        } else {
            Ok(wrap(quotient(lhs as int, rhs as int)))
        },
    }
}

/// Wrapping leaves a value alone that fits in 32 bits.
pub proof fn lemma_wrap_in_range(v: int)
    requires
        i32::MIN <= v <= i32::MAX,
    ensures
        wrap(v) == v,
{
}

/// The only quotient of two 32-bit integers that does not fit in 32 bits is
/// that of the least integer by minus one.
pub proof fn lemma_quotient_range(lhs: i32, rhs: i32)
    requires
        rhs != 0,
    ensures
        i32::MIN <= quotient(lhs as int, rhs as int) <= i32::MAX + 1,
        quotient(lhs as int, rhs as int) == i32::MAX + 1 <==> lhs == i32::MIN && rhs == -1,
{
    let l = abs(lhs as int) as int;
    let r = abs(rhs as int) as int;
    assert(0 <= l / r <= l) by (nonlinear_arith)
        requires
            0 <= l,
            0 < r,
    ;
    assert(r > 1 ==> l / r < l || l == 0) by (nonlinear_arith)
        requires
            0 <= l,
            0 < r,
    ;
    assert(r == 1 ==> l / r == l) by (nonlinear_arith);
}

/// Applies an operator to two integers.
pub fn int_op(op: Operator, lhs: i32, rhs: i32) -> (r: Result<i32, Fault>)
    ensures
        r == int_result(op, lhs, rhs),
{
    match op {
        Operator::Add => Ok(lhs.wrapping_add(rhs)),
        Operator::Sub => Ok(lhs.wrapping_sub(rhs)),
        Operator::Mul => Ok(lhs.wrapping_mul(rhs)),
        Operator::Div => {
            if rhs == 0 {
                Err(Fault::DivisionByZero)
            } else {
                proof {
                    lemma_quotient_range(lhs, rhs);
                }
                match lhs.checked_div(rhs) {
                    Some(q) => Ok(q),
                    // The least integer by minus one: the quotient is one
                    // more than the greatest integer, and wraps to the least.
                    None => Ok(lhs),
                }
            }
        },
    }
}

} // verus!
