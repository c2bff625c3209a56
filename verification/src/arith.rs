//! Samples and the arithmetic unit.
//!
//! A sample is the bit pattern of an IEEE 754 binary32 number. Sign, order and NaN tests
//! are decided here, on the pattern. Every operation that rounds is a request, an [`Op`],
//! that an arithmetic unit answers. The unit is a function of the caller; the library
//! fixes which requests are made, in which order, and what is done with the answers.

use vstd::prelude::*;

verus! {

/// The pattern of positive zero, which is also digital silence.
pub const ZERO: u32 = 0;

/// The pattern of one half.
pub const HALF: u32 = 0x3f00_0000;

/// The pattern of one.
pub const ONE: u32 = 0x3f80_0000;

/// The pattern of two.
pub const TWO: u32 = 0x4000_0000;

/// The pattern of ten.
pub const TEN: u32 = 0x4120_0000;

/// The pattern of the binary32 number nearest to the circle constant.
pub const PI: u32 = 0x4049_0fdb;

/// The pattern of positive infinity. Every larger magnitude is a NaN.
pub const INFINITY: u32 = 0x7f80_0000;

/// The pattern of the largest finite number.
pub const MAX: u32 = 0x7f7f_ffff;

/// The sign bit of a pattern.
pub const SIGN: u32 = 0x8000_0000;

/// The sequence of `n` samples of silence.
pub open spec fn silence(n: nat) -> Seq<u32> {
    Seq::new(n, |i: int| ZERO)
}

/// A request to the arithmetic unit. The operands and the answer are binary32 patterns.
#[derive(Clone, Copy, Debug)]
pub enum Op {
    /// The sum of the two operands.
    Add(u32, u32),
    /// The first operand less the second.
    Sub(u32, u32),
    /// The product of the two operands.
    Mul(u32, u32),
    /// The first operand divided by the second.
    Div(u32, u32),
    /// The first operand raised to the power of the second.
    Pow(u32, u32),
    /// The square root of the operand.
    Sqrt(u32),
    /// The tangent of the operand, an angle in radians.
    Tan(u32),
}

/// What the library asks of an arithmetic unit: that it takes every request, and that
/// it has one answer to each.
pub open spec fn lawful<A: Fn(Op) -> u32>(alu: &A) -> bool {
    &&& forall|op: Op| call_requires(*alu, (op,))
    &&& forall|op: Op, r1: u32, r2: u32|
        call_ensures(*alu, (op,), r1) && call_ensures(*alu, (op,), r2) ==> r1 == r2
}

/// The answer of a unit to a request.
pub open spec fn eval<A: Fn(Op) -> u32>(alu: &A, op: Op) -> u32 {
    choose|r: u32| call_ensures(*alu, (op,), r)
}

/// Hands a request to the unit.
pub fn ask<A: Fn(Op) -> u32>(alu: &A, op: Op) -> (r: u32)
    requires
        lawful(alu),
    ensures
        r == eval(alu, op),
{
    alu(op)
}

/// The answer to `a + b`.
pub open spec fn spec_fadd<A: Fn(Op) -> u32>(alu: &A, a: u32, b: u32) -> u32 {
    eval(alu, Op::Add(a, b))
}

/// The answer to `a - b`.
pub open spec fn spec_fsub<A: Fn(Op) -> u32>(alu: &A, a: u32, b: u32) -> u32 {
    eval(alu, Op::Sub(a, b))
}

/// The answer to `a * b`.
pub open spec fn spec_fmul<A: Fn(Op) -> u32>(alu: &A, a: u32, b: u32) -> u32 {
    eval(alu, Op::Mul(a, b))
}

/// The answer to `a / b`.
pub open spec fn spec_fdiv<A: Fn(Op) -> u32>(alu: &A, a: u32, b: u32) -> u32 {
    eval(alu, Op::Div(a, b))
}

/// The answer to `a` to the power `b`.
pub open spec fn spec_fpow<A: Fn(Op) -> u32>(alu: &A, a: u32, b: u32) -> u32 {
    eval(alu, Op::Pow(a, b))
}

/// The answer to the square root of `a`.
pub open spec fn spec_fsqrt<A: Fn(Op) -> u32>(alu: &A, a: u32) -> u32 {
    eval(alu, Op::Sqrt(a))
}

/// The answer to the tangent of `a`.
pub open spec fn spec_ftan<A: Fn(Op) -> u32>(alu: &A, a: u32) -> u32 {
    eval(alu, Op::Tan(a))
}

/// `a + b`, as the unit rounds it.
#[verifier::when_used_as_spec(spec_fadd)]
pub fn fadd<A: Fn(Op) -> u32>(alu: &A, a: u32, b: u32) -> (r: u32)
    requires
        lawful(alu),
    ensures
        r == spec_fadd(alu, a, b),
{
    ask(alu, Op::Add(a, b))
}

/// `a - b`, as the unit rounds it.
#[verifier::when_used_as_spec(spec_fsub)]
pub fn fsub<A: Fn(Op) -> u32>(alu: &A, a: u32, b: u32) -> (r: u32)
    requires
        lawful(alu),
    ensures
        r == spec_fsub(alu, a, b),
{
    ask(alu, Op::Sub(a, b))
}

/// `a * b`, as the unit rounds it.
#[verifier::when_used_as_spec(spec_fmul)]
pub fn fmul<A: Fn(Op) -> u32>(alu: &A, a: u32, b: u32) -> (r: u32)
    requires
        lawful(alu),
    ensures
        r == spec_fmul(alu, a, b),
{
    ask(alu, Op::Mul(a, b))
}

/// `a / b`, as the unit rounds it.
#[verifier::when_used_as_spec(spec_fdiv)]
pub fn fdiv<A: Fn(Op) -> u32>(alu: &A, a: u32, b: u32) -> (r: u32)
    requires
        lawful(alu),
    ensures
        r == spec_fdiv(alu, a, b),
{
    ask(alu, Op::Div(a, b))
}

/// `a` to the power `b`, as the unit rounds it.
#[verifier::when_used_as_spec(spec_fpow)]
pub fn fpow<A: Fn(Op) -> u32>(alu: &A, a: u32, b: u32) -> (r: u32)
    requires
        lawful(alu),
    ensures
        r == spec_fpow(alu, a, b),
{
    ask(alu, Op::Pow(a, b))
}

/// The square root of `a`, as the unit rounds it.
#[verifier::when_used_as_spec(spec_fsqrt)]
pub fn fsqrt<A: Fn(Op) -> u32>(alu: &A, a: u32) -> (r: u32)
    requires
        lawful(alu),
    ensures
        r == spec_fsqrt(alu, a),
{
    ask(alu, Op::Sqrt(a))
}

/// The tangent of `a`, as the unit rounds it.
#[verifier::when_used_as_spec(spec_ftan)]
pub fn ftan<A: Fn(Op) -> u32>(alu: &A, a: u32) -> (r: u32)
    requires
        lawful(alu),
    ensures
        r == spec_ftan(alu, a),
{
    ask(alu, Op::Tan(a))
}

/// The pattern without its sign bit.
pub open spec fn spec_magnitude(x: u32) -> u32 {
    if x >= SIGN {
        (x - SIGN) as u32
    } else {
        x
    }
}

/// The pattern with its sign bit cleared: the absolute value.
#[verifier::when_used_as_spec(spec_magnitude)]
pub fn magnitude(x: u32) -> (m: u32)
    ensures
        m == spec_magnitude(x),
        m < SIGN,
{
    if x >= SIGN {
        x - SIGN
    } else {
        x
    }
}

/// Whether the magnitude lies above that of infinity.
pub open spec fn spec_is_nan(x: u32) -> bool {
    spec_magnitude(x) > INFINITY
}

/// Whether the pattern is a NaN: all exponent bits set and a fraction that is not zero.
#[verifier::when_used_as_spec(spec_is_nan)]
pub fn is_nan(x: u32) -> (nan: bool)
    ensures
        nan == spec_is_nan(x),
{
    magnitude(x) > INFINITY
}

/// The place of a pattern that is no NaN on the number line: the magnitude, counted
/// downwards from zero where the sign bit is set. Both zeros have the place 0.
pub open spec fn rank(x: u32) -> int {
    if x >= SIGN {
        -(spec_magnitude(x) as int)
    } else {
        x as int
    }
}

/// Whether neither is a NaN and `a` stands before `b` on the number line.
pub open spec fn spec_less(a: u32, b: u32) -> bool {
    !spec_is_nan(a) && !spec_is_nan(b) && rank(a) < rank(b)
}

/// `a < b` as IEEE 754 orders binary32 numbers: false where either is a NaN, and the
/// two zeros are equal.
#[verifier::when_used_as_spec(spec_less)]
pub fn less(a: u32, b: u32) -> (lt: bool)
    ensures
        lt == spec_less(a, b),
{
    if is_nan(a) || is_nan(b) {
        false
    } else if a >= SIGN {
        if b >= SIGN {
            magnitude(b) < magnitude(a)
        } else {
            magnitude(a) > 0 || b > 0
        }
    } else {
        b < SIGN && a < b
    }
}

} // verus!
