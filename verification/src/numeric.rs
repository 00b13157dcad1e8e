//! The numeric tower: integers, reals and complex numbers.
//!
//! Integers are computed here.  Reals are kept as IEEE 754 bit patterns and
//! never computed here: an operation on reals gives a formula over the
//! primitive operations of real arithmetic, for the host to evaluate.

use crate::arith::{
    abs_u64, div_trunc, factorial, factorial_checked, fits, gcd, gcd_of, magnitude, mul_wide,
    pow_checked, power, rem_trunc, trunc_div, trunc_rem,
};
use crate::node::{BinaryOp, UnaryOp};
use vstd::prelude::*;

verus! {

/// Primitive functions of one real.
#[derive(Clone, Copy, PartialEq, Eq, Structural, Debug)]
pub enum RealFn {
    Neg,
    Abs,
    Floor,
    Ceil,
    Round,
    Trunc,
    Fract,
    Sqrt,
    Cbrt,
    Ln,
    Sin,
    Cos,
    Tan,
    ToRadians,
}

/// Primitive functions of two reals.
#[derive(Clone, Copy, PartialEq, Eq, Structural, Debug)]
pub enum RealOp {
    Add,
    Sub,
    Mul,
    Div,
    Rem,
    Pow,
    Hypot,
    Atan2,
    Min,
    Max,
}

/// Comparisons of two reals.
#[derive(Clone, Copy, PartialEq, Eq, Structural, Debug)]
pub enum Comparison {
    Eq,
    Lt,
    Le,
    Gt,
    Ge,
}

/// A formula over reals: a bit pattern, an integer taken as a real, or a
/// primitive function of formulas.
#[derive(Debug, PartialEq)]
pub enum Real {
    Bits(u64),
    Int(i32),
    Apply(RealFn, Box<Real>),
    Combine(RealOp, Box<Real>, Box<Real>),
}

/// A condition on reals.
#[derive(Debug, PartialEq)]
pub enum Test {
    Compare(Comparison, Real, Real),
    Both(Box<Test>, Box<Test>),
    Not(Box<Test>),
}

/// A value without structure: an integer, a real, a truth value or a complex number.
#[derive(Clone, Copy, PartialEq, Eq, Structural, Debug)]
pub enum Scalar {
    Int(i32),
    Float(u64),
    Bool(bool),
    Complex(u64, u64),
}

/// Why an operation has no result.
#[derive(Clone, Copy, PartialEq, Eq, Structural, Debug)]
pub enum Failure {
    WrongOperandKind,
    WrongArity,
    DivideByZero,
    Overflow,
}

/// What an operation gives: a value, or what the host is to compute, or a failure.
#[derive(Debug, PartialEq)]
pub enum Outcome {
    /// The result.
    Value(Scalar),
    /// The result is the real that the formula denotes.
    Real(Real),
    /// The result is the complex number with these two parts.
    Complex(Real, Real),
    /// The result is the formula's real rounded toward zero to an integer.
    Truncated(Real),
    /// The result is the factorial of the formula's real rounded toward zero.
    Factorial(Real),
    /// The result is the truth value of the condition.
    Test(Test),
    /// No result.
    Failed(Failure),
}

/// The native functions.
#[derive(Clone, Copy, PartialEq, Eq, Structural, Debug)]
pub enum Native {
    Abs,
    Floor,
    Ceil,
    Round,
    Trunc,
    Fract,
    Sqrt,
    Cbrt,
    Ln,
    Sin,
    Cos,
    Tan,
    Gcd,
    Lcm,
    Min,
    Max,
    Clamp,
    Re,
    Im,
    Arg,
    Conj,
    Cis,
    Print,
}

/// `f` applied to `x`.
pub open spec fn apply(f: RealFn, x: Real) -> Real {
    Real::Apply(f, Box::new(x))
}

/// `op` applied to `x` and `y`.
pub open spec fn combine(op: RealOp, x: Real, y: Real) -> Real {
    Real::Combine(op, Box::new(x), Box::new(y))
}

/// Whether a bit pattern is a zero, positive or negative.
pub open spec fn is_zero_bits(bits: u64) -> bool {
    bits == 0 || bits == 0x8000_0000_0000_0000
}

/// Truthiness: a nonzero integer or real, `true`, or a complex number both
/// of whose parts are nonzero.
pub open spec fn truthy(x: Scalar) -> bool {
    match x {
        Scalar::Int(n) => n != 0,
        Scalar::Float(bits) => !is_zero_bits(bits),
        Scalar::Bool(b) => b,
        Scalar::Complex(re, im) => !is_zero_bits(re) && !is_zero_bits(im),
    }
}

/// An integer or a real as a formula.
pub open spec fn lift(x: Scalar) -> Real {
    match x {
        Scalar::Int(n) => Real::Int(n),
        Scalar::Float(bits) => Real::Bits(bits),
        _ => Real::Bits(0),
    }
}

/// The real part of a number lifted to the complex numbers.
pub open spec fn re(x: Scalar) -> Real {
    match x {
        Scalar::Complex(r, _) => Real::Bits(r),
        _ => lift(x),
    }
}

/// The imaginary part of a number lifted to the complex numbers.
pub open spec fn im(x: Scalar) -> Real {
    match x {
        Scalar::Complex(_, i) => Real::Bits(i),
        _ => Real::Bits(0),
    }
}

/// The squared magnitude of a number: comparisons with a complex operand compare these.
pub open spec fn squared_magnitude(x: Scalar) -> Real {
    match x {
        Scalar::Complex(r, i) => combine(
            RealOp::Add,
            combine(RealOp::Mul, Real::Bits(r), Real::Bits(r)),
            combine(RealOp::Mul, Real::Bits(i), Real::Bits(i)),
        ),
        _ => combine(RealOp::Mul, lift(x), lift(x)),
    }
}

/// An integer result: the integer if it fits in 32 bits.
pub open spec fn int_outcome(x: int) -> Outcome {
    if fits(x) {
        Outcome::Value(Scalar::Int(x as i32))
    } else {
        Outcome::Failed(Failure::Overflow)
    }
}

/// The operations with one operand.
pub open spec fn unary(op: UnaryOp, x: Scalar) -> Outcome {
    match op {
        UnaryOp::Pos => Outcome::Value(x),
        UnaryOp::Not => Outcome::Value(Scalar::Bool(!truthy(x))),
        UnaryOp::Neg => match x {
            Scalar::Int(n) => int_outcome(-n),
            Scalar::Float(bits) => Outcome::Real(apply(RealFn::Neg, Real::Bits(bits))),
            Scalar::Complex(r, i) => Outcome::Complex(
                apply(RealFn::Neg, Real::Bits(r)),
                apply(RealFn::Neg, Real::Bits(i)),
            ),
            Scalar::Bool(_) => Outcome::Failed(Failure::WrongOperandKind),
        },
        UnaryOp::Abs => match x {
            Scalar::Int(n) => int_outcome(magnitude(n as int)),
            Scalar::Float(bits) => Outcome::Real(apply(RealFn::Abs, Real::Bits(bits))),
            Scalar::Complex(r, i) => Outcome::Real(
                combine(RealOp::Hypot, Real::Bits(r), Real::Bits(i)),
            ),
            Scalar::Bool(_) => Outcome::Failed(Failure::WrongOperandKind),
        },
        UnaryOp::Floor => rounding(RealFn::Floor, x),
        UnaryOp::Ceil => rounding(RealFn::Ceil, x),
        UnaryOp::Round => rounding(RealFn::Round, x),
        UnaryOp::Degree => real_function(RealFn::ToRadians, x),
        UnaryOp::Sqrt => real_function(RealFn::Sqrt, x),
        UnaryOp::Cbrt => match x {
            Scalar::Int(n) => Outcome::Truncated(apply(RealFn::Cbrt, Real::Int(n))),
            Scalar::Float(bits) => Outcome::Real(apply(RealFn::Cbrt, Real::Bits(bits))),
            _ => Outcome::Failed(Failure::WrongOperandKind),
        },
        UnaryOp::Fort => match x {
            Scalar::Int(n) => Outcome::Truncated(
                apply(RealFn::Sqrt, apply(RealFn::Sqrt, Real::Int(n))),
            ),
            Scalar::Float(bits) => Outcome::Real(
                apply(RealFn::Sqrt, apply(RealFn::Sqrt, Real::Bits(bits))),
            ),
            _ => Outcome::Failed(Failure::WrongOperandKind),
        },
        UnaryOp::Fact => match x {
            Scalar::Int(n) => int_outcome(factorial(n as int)),
            Scalar::Float(bits) => Outcome::Factorial(Real::Bits(bits)),
            _ => Outcome::Failed(Failure::WrongOperandKind),
        },
    }
}

/// Floor, ceiling and rounding: an integer is its own; a real is rounded by the host.
pub open spec fn rounding(f: RealFn, x: Scalar) -> Outcome {
    match x {
        Scalar::Int(n) => Outcome::Value(x),
        Scalar::Float(bits) => Outcome::Real(apply(f, Real::Bits(bits))),
        _ => Outcome::Failed(Failure::WrongOperandKind),
    }
}

/// A function of reals, of an integer or a real: always a real.
pub open spec fn real_function(f: RealFn, x: Scalar) -> Outcome {
    match x {
        Scalar::Int(_) | Scalar::Float(_) => Outcome::Real(apply(f, lift(x))),
        _ => Outcome::Failed(Failure::WrongOperandKind),
    }
}

/// Arithmetic on two integers.  A power with a negative exponent is a real.
pub open spec fn int_arithmetic(op: BinaryOp, a: i32, b: i32) -> Outcome {
    match op {
        BinaryOp::Add => int_outcome(a + b),
        BinaryOp::Sub => int_outcome(a - b),
        BinaryOp::Mul => int_outcome(a * b),
        BinaryOp::Div => if b == 0 {
            Outcome::Failed(Failure::DivideByZero)
        } else {
            int_outcome(trunc_div(a as int, b as int))
        },
        BinaryOp::Rem => if b == 0 {
            Outcome::Failed(Failure::DivideByZero)
        } else {
            int_outcome(trunc_rem(a as int, b as int))
        },
        BinaryOp::Pow => if b >= 0 {
            int_outcome(power(a as int, b as nat))
        } else {
            Outcome::Real(combine(RealOp::Pow, Real::Int(a), Real::Int(b)))
        },
        _ => Outcome::Failed(Failure::WrongOperandKind),
    }
}

/// The primitive of real arithmetic for an arithmetic operator.
pub open spec fn real_op(op: BinaryOp) -> RealOp {
    match op {
        BinaryOp::Add => RealOp::Add,
        BinaryOp::Sub => RealOp::Sub,
        BinaryOp::Mul => RealOp::Mul,
        BinaryOp::Div => RealOp::Div,
        BinaryOp::Rem => RealOp::Rem,
        _ => RealOp::Pow,
    }
}

/// Arithmetic on two complex numbers `a + bi` and `c + di`, given by their
/// parts.  Product and quotient are the usual ones.  The power takes both
/// operands to a magnitude and an angle, raises magnitude to magnitude and
/// angle to angle, and goes back: an approximation.  There is no remainder.
pub open spec fn complex_arithmetic(op: BinaryOp, a: Real, b: Real, c: Real, d: Real) -> Outcome {
    match op {
        BinaryOp::Add => Outcome::Complex(combine(RealOp::Add, a, c), combine(RealOp::Add, b, d)),
        BinaryOp::Sub => Outcome::Complex(combine(RealOp::Sub, a, c), combine(RealOp::Sub, b, d)),
        BinaryOp::Mul => Outcome::Complex(
            combine(RealOp::Sub, combine(RealOp::Mul, a, c), combine(RealOp::Mul, b, d)),
            combine(RealOp::Add, combine(RealOp::Mul, a, d), combine(RealOp::Mul, b, c)),
        ),
        BinaryOp::Div => {
            let denominator = combine(
                RealOp::Add,
                combine(RealOp::Mul, c, c),
                combine(RealOp::Mul, d, d),
            );
            Outcome::Complex(
                combine(
                    RealOp::Div,
                    combine(RealOp::Add, combine(RealOp::Mul, a, c), combine(RealOp::Mul, b, d)),
                    denominator,
                ),
                combine(
                    RealOp::Div,
                    combine(RealOp::Sub, combine(RealOp::Mul, b, c), combine(RealOp::Mul, a, d)),
                    denominator,
                ),
            )
        },
        BinaryOp::Pow => {
            let magnitude = combine(
                RealOp::Pow,
                combine(RealOp::Hypot, a, b),
                combine(RealOp::Hypot, c, d),
            );
            let angle = combine(
                RealOp::Pow,
                combine(RealOp::Atan2, b, combine(RealOp::Hypot, a, b)),
                combine(RealOp::Atan2, d, combine(RealOp::Hypot, c, d)),
            );
            Outcome::Complex(
                combine(RealOp::Mul, magnitude, apply(RealFn::Cos, angle)),
                combine(RealOp::Mul, magnitude, apply(RealFn::Sin, angle)),
            )
        },
        _ => Outcome::Failed(Failure::WrongOperandKind),
    }
}

/// The arithmetic operators on two numbers.  Two integers give an integer;
/// with a real operand the other is taken as a real; with a complex operand
/// the other is lifted to the complex numbers.
pub open spec fn arithmetic(op: BinaryOp, l: Scalar, r: Scalar) -> Outcome {
    if l is Bool || r is Bool {
        Outcome::Failed(Failure::WrongOperandKind)
    } else if l is Complex || r is Complex {
        complex_arithmetic(op, re(l), im(l), re(r), im(r))
    } else if l is Int && r is Int {
        int_arithmetic(op, l->Int_0, r->Int_0)
    } else {
        Outcome::Real(combine(real_op(op), lift(l), lift(r)))
    }
}

/// The comparison of reals for an ordering operator.
pub open spec fn comparison_of(op: BinaryOp) -> Comparison {
    match op {
        BinaryOp::Lt => Comparison::Lt,
        BinaryOp::Lte => Comparison::Le,
        BinaryOp::Gt => Comparison::Gt,
        _ => Comparison::Ge,
    }
}

/// The ordering operators.  With a complex operand, squared magnitudes are compared.
pub open spec fn ordering(op: BinaryOp, l: Scalar, r: Scalar) -> Outcome {
    if l is Bool || r is Bool {
        Outcome::Failed(Failure::WrongOperandKind)
    } else if l is Complex || r is Complex {
        Outcome::Test(
            Test::Compare(comparison_of(op), squared_magnitude(l), squared_magnitude(r)),
        )
    } else if l is Int && r is Int {
        let (a, b) = (l->Int_0, r->Int_0);
        Outcome::Value(
            Scalar::Bool(
                match op {
                    BinaryOp::Lt => a < b,
                    BinaryOp::Lte => a <= b,
                    BinaryOp::Gt => a > b,
                    _ => a >= b,
                },
            ),
        )
    } else {
        Outcome::Test(Test::Compare(comparison_of(op), lift(l), lift(r)))
    }
}

/// Equality: values of different kinds are unequal; reals are compared by the host.
pub open spec fn equality(l: Scalar, r: Scalar) -> Outcome {
    match (l, r) {
        (Scalar::Int(a), Scalar::Int(b)) => Outcome::Value(Scalar::Bool(a == b)),
        (Scalar::Bool(a), Scalar::Bool(b)) => Outcome::Value(Scalar::Bool(a == b)),
        (Scalar::Float(a), Scalar::Float(b)) => Outcome::Test(
            Test::Compare(Comparison::Eq, Real::Bits(a), Real::Bits(b)),
        ),
        (Scalar::Complex(a, b), Scalar::Complex(c, d)) => Outcome::Test(
            Test::Both(
                Box::new(Test::Compare(Comparison::Eq, Real::Bits(a), Real::Bits(c))),
                Box::new(Test::Compare(Comparison::Eq, Real::Bits(b), Real::Bits(d))),
            ),
        ),
        _ => Outcome::Value(Scalar::Bool(false)),
    }
}

/// The negation of an outcome that is a truth value.
pub open spec fn negated(o: Outcome) -> Outcome {
    match o {
        Outcome::Value(Scalar::Bool(b)) => Outcome::Value(Scalar::Bool(!b)),
        Outcome::Test(t) => Outcome::Test(Test::Not(Box::new(t))),
        _ => o,
    }
}

/// The operations with two operands.
pub open spec fn binary(op: BinaryOp, l: Scalar, r: Scalar) -> Outcome {
    match op {
        BinaryOp::Add | BinaryOp::Sub | BinaryOp::Mul | BinaryOp::Div | BinaryOp::Rem
        | BinaryOp::Pow => arithmetic(op, l, r),
        BinaryOp::Lt | BinaryOp::Lte | BinaryOp::Gt | BinaryOp::Gte => ordering(op, l, r),
        BinaryOp::EqEq => equality(l, r),
        BinaryOp::Neq => negated(equality(l, r)),
        BinaryOp::And => Outcome::Value(Scalar::Bool(truthy(l) && truthy(r))),
        BinaryOp::Or => Outcome::Value(Scalar::Bool(truthy(l) || truthy(r))),
    }
}

/// The number of arguments that a native function takes.
pub open spec fn arity(f: Native) -> nat {
    match f {
        Native::Gcd | Native::Lcm | Native::Min | Native::Max => 2,
        Native::Clamp => 3,
        _ => 1,
    }
}

/// The smaller of two integers.
pub open spec fn min_of(a: int, b: int) -> int {
    if a <= b {
        a
    } else {
        b
    }
}

/// The larger of two integers.
pub open spec fn max_of(a: int, b: int) -> int {
    if a >= b {
        a
    } else {
        b
    }
}

/// A native function of one argument.
pub open spec fn native_one(f: Native, x: Scalar) -> Outcome {
    match f {
        Native::Abs => match x {
            Scalar::Int(n) => int_outcome(magnitude(n as int)),
            Scalar::Float(bits) => Outcome::Real(apply(RealFn::Abs, Real::Bits(bits))),
            _ => Outcome::Failed(Failure::WrongOperandKind),
        },
        Native::Floor => rounding(RealFn::Floor, x),
        Native::Ceil => rounding(RealFn::Ceil, x),
        Native::Round => rounding(RealFn::Round, x),
        Native::Trunc => rounding(RealFn::Trunc, x),
        Native::Fract => real_function(RealFn::Fract, x),
        Native::Sqrt => real_function(RealFn::Sqrt, x),
        Native::Cbrt => real_function(RealFn::Cbrt, x),
        Native::Ln => real_function(RealFn::Ln, x),
        Native::Sin => real_function(RealFn::Sin, x),
        Native::Cos => real_function(RealFn::Cos, x),
        Native::Tan => real_function(RealFn::Tan, x),
        Native::Re => match x {
            Scalar::Complex(r, _) => Outcome::Value(Scalar::Float(r)),
            _ => Outcome::Failed(Failure::WrongOperandKind),
        },
        Native::Im => match x {
            Scalar::Complex(_, i) => Outcome::Value(Scalar::Float(i)),
            _ => Outcome::Failed(Failure::WrongOperandKind),
        },
        Native::Arg => match x {
            Scalar::Complex(r, i) => Outcome::Real(
                combine(RealOp::Atan2, Real::Bits(i), Real::Bits(r)),
            ),
            _ => Outcome::Failed(Failure::WrongOperandKind),
        },
        Native::Conj => match x {
            Scalar::Complex(r, i) => Outcome::Complex(
                Real::Bits(r),
                apply(RealFn::Neg, Real::Bits(i)),
            ),
            _ => Outcome::Failed(Failure::WrongOperandKind),
        },
        Native::Cis => match x {
            Scalar::Float(bits) => Outcome::Complex(
                apply(RealFn::Cos, Real::Bits(bits)),
                apply(RealFn::Sin, Real::Bits(bits)),
            ),
            _ => Outcome::Failed(Failure::WrongOperandKind),
        },
        _ => Outcome::Value(Scalar::Int(0)),
    }
}

/// A native function of two arguments.
pub open spec fn native_two(f: Native, x: Scalar, y: Scalar) -> Outcome {
    match (x, y) {
        (Scalar::Int(a), Scalar::Int(b)) => match f {
            Native::Gcd => int_outcome(gcd_of(a as int, b as int)),
            Native::Lcm => if gcd_of(a as int, b as int) == 0 {
                Outcome::Failed(Failure::DivideByZero)
            } else {
                int_outcome(trunc_div(a * b, gcd_of(a as int, b as int)))
            },
            Native::Min => int_outcome(min_of(a as int, b as int)),
            _ => int_outcome(max_of(a as int, b as int)),
        },
        (Scalar::Float(a), Scalar::Float(b)) => match f {
            Native::Min => Outcome::Real(combine(RealOp::Min, Real::Bits(a), Real::Bits(b))),
            Native::Max => Outcome::Real(combine(RealOp::Max, Real::Bits(a), Real::Bits(b))),
            _ => Outcome::Failed(Failure::WrongOperandKind),
        },
        _ => Outcome::Failed(Failure::WrongOperandKind),
    }
}

/// `clamp(x, low, high)`: the larger of `x` and `low`, but at most `high`.
pub open spec fn native_clamp(x: Scalar, low: Scalar, high: Scalar) -> Outcome {
    match (x, low, high) {
        (Scalar::Int(a), Scalar::Int(b), Scalar::Int(c)) => int_outcome(
            min_of(max_of(a as int, b as int), c as int),
        ),
        (Scalar::Float(a), Scalar::Float(b), Scalar::Float(c)) => Outcome::Real(
            combine(
                RealOp::Min,
                combine(RealOp::Max, Real::Bits(a), Real::Bits(b)),
                Real::Bits(c),
            ),
        ),
        _ => Outcome::Failed(Failure::WrongOperandKind),
    }
}

/// A native function applied to arguments.  (What `print` gives is 0; that
/// its argument reaches the output is the caller's matter.)
pub open spec fn native(f: Native, args: Seq<Scalar>) -> Outcome {
    if args.len() != arity(f) {
        Outcome::Failed(Failure::WrongArity)
    } else if arity(f) == 1 {
        native_one(f, args[0])
    } else if arity(f) == 2 {
        native_two(f, args[0], args[1])
    } else {
        native_clamp(args[0], args[1], args[2])
    }
}

fn app(f: RealFn, x: Real) -> (r: Real)
    ensures
        r == apply(f, x),
{
    Real::Apply(f, Box::new(x))
}

fn comb(op: RealOp, x: Real, y: Real) -> (r: Real)
    ensures
        r == combine(op, x, y),
{
    Real::Combine(op, Box::new(x), Box::new(y))
}

fn zero_bits(bits: u64) -> (b: bool)
    ensures
        b == is_zero_bits(bits),
{
    bits == 0 || bits == 0x8000_0000_0000_0000
}

/// Truthiness: see [`truthy`].
pub fn is_truthy(x: Scalar) -> (b: bool)
    ensures
        b == truthy(x),
{
    match x {
        Scalar::Int(n) => n != 0,
        Scalar::Float(bits) => !zero_bits(bits),
        Scalar::Bool(b) => b,
        Scalar::Complex(re, im) => !zero_bits(re) && !zero_bits(im),
    }
}

fn lift_real(x: Scalar) -> (r: Real)
    ensures
        r == lift(x),
{
    match x {
        Scalar::Int(n) => Real::Int(n),
        Scalar::Float(bits) => Real::Bits(bits),
        _ => Real::Bits(0),
    }
}

fn real_part(x: Scalar) -> (r: Real)
    ensures
        r == re(x),
{
    match x {
        Scalar::Complex(r, _) => Real::Bits(r),
        _ => lift_real(x),
    }
}

fn imaginary_part(x: Scalar) -> (r: Real)
    ensures
        r == im(x),
{
    match x {
        Scalar::Complex(_, i) => Real::Bits(i),
        _ => Real::Bits(0),
    }
}

fn square(x: Scalar) -> (r: Real)
    ensures
        r == squared_magnitude(x),
{
    match x {
        Scalar::Complex(r, i) => comb(
            RealOp::Add,
            comb(RealOp::Mul, Real::Bits(r), Real::Bits(r)),
            comb(RealOp::Mul, Real::Bits(i), Real::Bits(i)),
        ),
        _ => comb(RealOp::Mul, lift_real(x), lift_real(x)),
    }
}

fn int_result(x: i64) -> (o: Outcome)
    ensures
        o == int_outcome(x as int),
{
    if -2147483648 <= x && x <= 2147483647 {
        Outcome::Value(Scalar::Int(x as i32))
    } else {
        Outcome::Failed(Failure::Overflow)
    }
}

fn round_with(f: RealFn, x: Scalar) -> (o: Outcome)
    ensures
        o == rounding(f, x),
{
    match x {
        Scalar::Int(_) => Outcome::Value(x),
        Scalar::Float(bits) => Outcome::Real(app(f, Real::Bits(bits))),
        _ => Outcome::Failed(Failure::WrongOperandKind),
    }
}

fn real_with(f: RealFn, x: Scalar) -> (o: Outcome)
    ensures
        o == real_function(f, x),
{
    match x {
        Scalar::Int(_) | Scalar::Float(_) => Outcome::Real(app(f, lift_real(x))),
        _ => Outcome::Failed(Failure::WrongOperandKind),
    }
}

/// Applies an operator with one operand: see [`unary`].
pub fn apply_unary(op: UnaryOp, x: Scalar) -> (o: Outcome)
    ensures
        o == unary(op, x),
{
    match op {
        UnaryOp::Pos => Outcome::Value(x),
        UnaryOp::Not => Outcome::Value(Scalar::Bool(!is_truthy(x))),
        UnaryOp::Neg => match x {
            Scalar::Int(n) => int_result(-(n as i64)),
            Scalar::Float(bits) => Outcome::Real(app(RealFn::Neg, Real::Bits(bits))),
            Scalar::Complex(r, i) => Outcome::Complex(
                app(RealFn::Neg, Real::Bits(r)),
                app(RealFn::Neg, Real::Bits(i)),
            ),
            Scalar::Bool(_) => Outcome::Failed(Failure::WrongOperandKind),
        },
        UnaryOp::Abs => match x {
            Scalar::Int(n) => int_result(abs_u64(n as i64) as i64),
            Scalar::Float(bits) => Outcome::Real(app(RealFn::Abs, Real::Bits(bits))),
            Scalar::Complex(r, i) => Outcome::Real(
                comb(RealOp::Hypot, Real::Bits(r), Real::Bits(i)),
            ),
            Scalar::Bool(_) => Outcome::Failed(Failure::WrongOperandKind),
        },
        UnaryOp::Floor => round_with(RealFn::Floor, x),
        UnaryOp::Ceil => round_with(RealFn::Ceil, x),
        UnaryOp::Round => round_with(RealFn::Round, x),
        UnaryOp::Degree => real_with(RealFn::ToRadians, x),
        UnaryOp::Sqrt => real_with(RealFn::Sqrt, x),
        UnaryOp::Cbrt => match x {
            Scalar::Int(n) => Outcome::Truncated(app(RealFn::Cbrt, Real::Int(n))),
            Scalar::Float(bits) => Outcome::Real(app(RealFn::Cbrt, Real::Bits(bits))),
            _ => Outcome::Failed(Failure::WrongOperandKind),
        },
        UnaryOp::Fort => match x {
            Scalar::Int(n) => Outcome::Truncated(
                app(RealFn::Sqrt, app(RealFn::Sqrt, Real::Int(n))),
            ),
            Scalar::Float(bits) => Outcome::Real(
                app(RealFn::Sqrt, app(RealFn::Sqrt, Real::Bits(bits))),
            ),
            _ => Outcome::Failed(Failure::WrongOperandKind),
        },
        UnaryOp::Fact => match x {
            Scalar::Int(n) => match factorial_checked(n) {
                Some(product) => Outcome::Value(Scalar::Int(product)),
                None => Outcome::Failed(Failure::Overflow),
            },
            Scalar::Float(bits) => Outcome::Factorial(Real::Bits(bits)),
            _ => Outcome::Failed(Failure::WrongOperandKind),
        },
    }
}

fn int_binary(op: BinaryOp, a: i32, b: i32) -> (o: Outcome)
    ensures
        o == int_arithmetic(op, a, b),
{
    match op {
        BinaryOp::Add => int_result(a as i64 + b as i64),
        BinaryOp::Sub => int_result(a as i64 - b as i64),
        BinaryOp::Mul => int_result(mul_wide(a, b)),
        BinaryOp::Div => if b == 0 {
            Outcome::Failed(Failure::DivideByZero)
        } else {
            int_result(div_trunc(a as i64, b as i64))
        },
        BinaryOp::Rem => if b == 0 {
            Outcome::Failed(Failure::DivideByZero)
        } else {
            int_result(rem_trunc(a, b) as i64)
        },
        BinaryOp::Pow => if b >= 0 {
            match pow_checked(a, b as u32) {
                Some(x) => Outcome::Value(Scalar::Int(x)),
                None => Outcome::Failed(Failure::Overflow),
            }
        } else {
            Outcome::Real(comb(RealOp::Pow, Real::Int(a), Real::Int(b)))
        },
        _ => Outcome::Failed(Failure::WrongOperandKind),
    }
}

fn real_operator(op: BinaryOp) -> (r: RealOp)
    ensures
        r == real_op(op),
{
    match op {
        BinaryOp::Add => RealOp::Add,
        BinaryOp::Sub => RealOp::Sub,
        BinaryOp::Mul => RealOp::Mul,
        BinaryOp::Div => RealOp::Div,
        BinaryOp::Rem => RealOp::Rem,
        _ => RealOp::Pow,
    }
}

fn complex_binary(op: BinaryOp, l: Scalar, r: Scalar) -> (o: Outcome)
    ensures
        o == complex_arithmetic(op, re(l), im(l), re(r), im(r)),
{
    match op {
        BinaryOp::Add => Outcome::Complex(
            comb(RealOp::Add, real_part(l), real_part(r)),
            comb(RealOp::Add, imaginary_part(l), imaginary_part(r)),
        ),
        BinaryOp::Sub => Outcome::Complex(
            comb(RealOp::Sub, real_part(l), real_part(r)),
            comb(RealOp::Sub, imaginary_part(l), imaginary_part(r)),
        ),
        BinaryOp::Mul => Outcome::Complex(
            comb(
                RealOp::Sub,
                comb(RealOp::Mul, real_part(l), real_part(r)),
                comb(RealOp::Mul, imaginary_part(l), imaginary_part(r)),
            ),
            comb(
                RealOp::Add,
                comb(RealOp::Mul, real_part(l), imaginary_part(r)),
                comb(RealOp::Mul, imaginary_part(l), real_part(r)),
            ),
        ),
        BinaryOp::Div => Outcome::Complex(
            comb(
                RealOp::Div,
                comb(
                    RealOp::Add,
                    comb(RealOp::Mul, real_part(l), real_part(r)),
                    comb(RealOp::Mul, imaginary_part(l), imaginary_part(r)),
                ),
                comb(
                    RealOp::Add,
                    comb(RealOp::Mul, real_part(r), real_part(r)),
                    comb(RealOp::Mul, imaginary_part(r), imaginary_part(r)),
                ),
            ),
            comb(
                RealOp::Div,
                comb(
                    RealOp::Sub,
                    comb(RealOp::Mul, imaginary_part(l), real_part(r)),
                    comb(RealOp::Mul, real_part(l), imaginary_part(r)),
                ),
                comb(
                    RealOp::Add,
                    comb(RealOp::Mul, real_part(r), real_part(r)),
                    comb(RealOp::Mul, imaginary_part(r), imaginary_part(r)),
                ),
            ),
        ),
        BinaryOp::Pow => Outcome::Complex(
            comb(RealOp::Mul, polar_magnitude(l, r), app(RealFn::Cos, polar_angle(l, r))),
            comb(RealOp::Mul, polar_magnitude(l, r), app(RealFn::Sin, polar_angle(l, r))),
        ),
        _ => Outcome::Failed(Failure::WrongOperandKind),
    }
}

fn hypot_of(x: Scalar) -> (r: Real)
    ensures
        r == combine(RealOp::Hypot, re(x), im(x)),
{
    comb(RealOp::Hypot, real_part(x), imaginary_part(x))
}

fn polar_magnitude(l: Scalar, r: Scalar) -> (m: Real)
    ensures
        m == combine(
            RealOp::Pow,
            combine(RealOp::Hypot, re(l), im(l)),
            combine(RealOp::Hypot, re(r), im(r)),
        ),
{
    comb(RealOp::Pow, hypot_of(l), hypot_of(r))
}

fn polar_angle(l: Scalar, r: Scalar) -> (a: Real)
    ensures
        a == combine(
            RealOp::Pow,
            combine(RealOp::Atan2, im(l), combine(RealOp::Hypot, re(l), im(l))),
            combine(RealOp::Atan2, im(r), combine(RealOp::Hypot, re(r), im(r))),
        ),
{
    comb(
        RealOp::Pow,
        comb(RealOp::Atan2, imaginary_part(l), hypot_of(l)),
        comb(RealOp::Atan2, imaginary_part(r), hypot_of(r)),
    )
}

fn is_bool(x: Scalar) -> (b: bool)
    ensures
        b == (x is Bool),
{
    match x {
        Scalar::Bool(_) => true,
        _ => false,
    }
}

fn is_complex(x: Scalar) -> (b: bool)
    ensures
        b == (x is Complex),
{
    match x {
        Scalar::Complex(_, _) => true,
        _ => false,
    }
}

fn arithmetic_of(op: BinaryOp, l: Scalar, r: Scalar) -> (o: Outcome)
    ensures
        o == arithmetic(op, l, r),
{
    if is_bool(l) || is_bool(r) {
        Outcome::Failed(Failure::WrongOperandKind)
    } else if is_complex(l) || is_complex(r) {
        complex_binary(op, l, r)
    } else {
        match (l, r) {
            (Scalar::Int(a), Scalar::Int(b)) => int_binary(op, a, b),
            _ => Outcome::Real(comb(real_operator(op), lift_real(l), lift_real(r))),
        }
    }
}

fn comparison_for(op: BinaryOp) -> (c: Comparison)
    ensures
        c == comparison_of(op),
{
    match op {
        BinaryOp::Lt => Comparison::Lt,
        BinaryOp::Lte => Comparison::Le,
        BinaryOp::Gt => Comparison::Gt,
        _ => Comparison::Ge,
    }
}

fn ordering_of(op: BinaryOp, l: Scalar, r: Scalar) -> (o: Outcome)
    ensures
        o == ordering(op, l, r),
{
    if is_bool(l) || is_bool(r) {
        Outcome::Failed(Failure::WrongOperandKind)
    } else if is_complex(l) || is_complex(r) {
        Outcome::Test(Test::Compare(comparison_for(op), square(l), square(r)))
    } else {
        match (l, r) {
            (Scalar::Int(a), Scalar::Int(b)) => Outcome::Value(
                Scalar::Bool(
                    match op {
                        BinaryOp::Lt => a < b,
                        BinaryOp::Lte => a <= b,
                        BinaryOp::Gt => a > b,
                        _ => a >= b,
                    },
                ),
            ),
            _ => Outcome::Test(Test::Compare(comparison_for(op), lift_real(l), lift_real(r))),
        }
    }
}

fn equality_of(l: Scalar, r: Scalar) -> (o: Outcome)
    ensures
        o == equality(l, r),
{
    match (l, r) {
        (Scalar::Int(a), Scalar::Int(b)) => Outcome::Value(Scalar::Bool(a == b)),
        (Scalar::Bool(a), Scalar::Bool(b)) => Outcome::Value(Scalar::Bool(a == b)),
        (Scalar::Float(a), Scalar::Float(b)) => Outcome::Test(
            Test::Compare(Comparison::Eq, Real::Bits(a), Real::Bits(b)),
        ),
        (Scalar::Complex(a, b), Scalar::Complex(c, d)) => Outcome::Test(
            Test::Both(
                Box::new(Test::Compare(Comparison::Eq, Real::Bits(a), Real::Bits(c))),
                Box::new(Test::Compare(Comparison::Eq, Real::Bits(b), Real::Bits(d))),
            ),
        ),
        _ => Outcome::Value(Scalar::Bool(false)),
    }
}

fn negate(o: Outcome) -> (n: Outcome)
    ensures
        n == negated(o),
{
    match o {
        Outcome::Value(Scalar::Bool(b)) => Outcome::Value(Scalar::Bool(!b)),
        Outcome::Test(t) => Outcome::Test(Test::Not(Box::new(t))),
        other => other,
    }
}

/// Applies an operator with two operands: see [`binary`].
pub fn apply_binary(op: BinaryOp, l: Scalar, r: Scalar) -> (o: Outcome)
    ensures
        o == binary(op, l, r),
{
    match op {
        BinaryOp::Add | BinaryOp::Sub | BinaryOp::Mul | BinaryOp::Div | BinaryOp::Rem
        | BinaryOp::Pow => arithmetic_of(op, l, r),
        BinaryOp::Lt | BinaryOp::Lte | BinaryOp::Gt | BinaryOp::Gte => ordering_of(op, l, r),
        BinaryOp::EqEq => equality_of(l, r),
        BinaryOp::Neq => negate(equality_of(l, r)),
        BinaryOp::And => Outcome::Value(Scalar::Bool(is_truthy(l) && is_truthy(r))),
        BinaryOp::Or => Outcome::Value(Scalar::Bool(is_truthy(l) || is_truthy(r))),
    }
}

/// The number of arguments that a native function takes.
pub fn arity_of(f: Native) -> (n: usize)
    ensures
        n == arity(f),
{
    match f {
        Native::Gcd | Native::Lcm | Native::Min | Native::Max => 2,
        Native::Clamp => 3,
        _ => 1,
    }
}

fn call_one(f: Native, x: Scalar) -> (o: Outcome)
    ensures
        o == native_one(f, x),
{
    match f {
        Native::Abs => match x {
            Scalar::Int(n) => int_result(abs_u64(n as i64) as i64),
            Scalar::Float(bits) => Outcome::Real(app(RealFn::Abs, Real::Bits(bits))),
            _ => Outcome::Failed(Failure::WrongOperandKind),
        },
        Native::Floor => round_with(RealFn::Floor, x),
        Native::Ceil => round_with(RealFn::Ceil, x),
        Native::Round => round_with(RealFn::Round, x),
        Native::Trunc => round_with(RealFn::Trunc, x),
        Native::Fract => real_with(RealFn::Fract, x),
        Native::Sqrt => real_with(RealFn::Sqrt, x),
        Native::Cbrt => real_with(RealFn::Cbrt, x),
        Native::Ln => real_with(RealFn::Ln, x),
        Native::Sin => real_with(RealFn::Sin, x),
        Native::Cos => real_with(RealFn::Cos, x),
        Native::Tan => real_with(RealFn::Tan, x),
        Native::Re => match x {
            Scalar::Complex(r, _) => Outcome::Value(Scalar::Float(r)),
            _ => Outcome::Failed(Failure::WrongOperandKind),
        },
        Native::Im => match x {
            Scalar::Complex(_, i) => Outcome::Value(Scalar::Float(i)),
            _ => Outcome::Failed(Failure::WrongOperandKind),
        },
        Native::Arg => match x {
            Scalar::Complex(r, i) => Outcome::Real(
                comb(RealOp::Atan2, Real::Bits(i), Real::Bits(r)),
            ),
            _ => Outcome::Failed(Failure::WrongOperandKind),
        },
        Native::Conj => match x {
            Scalar::Complex(r, i) => Outcome::Complex(
                Real::Bits(r),
                app(RealFn::Neg, Real::Bits(i)),
            ),
            _ => Outcome::Failed(Failure::WrongOperandKind),
        },
        Native::Cis => match x {
            Scalar::Float(bits) => Outcome::Complex(
                app(RealFn::Cos, Real::Bits(bits)),
                app(RealFn::Sin, Real::Bits(bits)),
            ),
            _ => Outcome::Failed(Failure::WrongOperandKind),
        },
        _ => Outcome::Value(Scalar::Int(0)),
    }
}

fn call_two(f: Native, x: Scalar, y: Scalar) -> (o: Outcome)
    ensures
        o == native_two(f, x, y),
{
    match (x, y) {
        (Scalar::Int(a), Scalar::Int(b)) => match f {
            Native::Gcd => int_result(gcd(a, b) as i64),
            Native::Lcm => {
                let g = gcd(a, b);
                if g == 0 {
                    Outcome::Failed(Failure::DivideByZero)
                } else {
                    int_result(div_trunc(mul_wide(a, b), g as i64))
                }
            },
            Native::Min => int_result(
                if a <= b {
                    a as i64
                } else {
                    b as i64
                },
            ),
            _ => int_result(
                if a >= b {
                    a as i64
                } else {
                    b as i64
                },
            ),
        },
        (Scalar::Float(a), Scalar::Float(b)) => match f {
            Native::Min => Outcome::Real(comb(RealOp::Min, Real::Bits(a), Real::Bits(b))),
            Native::Max => Outcome::Real(comb(RealOp::Max, Real::Bits(a), Real::Bits(b))),
            _ => Outcome::Failed(Failure::WrongOperandKind),
        },
        _ => Outcome::Failed(Failure::WrongOperandKind),
    }
}

fn call_clamp(x: Scalar, low: Scalar, high: Scalar) -> (o: Outcome)
    ensures
        o == native_clamp(x, low, high),
{
    match (x, low, high) {
        (Scalar::Int(a), Scalar::Int(b), Scalar::Int(c)) => {
            let floor = if a >= b {
                a
            } else {
                b
            };
            int_result(
                if floor <= c {
                    floor as i64
                } else {
                    c as i64
                },
            )
        },
        (Scalar::Float(a), Scalar::Float(b), Scalar::Float(c)) => Outcome::Real(
            comb(RealOp::Min, comb(RealOp::Max, Real::Bits(a), Real::Bits(b)), Real::Bits(c)),
        ),
        _ => Outcome::Failed(Failure::WrongOperandKind),
    }
}

/// Applies a native function to arguments: see [`native`].
pub fn call_native(f: Native, args: &Vec<Scalar>) -> (o: Outcome)
    ensures
        o == native(f, args@),
{
    let n = arity_of(f);
    if args.len() != n {
        Outcome::Failed(Failure::WrongArity)
    } else if n == 1 {
        call_one(f, args[0])
    } else if n == 2 {
        call_two(f, args[0], args[1])
    } else {
        call_clamp(args[0], args[1], args[2])
    }
}

} // verus!
