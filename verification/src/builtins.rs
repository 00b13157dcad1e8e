//! The built-in table: the constants and the native functions that every
//! interpreter, and every call of a function, starts with.

use crate::machine::{Interpreter, Machine, SpecControl};
use crate::numeric::Native;
use crate::scope::Scope;
use crate::value::{SpecValue, Value};
use vstd::prelude::*;

verus! {

/// The bit pattern of the circle ratio.
pub const PI: u64 = 0x4009_21FB_5444_2D18;

/// The bit pattern of twice the circle ratio.
pub const TAU: u64 = 0x4019_21FB_5444_2D18;

/// The bit pattern of Euler's number.
pub const E: u64 = 0x4005_BF0A_8B14_5769;

/// The bit pattern of the golden ratio.
pub const PHI: u64 = 0x3FF9_E377_9B97_F4A8;

/// The bit pattern of positive infinity.
pub const INFINITY: u64 = 0x7FF0_0000_0000_0000;

/// The bit pattern of 1.
pub const ONE: u64 = 0x3FF0_0000_0000_0000;

/// A scope with the constants and the native functions of mathematics added:
/// the circle ratio and its double, Euler's number, the golden ratio under
/// two names, infinity, the imaginary unit; rounding, roots, logarithm,
/// trigonometry, divisors, extremes, and the parts of complex numbers.
pub open spec fn with_math(scope: Map<Seq<char>, SpecValue>) -> Map<Seq<char>, SpecValue> {
    scope
        .insert("π"@, SpecValue::Float(PI))
        .insert("τ"@, SpecValue::Float(TAU))
        .insert("e"@, SpecValue::Float(E))
        .insert("𝜑"@, SpecValue::Float(PHI))
        .insert("𝜙"@, SpecValue::Float(PHI))
        .insert("∞"@, SpecValue::Float(INFINITY))
        .insert("i"@, SpecValue::Complex(0, ONE))
        .insert("abs"@, SpecValue::NativeFunction(Native::Abs))
        .insert("floor"@, SpecValue::NativeFunction(Native::Floor))
        .insert("ceil"@, SpecValue::NativeFunction(Native::Ceil))
        .insert("round"@, SpecValue::NativeFunction(Native::Round))
        .insert("trunc"@, SpecValue::NativeFunction(Native::Trunc))
        .insert("fract"@, SpecValue::NativeFunction(Native::Fract))
        .insert("sqrt"@, SpecValue::NativeFunction(Native::Sqrt))
        .insert("cbrt"@, SpecValue::NativeFunction(Native::Cbrt))
        .insert("ln"@, SpecValue::NativeFunction(Native::Ln))
        .insert("sin"@, SpecValue::NativeFunction(Native::Sin))
        .insert("cos"@, SpecValue::NativeFunction(Native::Cos))
        .insert("tan"@, SpecValue::NativeFunction(Native::Tan))
        .insert("gcd"@, SpecValue::NativeFunction(Native::Gcd))
        .insert("lcm"@, SpecValue::NativeFunction(Native::Lcm))
        .insert("min"@, SpecValue::NativeFunction(Native::Min))
        .insert("max"@, SpecValue::NativeFunction(Native::Max))
        .insert("clamp"@, SpecValue::NativeFunction(Native::Clamp))
        .insert("Re"@, SpecValue::NativeFunction(Native::Re))
        .insert("Im"@, SpecValue::NativeFunction(Native::Im))
        .insert("arg"@, SpecValue::NativeFunction(Native::Arg))
        .insert("phase"@, SpecValue::NativeFunction(Native::Arg))
        .insert("conj"@, SpecValue::NativeFunction(Native::Conj))
        .insert("cis"@, SpecValue::NativeFunction(Native::Cis))
}

/// A scope with the native function of output added.
pub open spec fn with_io(scope: Map<Seq<char>, SpecValue>) -> Map<Seq<char>, SpecValue> {
    scope.insert("print"@, SpecValue::NativeFunction(Native::Print))
}

/// The scope that every interpreter and every call starts with.
pub open spec fn base_scope() -> Map<Seq<char>, SpecValue> {
    with_io(with_math(Map::empty()))
}

/// Adds the constants and the native functions of mathematics to `scope`.
pub fn add_math(scope: &mut Scope)
    ensures
        final(scope)@ == with_math(old(scope)@),
{
    scope.set(String::from_str("π"), Value::Float(PI));
    scope.set(String::from_str("τ"), Value::Float(TAU));
    scope.set(String::from_str("e"), Value::Float(E));
    scope.set(String::from_str("𝜑"), Value::Float(PHI));
    scope.set(String::from_str("𝜙"), Value::Float(PHI));
    scope.set(String::from_str("∞"), Value::Float(INFINITY));
    scope.set(String::from_str("i"), Value::Complex(0, ONE));
    scope.set(String::from_str("abs"), Value::NativeFunction(Native::Abs));
    scope.set(String::from_str("floor"), Value::NativeFunction(Native::Floor));
    scope.set(String::from_str("ceil"), Value::NativeFunction(Native::Ceil));
    scope.set(String::from_str("round"), Value::NativeFunction(Native::Round));
    scope.set(String::from_str("trunc"), Value::NativeFunction(Native::Trunc));
    scope.set(String::from_str("fract"), Value::NativeFunction(Native::Fract));
    scope.set(String::from_str("sqrt"), Value::NativeFunction(Native::Sqrt));
    scope.set(String::from_str("cbrt"), Value::NativeFunction(Native::Cbrt));
    scope.set(String::from_str("ln"), Value::NativeFunction(Native::Ln));
    scope.set(String::from_str("sin"), Value::NativeFunction(Native::Sin));
    scope.set(String::from_str("cos"), Value::NativeFunction(Native::Cos));
    scope.set(String::from_str("tan"), Value::NativeFunction(Native::Tan));
    scope.set(String::from_str("gcd"), Value::NativeFunction(Native::Gcd));
    scope.set(String::from_str("lcm"), Value::NativeFunction(Native::Lcm));
    scope.set(String::from_str("min"), Value::NativeFunction(Native::Min));
    scope.set(String::from_str("max"), Value::NativeFunction(Native::Max));
    scope.set(String::from_str("clamp"), Value::NativeFunction(Native::Clamp));
    scope.set(String::from_str("Re"), Value::NativeFunction(Native::Re));
    scope.set(String::from_str("Im"), Value::NativeFunction(Native::Im));
    scope.set(String::from_str("arg"), Value::NativeFunction(Native::Arg));
    scope.set(String::from_str("phase"), Value::NativeFunction(Native::Arg));
    scope.set(String::from_str("conj"), Value::NativeFunction(Native::Conj));
    scope.set(String::from_str("cis"), Value::NativeFunction(Native::Cis));
}

/// Adds the native function of output to `scope`.
pub fn add_io(scope: &mut Scope)
    ensures
        final(scope)@ == with_io(old(scope)@),
{
    scope.set(String::from_str("print"), Value::NativeFunction(Native::Print));
}

/// The scope that every interpreter and every call starts with.
pub fn base() -> (scope: Scope)
    ensures
        scope@ == base_scope(),
{
    let mut scope = Scope::new();
    add_math(&mut scope);
    add_io(&mut scope);
    scope
}

impl Interpreter {
    /// An interpreter whose only scope holds the built-in table, with nothing to do.
    pub fn new() -> (interpreter: Interpreter)
        ensures
            interpreter@ == (Machine {
                scopes: seq![base_scope()],
                stack: Seq::empty(),
                control: SpecControl::Done(SpecValue::Int(0)),
            }),
    {
        Interpreter::with_scope(base())
    }

    /// Adds the constants and the native functions of mathematics to the current scope.
    pub fn math(&mut self)
        requires
            old(self)@.wf(),
        ensures
            final(self)@ == old(self)@.rescoped(with_math(old(self)@.scope())),
    {
        let mut scope = Scope::new();
        self.swap_scope(&mut scope);
        add_math(&mut scope);
        self.swap_scope(&mut scope);
        assert(self@.scopes =~= old(self)@.rescoped(with_math(old(self)@.scope())).scopes);
    }

    /// Adds the native function of output to the current scope.
    pub fn io(&mut self)
        requires
            old(self)@.wf(),
        ensures
            final(self)@ == old(self)@.rescoped(with_io(old(self)@.scope())),
    {
        let mut scope = Scope::new();
        self.swap_scope(&mut scope);
        add_io(&mut scope);
        self.swap_scope(&mut scope);
        assert(self@.scopes =~= old(self)@.rescoped(with_io(old(self)@.scope())).scopes);
    }
}

impl Default for Interpreter {
    fn default() -> (interpreter: Interpreter)
        ensures
            interpreter@ == (Machine {
                scopes: seq![base_scope()],
                stack: Seq::empty(),
                control: SpecControl::Done(SpecValue::Int(0)),
            }),
    {
        Interpreter::new()
    }
}

} // verus!
