//! Values: numbers, truth values and functions.

use crate::error::{SpecError, SpectreError};
use crate::node::{clone_names, names_view, BinaryOp, Node, SpecNode};
use crate::numeric::{Failure, Native, Scalar};
use vstd::prelude::*;

verus! {

/// A value.  A real is given by its IEEE 754 bit pattern; a complex number
/// by those of its real and imaginary parts.  A function has a name, the
/// names of its parameters and a body; it holds no bindings.
#[derive(Debug, PartialEq)]
pub enum Value {
    Int(i32),
    Float(u64),
    Bool(bool),
    Complex(u64, u64),
    Function(String, Vec<String>, Box<Node>),
    NativeFunction(Native),
}

/// The mathematical content of a [`Value`].
pub enum SpecValue {
    Int(i32),
    Float(u64),
    Bool(bool),
    Complex(u64, u64),
    Function(Seq<char>, Seq<Seq<char>>, SpecNode),
    NativeFunction(Native),
}

impl View for Value {
    type V = SpecValue;

    open spec fn view(&self) -> SpecValue {
        match self {
            Value::Int(n) => SpecValue::Int(*n),
            Value::Float(bits) => SpecValue::Float(*bits),
            Value::Bool(b) => SpecValue::Bool(*b),
            Value::Complex(re, im) => SpecValue::Complex(*re, *im),
            Value::Function(name, params, body) => SpecValue::Function(
                name@,
                names_view(params@),
                body@,
            ),
            Value::NativeFunction(f) => SpecValue::NativeFunction(*f),
        }
    }
}

/// The views of a list of values.
pub open spec fn values_view(values: Seq<Value>) -> Seq<SpecValue> {
    Seq::new(values.len(), |i: int| values[i]@)
}

/// Why an evaluation has no result.
#[derive(Debug, PartialEq, Clone)]
pub enum EvalError {
    /// A name that is not bound in the scope was read or called.
    UndefinedName(String),
    /// A value that is no function was called.
    NotAFunction(String),
    /// A native function was called with the wrong number of arguments.
    WrongArity,
    /// An operand is of a kind that the operation does not take.
    WrongOperandKind,
    /// An integer was divided by zero.
    DivideByZero,
    /// An integer result does not fit in 32 bits.
    Overflow,
}

/// The mathematical content of an [`EvalError`].
pub enum SpecEvalError {
    UndefinedName(Seq<char>),
    NotAFunction(Seq<char>),
    WrongArity,
    WrongOperandKind,
    DivideByZero,
    Overflow,
}

impl View for EvalError {
    type V = SpecEvalError;

    open spec fn view(&self) -> SpecEvalError {
        match self {
            EvalError::UndefinedName(name) => SpecEvalError::UndefinedName(name@),
            EvalError::NotAFunction(name) => SpecEvalError::NotAFunction(name@),
            EvalError::WrongArity => SpecEvalError::WrongArity,
            EvalError::WrongOperandKind => SpecEvalError::WrongOperandKind,
            EvalError::DivideByZero => SpecEvalError::DivideByZero,
            EvalError::Overflow => SpecEvalError::Overflow,
        }
    }
}

/// The error of a failed operation.
pub open spec fn failure_error(f: Failure) -> SpecEvalError {
    match f {
        Failure::WrongOperandKind => SpecEvalError::WrongOperandKind,
        Failure::WrongArity => SpecEvalError::WrongArity,
        Failure::DivideByZero => SpecEvalError::DivideByZero,
        Failure::Overflow => SpecEvalError::Overflow,
    }
}

/// The record of an evaluation error: a message and a reason.  The tree
/// holds no positions, so the range is empty.
pub open spec fn report_of(e: SpecEvalError) -> SpecError {
    match e {
        SpecEvalError::UndefinedName(name) => SpecError {
            msg: "undefined name"@,
            reason: "'"@ + name + "' is not defined"@,
            start: 0,
            end: 0,
        },
        SpecEvalError::NotAFunction(name) => SpecError {
            msg: "not a function"@,
            reason: "'"@ + name + "' is not a function"@,
            start: 0,
            end: 0,
        },
        SpecEvalError::WrongArity => SpecError {
            msg: "wrong number of arguments"@,
            reason: "the function takes another number of arguments"@,
            start: 0,
            end: 0,
        },
        SpecEvalError::WrongOperandKind => SpecError {
            msg: "wrong operand kind"@,
            reason: "the operation does not take an operand of this kind"@,
            start: 0,
            end: 0,
        },
        SpecEvalError::DivideByZero => SpecError {
            msg: "division by zero"@,
            reason: "an integer was divided by zero"@,
            start: 0,
            end: 0,
        },
        SpecEvalError::Overflow => SpecError {
            msg: "integer overflow"@,
            reason: "the result does not fit in a 32-bit integer"@,
            start: 0,
            end: 0,
        },
    }
}

/// The scalar that a value is, if it is one.
pub open spec fn scalar_of(v: SpecValue) -> Option<Scalar> {
    match v {
        SpecValue::Int(n) => Some(Scalar::Int(n)),
        SpecValue::Float(bits) => Some(Scalar::Float(bits)),
        SpecValue::Bool(b) => Some(Scalar::Bool(b)),
        SpecValue::Complex(re, im) => Some(Scalar::Complex(re, im)),
        _ => None,
    }
}

/// A scalar as a value.
pub open spec fn scalar_value(s: Scalar) -> SpecValue {
    match s {
        Scalar::Int(n) => SpecValue::Int(n),
        Scalar::Float(bits) => SpecValue::Float(bits),
        Scalar::Bool(b) => SpecValue::Bool(b),
        Scalar::Complex(re, im) => SpecValue::Complex(re, im),
    }
}

/// Truthiness of a value: that of a scalar; a function is true.
pub open spec fn value_truthy(v: SpecValue) -> bool {
    match scalar_of(v) {
        Some(s) => crate::numeric::truthy(s),
        None => true,
    }
}

/// Whether an operator rewrites a function when its other operand is an
/// integer or a real: product, quotient, remainder and power do.
pub open spec fn rewrites(op: BinaryOp) -> bool {
    op == BinaryOp::Mul || op == BinaryOp::Div || op == BinaryOp::Rem || op == BinaryOp::Pow
}

/// The literal node of an integer or a real.
pub open spec fn constant(v: SpecValue) -> Option<SpecNode> {
    match v {
        SpecValue::Int(n) => Some(SpecNode::Int(n)),
        SpecValue::Float(bits) => Some(SpecNode::Real(bits)),
        _ => None,
    }
}

/// The function whose body combines the body of a function with a constant:
/// the function keeps its name and its parameters, and nothing is evaluated.
pub open spec fn rewritten(op: BinaryOp, l: SpecValue, r: SpecValue) -> Option<SpecValue> {
    if !rewrites(op) {
        None
    } else {
        match (l, r) {
            (SpecValue::Function(name, params, body), _) => match constant(r) {
                Some(c) => Some(
                    SpecValue::Function(
                        name,
                        params,
                        SpecNode::Binary(Box::new(body), op, Box::new(c)),
                    ),
                ),
                None => None,
            },
            (_, SpecValue::Function(name, params, body)) => match constant(l) {
                Some(c) => Some(
                    SpecValue::Function(
                        name,
                        params,
                        SpecNode::Binary(Box::new(c), op, Box::new(body)),
                    ),
                ),
                None => None,
            },
            _ => None,
        }
    }
}

impl Clone for Value {
    fn clone(&self) -> (r: Self)
        ensures
            r@ == self@,
    {
        match self {
            Value::Int(n) => Value::Int(*n),
            Value::Float(bits) => Value::Float(*bits),
            Value::Bool(b) => Value::Bool(*b),
            Value::Complex(re, im) => Value::Complex(*re, *im),
            Value::Function(name, params, body) => Value::Function(
                name.clone(),
                clone_names(params),
                Box::new((&**body).clone()),
            ),
            Value::NativeFunction(f) => Value::NativeFunction(*f),
        }
    }
}

impl Value {
    /// The scalar that this value is, if it is one.
    pub fn scalar(&self) -> (r: Option<Scalar>)
        ensures
            r == scalar_of(self@),
    {
        match self {
            Value::Int(n) => Some(Scalar::Int(*n)),
            Value::Float(bits) => Some(Scalar::Float(*bits)),
            Value::Bool(b) => Some(Scalar::Bool(*b)),
            Value::Complex(re, im) => Some(Scalar::Complex(*re, *im)),
            _ => None,
        }
    }

    /// A scalar as a value.
    pub fn from_scalar(s: Scalar) -> (v: Value)
        ensures
            v@ == scalar_value(s),
    {
        match s {
            Scalar::Int(n) => Value::Int(n),
            Scalar::Float(bits) => Value::Float(bits),
            Scalar::Bool(b) => Value::Bool(b),
            Scalar::Complex(re, im) => Value::Complex(re, im),
        }
    }

    /// Truthiness: see [`value_truthy`].
    pub fn truthy(&self) -> (b: bool)
        ensures
            b == value_truthy(self@),
    {
        match self.scalar() {
            Some(s) => crate::numeric::is_truthy(s),
            None => true,
        }
    }
}

impl EvalError {
    /// The record of this error, in the shape of the errors of the lexer and the parser.
    pub fn report(&self) -> (r: SpectreError)
        ensures
            r@ == report_of(self@),
    {
        match self {
            EvalError::UndefinedName(name) => {
                let mut reason = String::from_str("'");
                reason.append(name.as_str());
                reason.append("' is not defined");
                SpectreError::new(String::from_str("undefined name"), reason, 0, 0)
            },
            EvalError::NotAFunction(name) => {
                let mut reason = String::from_str("'");
                reason.append(name.as_str());
                reason.append("' is not a function");
                SpectreError::new(String::from_str("not a function"), reason, 0, 0)
            },
            EvalError::WrongArity => SpectreError::new(
                String::from_str("wrong number of arguments"),
                String::from_str("the function takes another number of arguments"),
                0,
                0,
            ),
            EvalError::WrongOperandKind => SpectreError::new(
                String::from_str("wrong operand kind"),
                String::from_str("the operation does not take an operand of this kind"),
                0,
                0,
            ),
            EvalError::DivideByZero => SpectreError::new(
                String::from_str("division by zero"),
                String::from_str("an integer was divided by zero"),
                0,
                0,
            ),
            EvalError::Overflow => SpectreError::new(
                String::from_str("integer overflow"),
                String::from_str("the result does not fit in a 32-bit integer"),
                0,
                0,
            ),
        }
    }

    /// The error of a failed operation.
    pub fn from_failure(f: Failure) -> (e: EvalError)
        ensures
            e@ == failure_error(f),
    {
        match f {
            Failure::WrongOperandKind => EvalError::WrongOperandKind,
            Failure::WrongArity => EvalError::WrongArity,
            Failure::DivideByZero => EvalError::DivideByZero,
            Failure::Overflow => EvalError::Overflow,
        }
    }
}

/// The literal node of an integer or a real.
fn constant_node(v: &Value) -> (r: Option<Node>)
    ensures
        match constant(v@) {
            Some(c) => r matches Some(n) && n@ == c,
            None => r is None,
        },
{
    match v {
        Value::Int(n) => Some(Node::Int(*n)),
        Value::Float(bits) => Some(Node::Real(*bits)),
        _ => None,
    }
}

/// Rewrites a function that is an operand of a product, quotient, remainder
/// or power whose other operand is an integer or a real: see [`rewritten`].
/// Where the operands are not such, they are given back.
pub fn rewrite(op: BinaryOp, l: Value, r: Value) -> (out: Result<Value, (Value, Value)>)
    ensures
        match rewritten(op, l@, r@) {
            Some(f) => out matches Ok(v) && v@ == f,
            None => out matches Err(pair) && pair.0@ == l@ && pair.1@ == r@,
        },
{
    let rewrites = match op {
        BinaryOp::Mul | BinaryOp::Div | BinaryOp::Rem | BinaryOp::Pow => true,
        _ => false,
    };
    if !rewrites {
        return Err((l, r));
    }
    match (l, r) {
        (Value::Function(name, params, body), r) => match constant_node(&r) {
            Some(c) => Ok(
                Value::Function(name, params, Box::new(Node::Binary(body, op, Box::new(c)))),
            ),
            None => Err((Value::Function(name, params, body), r)),
        },
        (l, Value::Function(name, params, body)) => match constant_node(&l) {
            Some(c) => Ok(
                Value::Function(name, params, Box::new(Node::Binary(Box::new(c), op, body))),
            ),
            None => Err((l, Value::Function(name, params, body))),
        },
        (l, r) => Err((l, r)),
    }
}

} // verus!
