//! Precedence: how the grammar reads signs, powers, roots, and numbers that
//! stand side by side.  Each law is about a program of one statement, whose
//! tokens are given by their kinds.

use crate::error::SpecError;
use crate::grammar::{kind, newlines, parse_program};
use crate::node::{BinaryOp, SpecNode, UnaryOp};
use crate::token::{SpecToken, SpecTokenType, Symbol};
use crate::unfold::{
    unfold_parse_and, unfold_parse_arith, unfold_parse_atom, unfold_parse_call,
    unfold_parse_comp, unfold_parse_expr, unfold_parse_factor, unfold_parse_more_statements,
    unfold_parse_not, unfold_parse_or, unfold_parse_postfix, unfold_parse_power,
    unfold_parse_prefix, unfold_parse_statement, unfold_parse_statements, unfold_parse_term,
};
use vstd::prelude::*;

verus! {

/// `node` as an operand.
pub open spec fn boxed(node: SpecNode) -> Box<SpecNode> {
    Box::new(node)
}

/// `base ^ exponent`.
pub open spec fn power_of(base: SpecNode, exponent: SpecNode) -> SpecNode {
    SpecNode::Binary(boxed(base), BinaryOp::Pow, boxed(exponent))
}

/// Whether a program is read as the one statement `node`.
pub open spec fn reads_as(t: Seq<SpecToken>, node: SpecNode) -> bool {
    parse_program(t) == Ok::<SpecNode, SpecError>(SpecNode::Statements(seq![node]))
}

/// The sign is outside the power: `-a^b` is `-(a^b)`.
pub proof fn lemma_sign_outside_power(t: Seq<SpecToken>, a: i32, b: i32)
    requires
        t.len() == 5,
        kind(t, 0) == SpecTokenType::Symbol(Symbol::Minus),
        kind(t, 1) == SpecTokenType::Int(a),
        kind(t, 2) == SpecTokenType::Symbol(Symbol::Carrot),
        kind(t, 3) == SpecTokenType::Int(b),
        kind(t, 4) == SpecTokenType::EOF,
    ensures
        reads_as(
            t,
            SpecNode::Unary(UnaryOp::Neg, boxed(power_of(SpecNode::Int(a), SpecNode::Int(b)))),
        ),
{
    reveal_with_fuel(newlines, 2);
    unfold_parse_statements(t, 0);
    unfold_parse_statement(t, 0);
    unfold_parse_expr(t, 0);
    unfold_parse_or(t, 0);
    unfold_parse_and(t, 0);
    unfold_parse_not(t, 0);
    unfold_parse_comp(t, 0);
    unfold_parse_arith(t, 0);
    unfold_parse_term(t, 0);
    unfold_parse_factor(t, 0);
    unfold_parse_factor(t, 1);
    unfold_parse_power(t, 1);
    unfold_parse_prefix(t, 1);
    unfold_parse_postfix(t, 1);
    unfold_parse_call(t, 1);
    unfold_parse_atom(t, 1);
    unfold_parse_factor(t, 3);
    unfold_parse_power(t, 3);
    unfold_parse_prefix(t, 3);
    unfold_parse_postfix(t, 3);
    unfold_parse_call(t, 3);
    unfold_parse_atom(t, 3);
    unfold_parse_more_statements(t, 4);
}

/// An exponent may have a sign: `a^-b` is `a^(-b)`.
pub proof fn lemma_sign_inside_exponent(t: Seq<SpecToken>, a: i32, b: i32)
    requires
        t.len() == 5,
        kind(t, 0) == SpecTokenType::Int(a),
        kind(t, 1) == SpecTokenType::Symbol(Symbol::Carrot),
        kind(t, 2) == SpecTokenType::Symbol(Symbol::Minus),
        kind(t, 3) == SpecTokenType::Int(b),
        kind(t, 4) == SpecTokenType::EOF,
    ensures
        reads_as(
            t,
            power_of(SpecNode::Int(a), SpecNode::Unary(UnaryOp::Neg, boxed(SpecNode::Int(b)))),
        ),
{
    reveal_with_fuel(newlines, 2);
    unfold_parse_statements(t, 0);
    unfold_parse_statement(t, 0);
    unfold_parse_expr(t, 0);
    unfold_parse_or(t, 0);
    unfold_parse_and(t, 0);
    unfold_parse_not(t, 0);
    unfold_parse_comp(t, 0);
    unfold_parse_arith(t, 0);
    unfold_parse_term(t, 0);
    unfold_parse_factor(t, 0);
    unfold_parse_power(t, 0);
    unfold_parse_prefix(t, 0);
    unfold_parse_postfix(t, 0);
    unfold_parse_call(t, 0);
    unfold_parse_atom(t, 0);
    unfold_parse_factor(t, 2);
    unfold_parse_factor(t, 3);
    unfold_parse_power(t, 3);
    unfold_parse_prefix(t, 3);
    unfold_parse_postfix(t, 3);
    unfold_parse_call(t, 3);
    unfold_parse_atom(t, 3);
    unfold_parse_more_statements(t, 4);
}

/// The power is right-associative: `a^b^c` is `a^(b^c)`.
pub proof fn lemma_power_right_associative(t: Seq<SpecToken>, a: i32, b: i32, c: i32)
    requires
        t.len() == 6,
        kind(t, 0) == SpecTokenType::Int(a),
        kind(t, 1) == SpecTokenType::Symbol(Symbol::Carrot),
        kind(t, 2) == SpecTokenType::Int(b),
        kind(t, 3) == SpecTokenType::Symbol(Symbol::Carrot),
        kind(t, 4) == SpecTokenType::Int(c),
        kind(t, 5) == SpecTokenType::EOF,
    ensures
        reads_as(
            t,
            power_of(SpecNode::Int(a), power_of(SpecNode::Int(b), SpecNode::Int(c))),
        ),
{
    reveal_with_fuel(newlines, 2);
    unfold_parse_statements(t, 0);
    unfold_parse_statement(t, 0);
    unfold_parse_expr(t, 0);
    unfold_parse_or(t, 0);
    unfold_parse_and(t, 0);
    unfold_parse_not(t, 0);
    unfold_parse_comp(t, 0);
    unfold_parse_arith(t, 0);
    unfold_parse_term(t, 0);
    unfold_parse_factor(t, 0);
    unfold_parse_power(t, 0);
    unfold_parse_prefix(t, 0);
    unfold_parse_postfix(t, 0);
    unfold_parse_call(t, 0);
    unfold_parse_atom(t, 0);
    unfold_parse_factor(t, 2);
    unfold_parse_power(t, 2);
    unfold_parse_prefix(t, 2);
    unfold_parse_postfix(t, 2);
    unfold_parse_call(t, 2);
    unfold_parse_atom(t, 2);
    unfold_parse_factor(t, 4);
    unfold_parse_power(t, 4);
    unfold_parse_prefix(t, 4);
    unfold_parse_postfix(t, 4);
    unfold_parse_call(t, 4);
    unfold_parse_atom(t, 4);
    unfold_parse_more_statements(t, 5);
}

/// A root binds tighter than the power: `√a^b` is `(√a)^b`.
pub proof fn lemma_root_tighter_than_power(t: Seq<SpecToken>, a: i32, b: i32)
    requires
        t.len() == 5,
        kind(t, 0) == SpecTokenType::Symbol(Symbol::Sqrt),
        kind(t, 1) == SpecTokenType::Int(a),
        kind(t, 2) == SpecTokenType::Symbol(Symbol::Carrot),
        kind(t, 3) == SpecTokenType::Int(b),
        kind(t, 4) == SpecTokenType::EOF,
    ensures
        reads_as(
            t,
            power_of(SpecNode::Unary(UnaryOp::Sqrt, boxed(SpecNode::Int(a))), SpecNode::Int(b)),
        ),
{
    reveal_with_fuel(newlines, 2);
    unfold_parse_statements(t, 0);
    unfold_parse_statement(t, 0);
    unfold_parse_expr(t, 0);
    unfold_parse_or(t, 0);
    unfold_parse_and(t, 0);
    unfold_parse_not(t, 0);
    unfold_parse_comp(t, 0);
    unfold_parse_arith(t, 0);
    unfold_parse_term(t, 0);
    unfold_parse_factor(t, 0);
    unfold_parse_power(t, 0);
    unfold_parse_prefix(t, 0);
    unfold_parse_prefix(t, 1);
    unfold_parse_postfix(t, 1);
    unfold_parse_call(t, 1);
    unfold_parse_atom(t, 1);
    unfold_parse_factor(t, 3);
    unfold_parse_power(t, 3);
    unfold_parse_prefix(t, 3);
    unfold_parse_postfix(t, 3);
    unfold_parse_call(t, 3);
    unfold_parse_atom(t, 3);
    unfold_parse_more_statements(t, 4);
}

/// Two numbers side by side are a product: `a b` is `a * b`.
pub proof fn lemma_numbers_side_by_side(t: Seq<SpecToken>, a: i32, b: i32)
    requires
        t.len() == 3,
        kind(t, 0) == SpecTokenType::Int(a),
        kind(t, 1) == SpecTokenType::Int(b),
        kind(t, 2) == SpecTokenType::EOF,
    ensures
        reads_as(
            t,
            SpecNode::Binary(boxed(SpecNode::Int(a)), BinaryOp::Mul, boxed(SpecNode::Int(b))),
        ),
{
    reveal_with_fuel(newlines, 2);
    unfold_parse_statements(t, 0);
    unfold_parse_statement(t, 0);
    unfold_parse_expr(t, 0);
    unfold_parse_or(t, 0);
    unfold_parse_and(t, 0);
    unfold_parse_not(t, 0);
    unfold_parse_comp(t, 0);
    unfold_parse_arith(t, 0);
    unfold_parse_term(t, 0);
    unfold_parse_term(t, 1);
    unfold_parse_factor(t, 1);
    unfold_parse_power(t, 1);
    unfold_parse_prefix(t, 1);
    unfold_parse_postfix(t, 1);
    unfold_parse_call(t, 1);
    unfold_parse_atom(t, 1);
    unfold_parse_more_statements(t, 2);
}

/// A number before a name multiplies it: `a x` is `a * x`.
pub proof fn lemma_number_before_name(t: Seq<SpecToken>, a: i32, x: Seq<char>)
    requires
        t.len() == 3,
        kind(t, 0) == SpecTokenType::Int(a),
        kind(t, 1) == SpecTokenType::Identifier(x),
        kind(t, 2) == SpecTokenType::EOF,
    ensures
        reads_as(
            t,
            SpecNode::Binary(boxed(SpecNode::Int(a)), BinaryOp::Mul, boxed(SpecNode::Identifier(x))),
        ),
{
    reveal_with_fuel(newlines, 2);
    unfold_parse_statements(t, 0);
    unfold_parse_statement(t, 0);
    unfold_parse_expr(t, 0);
    unfold_parse_or(t, 0);
    unfold_parse_and(t, 0);
    unfold_parse_not(t, 0);
    unfold_parse_comp(t, 0);
    unfold_parse_arith(t, 0);
    unfold_parse_term(t, 0);
    unfold_parse_term(t, 1);
    unfold_parse_factor(t, 1);
    unfold_parse_power(t, 1);
    unfold_parse_prefix(t, 1);
    unfold_parse_postfix(t, 1);
    unfold_parse_call(t, 1);
    unfold_parse_atom(t, 1);
    unfold_parse_more_statements(t, 2);
}

} // verus!
