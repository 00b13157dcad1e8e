//! The grammar: what the parser makes of a sequence of tokens.
//!
//! Each level of the precedence ladder is a function from the tokens and a
//! position to the node read there (or the error) and the number of tokens
//! used.  A position past the last token reads as the end marker.

use crate::error::SpecError;
use crate::glyphs::{is_digit, is_number_char};
use crate::node::{BinaryOp, SpecNode, UnaryOp};
use crate::token::{SpecToken, SpecTokenType, Symbol};
use vstd::prelude::*;

verus! {

/// What reading one construct gives: the node or the error, and the number
/// of tokens used (0 with an error).
pub struct Parsed {
    pub result: Result<SpecNode, SpecError>,
    pub used: nat,
}

/// What reading a list of constructs gives.
pub struct ParsedList {
    pub result: Result<Seq<SpecNode>, SpecError>,
    pub used: nat,
}

/// The end marker that stands for everything past the last token.
pub open spec fn end_marker() -> SpecToken {
    SpecToken { ty: SpecTokenType::EOF, start: 0, end: 0 }
}

/// The token at position `p`.
pub open spec fn token(t: Seq<SpecToken>, p: int) -> SpecToken {
    if 0 <= p < t.len() {
        t[p]
    } else {
        end_marker()
    }
}

/// The kind of the token at position `p`.
pub open spec fn kind(t: Seq<SpecToken>, p: int) -> SpecTokenType {
    token(t, p).ty
}

/// Whether the token at position `p` is the symbol `s`.
pub open spec fn at_symbol(t: Seq<SpecToken>, p: int, s: Symbol) -> bool {
    kind(t, p) == SpecTokenType::Symbol(s)
}

/// The number of tokens from position `p` to the end.
pub open spec fn remaining(t: Seq<SpecToken>, p: int) -> nat {
    if p <= t.len() {
        (t.len() - p) as nat
    } else {
        0
    }
}

/// The number of separators in a row from position `p` on.
pub open spec fn newlines(t: Seq<SpecToken>, p: int) -> nat
    decreases remaining(t, p),
{
    if 0 <= p < t.len() && t[p].ty is Newline {
        1 + newlines(t, p + 1)
    } else {
        0
    }
}

/// Whether a token kind is a numeric literal.
pub open spec fn is_number(ty: SpecTokenType) -> bool {
    ty is Int || ty is Float
}

/// The token kinds before which a number stands alone: operators,
/// closers and separators.  Before any other token a number multiplies what follows.
pub open spec fn ends_operand(ty: SpecTokenType) -> bool {
    match ty {
        SpecTokenType::Superscript(_) => true,
        SpecTokenType::Newline => true,
        SpecTokenType::EOF => true,
        SpecTokenType::Symbol(s) => match s {
            Symbol::Plus
            | Symbol::Minus
            | Symbol::Star
            | Symbol::Dot
            | Symbol::Cross
            | Symbol::Slash
            | Symbol::Divide
            | Symbol::Percent
            | Symbol::Carrot
            | Symbol::Exclamation
            | Symbol::Degree
            | Symbol::Not
            | Symbol::EqEq
            | Symbol::Neq
            | Symbol::Lt
            | Symbol::Lte
            | Symbol::Gt
            | Symbol::Gte
            | Symbol::And
            | Symbol::Or
            | Symbol::RightParen
            | Symbol::LeftBrace
            | Symbol::RightBrace
            | Symbol::Pipe
            | Symbol::RightFloor
            | Symbol::RightCeil
            | Symbol::Comma => true,
            _ => false,
        },
        _ => false,
    }
}

/// The comparison that a symbol denotes, if it is one.
pub open spec fn comparison(ty: SpecTokenType) -> Option<BinaryOp> {
    match ty {
        SpecTokenType::Symbol(Symbol::EqEq) => Some(BinaryOp::EqEq),
        SpecTokenType::Symbol(Symbol::Neq) => Some(BinaryOp::Neq),
        SpecTokenType::Symbol(Symbol::Lt) => Some(BinaryOp::Lt),
        SpecTokenType::Symbol(Symbol::Lte) => Some(BinaryOp::Lte),
        SpecTokenType::Symbol(Symbol::Gt) => Some(BinaryOp::Gt),
        SpecTokenType::Symbol(Symbol::Gte) => Some(BinaryOp::Gte),
        _ => None,
    }
}

/// The operator of a multiplication, division or remainder symbol.
pub open spec fn multiplicative(ty: SpecTokenType) -> Option<BinaryOp> {
    match ty {
        SpecTokenType::Symbol(Symbol::Star) => Some(BinaryOp::Mul),
        SpecTokenType::Symbol(Symbol::Dot) => Some(BinaryOp::Mul),
        SpecTokenType::Symbol(Symbol::Cross) => Some(BinaryOp::Mul),
        SpecTokenType::Symbol(Symbol::Slash) => Some(BinaryOp::Div),
        SpecTokenType::Symbol(Symbol::Divide) => Some(BinaryOp::Div),
        SpecTokenType::Symbol(Symbol::Percent) => Some(BinaryOp::Rem),
        _ => None,
    }
}

/// The operator of a root symbol.
pub open spec fn root(ty: SpecTokenType) -> Option<UnaryOp> {
    match ty {
        SpecTokenType::Symbol(Symbol::Sqrt) => Some(UnaryOp::Sqrt),
        SpecTokenType::Symbol(Symbol::Cbrt) => Some(UnaryOp::Cbrt),
        SpecTokenType::Symbol(Symbol::Fort) => Some(UnaryOp::Fort),
        _ => None,
    }
}

/// The number of dots in a text.
pub open spec fn dot_count(text: Seq<char>) -> nat
    decreases text.len(),
{
    if text.len() == 0 {
        0
    } else {
        dot_count(text.drop_last()) + if text.last() == '.' {
            1nat
        } else {
            0nat
        }
    }
}

/// Whether a text is a real literal: a digit, then digits and exactly one dot.
pub open spec fn is_real_literal(text: Seq<char>) -> bool {
    &&& text.len() >= 1
    &&& is_digit(text[0])
    &&& forall|k: int| 0 <= k < text.len() ==> is_number_char(#[trigger] text[k])
    &&& dot_count(text) == 1
}

/// A failed reading.
pub open spec fn failed(e: SpecError) -> Parsed {
    Parsed { result: Err(e), used: 0 }
}

/// A reading of `node` that used `used` tokens.
pub open spec fn read(node: SpecNode, used: nat) -> Parsed {
    Parsed { result: Ok(node), used }
}

/// The error for a token that was expected at position `p` and is not there.
/// Its range runs from `start` to the end of the token at `p`.
pub open spec fn expected(t: Seq<SpecToken>, p: int, reason: Seq<char>, start: int) -> SpecError {
    SpecError { msg: "expected token"@, reason, start, end: token(t, p).end }
}

/// The node of the numeric literal at position `p`.  A real literal that is
/// not a digit followed by digits and exactly one dot is an error.
pub open spec fn literal(t: Seq<SpecToken>, p: int) -> Result<SpecNode, SpecError> {
    match kind(t, p) {
        SpecTokenType::Float(text) => if is_real_literal(text) {
            Ok(SpecNode::Float(text))
        } else {
            Err(
                SpecError {
                    msg: "invalid number"@,
                    reason: "'"@ + text + "' is not a number with one decimal point"@,
                    start: token(t, p).start,
                    end: token(t, p).end,
                },
            )
        },
        SpecTokenType::Int(n) => Ok(SpecNode::Int(n)),
        _ => Ok(SpecNode::Eof),
    }
}

/// The names of the parameters of a function definition: each must be a bare identifier.
pub open spec fn parameter_names(params: Seq<SpecNode>) -> Option<Seq<Seq<char>>> {
    if forall|i: int| 0 <= i < params.len() ==> #[trigger] params[i] is Identifier {
        Some(Seq::new(params.len(), |i: int| params[i]->Identifier_0))
    } else {
        None
    }
}

/// A block of statements from position `p`: separators, one statement, then
/// further statements, each after at least one separator.
#[verifier::opaque]
pub open spec fn parse_statements(t: Seq<SpecToken>, p: int) -> Parsed
    decreases t, remaining(t, p), 22int,
{
    let skipped = newlines(t, p);
    let first = parse_statement(t, p + skipped);
    match first.result {
        Err(e) => failed(e),
        Ok(node) => {
            let rest = parse_more_statements(t, p + skipped + first.used);
            match rest.result {
                Err(e) => failed(e),
                Ok(nodes) => read(
                    SpecNode::Statements(seq![node] + nodes),
                    skipped + first.used + rest.used,
                ),
            }
        },
    }
}

/// The statements after the first of a block.  The block ends where no
/// separator follows, before a closing brace, or with a statement that is
/// the end marker.
#[verifier::opaque]
pub open spec fn parse_more_statements(t: Seq<SpecToken>, p: int) -> ParsedList
    decreases t, remaining(t, p), 21int,
{
    let skipped = newlines(t, p);
    if skipped == 0 || at_symbol(t, p + skipped, Symbol::RightBrace) {
        ParsedList { result: Ok(seq![]), used: skipped }
    } else {
        let next = parse_statement(t, p + skipped);
        match next.result {
            Err(e) => ParsedList { result: Err(e), used: 0 },
            Ok(node) => if node is Eof {
                ParsedList { result: Ok(seq![]), used: skipped + next.used }
            } else {
                let rest = parse_more_statements(t, p + skipped + next.used);
                match rest.result {
                    Err(e) => ParsedList { result: Err(e), used: 0 },
                    Ok(nodes) => ParsedList {
                        result: Ok(seq![node] + nodes),
                        used: skipped + next.used + rest.used,
                    },
                }
            },
        }
    }
}

/// One statement: an expression.
#[verifier::opaque]
pub open spec fn parse_statement(t: Seq<SpecToken>, p: int) -> Parsed
    decreases t, remaining(t, p), 20int,
{
    parse_expr(t, p)
}

/// An assignment `name = value`, or a logical expression.
#[verifier::opaque]
pub open spec fn parse_expr(t: Seq<SpecToken>, p: int) -> Parsed
    decreases t, remaining(t, p), 19int,
{
    if kind(t, p) is Identifier && at_symbol(t, p + 1, Symbol::Eq) {
        let value = parse_or(t, p + 2);
        match value.result {
            Err(e) => failed(e),
            Ok(node) => read(
                SpecNode::Assignment(kind(t, p)->Identifier_0, Box::new(node)),
                2 + value.used,
            ),
        }
    } else {
        parse_or(t, p)
    }
}

/// `a or b`, right-recursive.
#[verifier::opaque]
pub open spec fn parse_or(t: Seq<SpecToken>, p: int) -> Parsed
    decreases t, remaining(t, p), 18int,
{
    let left = parse_and(t, p);
    match left.result {
        Err(e) => failed(e),
        Ok(a) => if at_symbol(t, p + left.used, Symbol::Or) {
            let right = parse_or(t, p + left.used + 1);
            match right.result {
                Err(e) => failed(e),
                Ok(b) => read(
                    SpecNode::Binary(Box::new(a), BinaryOp::Or, Box::new(b)),
                    left.used + 1 + right.used,
                ),
            }
        } else {
            left
        },
    }
}

/// `a and b`, right-recursive.
#[verifier::opaque]
pub open spec fn parse_and(t: Seq<SpecToken>, p: int) -> Parsed
    decreases t, remaining(t, p), 17int,
{
    let left = parse_not(t, p);
    match left.result {
        Err(e) => failed(e),
        Ok(a) => if at_symbol(t, p + left.used, Symbol::And) {
            let right = parse_and(t, p + left.used + 1);
            match right.result {
                Err(e) => failed(e),
                Ok(b) => read(
                    SpecNode::Binary(Box::new(a), BinaryOp::And, Box::new(b)),
                    left.used + 1 + right.used,
                ),
            }
        } else {
            left
        },
    }
}

/// `not a`, or a comparison.
#[verifier::opaque]
pub open spec fn parse_not(t: Seq<SpecToken>, p: int) -> Parsed
    decreases t, remaining(t, p), 16int,
{
    if at_symbol(t, p, Symbol::Not) {
        let operand = parse_not(t, p + 1);
        match operand.result {
            Err(e) => failed(e),
            Ok(a) => read(SpecNode::Unary(UnaryOp::Not, Box::new(a)), 1 + operand.used),
        }
    } else {
        parse_comp(t, p)
    }
}

/// A chain of comparisons, right-recursive.
#[verifier::opaque]
pub open spec fn parse_comp(t: Seq<SpecToken>, p: int) -> Parsed
    decreases t, remaining(t, p), 15int,
{
    let left = parse_arith(t, p);
    match left.result {
        Err(e) => failed(e),
        Ok(a) => match comparison(kind(t, p + left.used)) {
            Some(op) => {
                let right = parse_comp(t, p + left.used + 1);
                match right.result {
                    Err(e) => failed(e),
                    Ok(b) => read(
                        SpecNode::Binary(Box::new(a), op, Box::new(b)),
                        left.used + 1 + right.used,
                    ),
                }
            },
            None => left,
        },
    }
}

/// Sums and differences, right-recursive.
#[verifier::opaque]
pub open spec fn parse_arith(t: Seq<SpecToken>, p: int) -> Parsed
    decreases t, remaining(t, p), 14int,
{
    let left = parse_term(t, p);
    match left.result {
        Err(e) => failed(e),
        Ok(a) => if at_symbol(t, p + left.used, Symbol::Plus) || at_symbol(
            t,
            p + left.used,
            Symbol::Minus,
        ) {
            let op = if at_symbol(t, p + left.used, Symbol::Plus) {
                BinaryOp::Add
            } else {
                BinaryOp::Sub
            };
            let right = parse_arith(t, p + left.used + 1);
            match right.result {
                Err(e) => failed(e),
                Ok(b) => read(
                    SpecNode::Binary(Box::new(a), op, Box::new(b)),
                    left.used + 1 + right.used,
                ),
            }
        } else {
            left
        },
    }
}

/// Products.  A number that is followed by anything but an operator, a
/// closer or a separator multiplies the term that follows it; otherwise a
/// factor, then `*`, `/` or `%` (or a glyph for one) and a term.
#[verifier::opaque]
pub open spec fn parse_term(t: Seq<SpecToken>, p: int) -> Parsed
    decreases t, remaining(t, p), 13int,
{
    if is_number(kind(t, p)) && !ends_operand(kind(t, p + 1)) {
        match literal(t, p) {
            Err(e) => failed(e),
            Ok(a) => {
                let right = parse_term(t, p + 1);
                match right.result {
                    Err(e) => failed(e),
                    Ok(b) => read(
                        SpecNode::Binary(Box::new(a), BinaryOp::Mul, Box::new(b)),
                        1 + right.used,
                    ),
                }
            },
        }
    } else {
        let left = parse_factor(t, p);
        match left.result {
            Err(e) => failed(e),
            Ok(a) => match multiplicative(kind(t, p + left.used)) {
                Some(op) => {
                    let right = parse_term(t, p + left.used + 1);
                    match right.result {
                        Err(e) => failed(e),
                        Ok(b) => read(
                            SpecNode::Binary(Box::new(a), op, Box::new(b)),
                            left.used + 1 + right.used,
                        ),
                    }
                },
                None => left,
            },
        }
    }
}

/// A sign and a factor, or a power.  The sign is outside the power.
#[verifier::opaque]
pub open spec fn parse_factor(t: Seq<SpecToken>, p: int) -> Parsed
    decreases t, remaining(t, p), 12int,
{
    if at_symbol(t, p, Symbol::Plus) || at_symbol(t, p, Symbol::Minus) {
        let op = if at_symbol(t, p, Symbol::Plus) {
            UnaryOp::Pos
        } else {
            UnaryOp::Neg
        };
        let operand = parse_factor(t, p + 1);
        match operand.result {
            Err(e) => failed(e),
            Ok(a) => read(SpecNode::Unary(op, Box::new(a)), 1 + operand.used),
        }
    } else {
        parse_power(t, p)
    }
}

/// `a ^ b`, where `b` is a factor: the power is right-associative.
#[verifier::opaque]
pub open spec fn parse_power(t: Seq<SpecToken>, p: int) -> Parsed
    decreases t, remaining(t, p), 11int,
{
    let left = parse_prefix(t, p);
    match left.result {
        Err(e) => failed(e),
        Ok(a) => if at_symbol(t, p + left.used, Symbol::Carrot) {
            let right = parse_factor(t, p + left.used + 1);
            match right.result {
                Err(e) => failed(e),
                Ok(b) => read(
                    SpecNode::Binary(Box::new(a), BinaryOp::Pow, Box::new(b)),
                    left.used + 1 + right.used,
                ),
            }
        } else {
            left
        },
    }
}

/// A root of a prefix expression: roots bind tighter than the power.
#[verifier::opaque]
pub open spec fn parse_prefix(t: Seq<SpecToken>, p: int) -> Parsed
    decreases t, remaining(t, p), 10int,
{
    match root(kind(t, p)) {
        Some(op) => {
            let operand = parse_prefix(t, p + 1);
            match operand.result {
                Err(e) => failed(e),
                Ok(a) => read(SpecNode::Unary(op, Box::new(a)), 1 + operand.used),
            }
        },
        None => parse_postfix(t, p),
    }
}

/// A call, then at most one of `!`, `°` and a superscript.  A superscript is
/// an exponent: its payload is read as a sum of its own.
#[verifier::opaque]
pub open spec fn parse_postfix(t: Seq<SpecToken>, p: int) -> Parsed
    decreases t, remaining(t, p), 9int,
{
    let inner = parse_call(t, p);
    match inner.result {
        Err(e) => failed(e),
        Ok(a) => match kind(t, p + inner.used) {
            SpecTokenType::Symbol(Symbol::Exclamation) => read(
                SpecNode::Unary(UnaryOp::Fact, Box::new(a)),
                inner.used + 1,
            ),
            SpecTokenType::Symbol(Symbol::Degree) => read(
                SpecNode::Unary(UnaryOp::Degree, Box::new(a)),
                inner.used + 1,
            ),
            SpecTokenType::Superscript(payload) => {
                let exponent = parse_arith(payload, 0);
                match exponent.result {
                    Err(e) => failed(e),
                    Ok(b) => read(
                        SpecNode::Binary(Box::new(a), BinaryOp::Pow, Box::new(b)),
                        inner.used + 1,
                    ),
                }
            },
            _ => inner,
        },
    }
}

/// An atom; or, where an identifier is followed by `(`, a call with its
/// arguments; or, where `=` follows the arguments, a function definition
/// with the arguments as parameter names.
#[verifier::opaque]
pub open spec fn parse_call(t: Seq<SpecToken>, p: int) -> Parsed
    decreases t, remaining(t, p), 8int,
{
    let callee = parse_atom(t, p);
    match callee.result {
        Err(e) => failed(e),
        Ok(a) => if at_symbol(t, p + callee.used, Symbol::LeftParen) {
            let open = p + callee.used;
            match a {
                SpecNode::Identifier(name) => {
                    let args = parse_list(t, open + 1, token(t, open).start);
                    match args.result {
                        Err(e) => failed(e),
                        Ok(items) => {
                            let after = open + 1 + args.used;
                            if at_symbol(t, after, Symbol::Eq) {
                                let body = parse_expr(t, after + 1);
                                match body.result {
                                    Err(e) => failed(e),
                                    Ok(b) => match parameter_names(items) {
                                        Some(names) => read(
                                            SpecNode::FnDef(name, names, Box::new(b)),
                                            callee.used + 1 + args.used + 1 + body.used,
                                        ),
                                        None => failed(
                                            expected(
                                                t,
                                                after + 1 + body.used,
                                                "the parameters of a function must be identifiers"@,
                                                token(t, p).start,
                                            ),
                                        ),
                                    },
                                }
                            } else {
                                read(SpecNode::Call(name, items), callee.used + 1 + args.used)
                            }
                        },
                    }
                },
                _ => failed(
                    expected(t, open, "there should be an identifier here"@, token(t, p).start),
                ),
            }
        } else {
            callee
        },
    }
}

/// Expressions separated by commas, up to and with the closing parenthesis.
/// `start` is where the list began, for the range of an error.
#[verifier::opaque]
pub open spec fn parse_list(t: Seq<SpecToken>, p: int, start: int) -> ParsedList
    decreases t, remaining(t, p), 21int,
{
    if at_symbol(t, p, Symbol::RightParen) {
        ParsedList { result: Ok(seq![]), used: 1 }
    } else {
        let item = parse_expr(t, p);
        match item.result {
            Err(e) => ParsedList { result: Err(e), used: 0 },
            Ok(node) => if at_symbol(t, p + item.used, Symbol::Comma) {
                let rest = parse_list(t, p + item.used + 1, start);
                match rest.result {
                    Err(e) => ParsedList { result: Err(e), used: 0 },
                    Ok(nodes) => ParsedList {
                        result: Ok(seq![node] + nodes),
                        used: item.used + 1 + rest.used,
                    },
                }
            } else if at_symbol(t, p + item.used, Symbol::RightParen) {
                ParsedList { result: Ok(seq![node]), used: item.used + 1 }
            } else {
                ParsedList {
                    result: Err(expected(t, p + item.used, "expected ',' or ')'"@, start)),
                    used: 0,
                }
            },
        }
    }
}

/// A literal, a name, a bracketed expression, a conditional, a loop, or the
/// end marker.  `⌊ e ⌉` is the absolute value, as `| e |` is.
#[verifier::opaque]
pub open spec fn parse_atom(t: Seq<SpecToken>, p: int) -> Parsed
    decreases t, remaining(t, p), 7int,
{
    let start = token(t, p).start;
    match kind(t, p) {
        SpecTokenType::Int(_) | SpecTokenType::Float(_) => match literal(t, p) {
            Err(e) => failed(e),
            Ok(node) => read(node, 1),
        },
        SpecTokenType::Identifier(name) => read(SpecNode::Identifier(name), 1),
        SpecTokenType::Symbol(Symbol::LeftParen) => {
            let inner = parse_expr(t, p + 1);
            match inner.result {
                Err(e) => failed(e),
                Ok(a) => if at_symbol(t, p + 1 + inner.used, Symbol::RightParen) {
                    read(a, inner.used + 2)
                } else {
                    failed(expected(t, p + 1 + inner.used, "expected ')'"@, start))
                },
            }
        },
        SpecTokenType::Symbol(Symbol::Pipe) => {
            let inner = parse_expr(t, p + 1);
            match inner.result {
                Err(e) => failed(e),
                Ok(a) => if at_symbol(t, p + 1 + inner.used, Symbol::Pipe) {
                    read(SpecNode::Unary(UnaryOp::Abs, Box::new(a)), inner.used + 2)
                } else {
                    failed(expected(t, p + 1 + inner.used, "expected '|'"@, start))
                },
            }
        },
        SpecTokenType::Symbol(Symbol::LeftFloor) => {
            let inner = parse_expr(t, p + 1);
            match inner.result {
                Err(e) => failed(e),
                Ok(a) => if at_symbol(t, p + 1 + inner.used, Symbol::RightFloor) {
                    read(SpecNode::Unary(UnaryOp::Floor, Box::new(a)), inner.used + 2)
                } else if at_symbol(t, p + 1 + inner.used, Symbol::RightCeil) {
                    read(SpecNode::Unary(UnaryOp::Abs, Box::new(a)), inner.used + 2)
                } else {
                    failed(expected(t, p + 1 + inner.used, "expected '⌋' or '⌉'"@, start))
                },
            }
        },
        SpecTokenType::Symbol(Symbol::LeftCeil) => {
            let inner = parse_expr(t, p + 1);
            match inner.result {
                Err(e) => failed(e),
                Ok(a) => if at_symbol(t, p + 1 + inner.used, Symbol::RightCeil) {
                    read(SpecNode::Unary(UnaryOp::Ceil, Box::new(a)), inner.used + 2)
                } else {
                    failed(expected(t, p + 1 + inner.used, "expected '⌉'"@, start))
                },
            }
        },
        SpecTokenType::Symbol(Symbol::If) => parse_if(t, p),
        SpecTokenType::Symbol(Symbol::While) => parse_while(t, p),
        SpecTokenType::EOF => read(SpecNode::Eof, 0),
        _ => failed(
            expected(
                t,
                p,
                "expected int, float, identifier, '(', '|', '⌊', '⌈', or 'if'"@,
                start,
            ),
        ),
    }
}

/// `if cond { block }` at position `p`, then separators, then an optional
/// `else` part.
#[verifier::opaque]
pub open spec fn parse_if(t: Seq<SpecToken>, p: int) -> Parsed
    decreases t, remaining(t, p), 5int,
{
    if !at_symbol(t, p, Symbol::If) {
        failed(expected(t, p, "expected 'if'"@, token(t, p).start))
    } else {
        let cond = parse_expr(t, p + 1);
        match cond.result {
            Err(e) => failed(e),
            Ok(c) => {
                let open = p + 1 + cond.used;
                let body = parse_block(t, open);
                match body.result {
                    Err(e) => failed(e),
                    Ok(b) => {
                        let skipped = newlines(t, open + body.used);
                        let after = open + body.used + skipped;
                        if at_symbol(t, after, Symbol::Else) {
                            let otherwise = parse_else(t, after);
                            match otherwise.result {
                                Err(e) => failed(e),
                                Ok(o) => read(
                                    SpecNode::If(Box::new(c), Box::new(b), Some(Box::new(o))),
                                    1 + cond.used + body.used + skipped + otherwise.used,
                                ),
                            }
                        } else {
                            read(
                                SpecNode::If(Box::new(c), Box::new(b), None),
                                1 + cond.used + body.used + skipped,
                            )
                        }
                    },
                }
            },
        }
    }
}

/// `else { block }` or `else if ..` at position `p`.
#[verifier::opaque]
pub open spec fn parse_else(t: Seq<SpecToken>, p: int) -> Parsed
    decreases t, remaining(t, p), 4int,
{
    if !at_symbol(t, p, Symbol::Else) {
        failed(expected(t, p, "expected 'else'"@, token(t, p).start))
    } else if at_symbol(t, p + 1, Symbol::LeftBrace) {
        let body = parse_block(t, p + 1);
        match body.result {
            Err(e) => failed(e),
            Ok(b) => read(b, 1 + body.used),
        }
    } else if at_symbol(t, p + 1, Symbol::If) {
        let nested = parse_if(t, p + 1);
        match nested.result {
            Err(e) => failed(e),
            Ok(b) => read(b, 1 + nested.used),
        }
    } else {
        failed(expected(t, p + 1, "expected '{' or 'if'"@, token(t, p + 1).start))
    }
}

/// `while cond { block }` at position `p`.
#[verifier::opaque]
pub open spec fn parse_while(t: Seq<SpecToken>, p: int) -> Parsed
    decreases t, remaining(t, p), 5int,
{
    if !at_symbol(t, p, Symbol::While) {
        failed(expected(t, p, "expected 'while'"@, token(t, p).start))
    } else {
        let cond = parse_expr(t, p + 1);
        match cond.result {
            Err(e) => failed(e),
            Ok(c) => {
                let body = parse_block(t, p + 1 + cond.used);
                match body.result {
                    Err(e) => failed(e),
                    Ok(b) => read(
                        SpecNode::While(Box::new(c), Box::new(b)),
                        1 + cond.used + body.used,
                    ),
                }
            },
        }
    }
}

/// `{ statements }` at position `p`.
#[verifier::opaque]
pub open spec fn parse_block(t: Seq<SpecToken>, p: int) -> Parsed
    decreases t, remaining(t, p), 3int,
{
    if !at_symbol(t, p, Symbol::LeftBrace) {
        failed(expected(t, p, "expected '{'"@, token(t, p).start))
    } else {
        let body = parse_statements(t, p + 1);
        match body.result {
            Err(e) => failed(e),
            Ok(b) => if at_symbol(t, p + 1 + body.used, Symbol::RightBrace) {
                read(b, body.used + 2)
            } else {
                failed(
                    expected(
                        t,
                        p + 1 + body.used,
                        "expected '}'"@,
                        token(t, p + 1 + body.used).start,
                    ),
                )
            },
        }
    }
}

/// The program that a sequence of tokens is parsed to.
pub open spec fn parse_program(t: Seq<SpecToken>) -> Result<SpecNode, SpecError> {
    parse_statements(t, 0).result
}

} // verus!
