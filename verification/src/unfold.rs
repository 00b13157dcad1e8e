//! The defining equations of the grammar.
//!
//! The functions of [`crate::grammar`] are opaque: a proof that needs what
//! one of them says of given tokens calls its equation here.

use crate::grammar::{
    at_symbol, comparison, ends_operand, expected, failed, is_number, kind, literal,
    multiplicative, newlines, parameter_names, parse_and, parse_arith, parse_atom, parse_block,
    parse_call, parse_comp, parse_else, parse_expr, parse_factor, parse_if, parse_list,
    parse_more_statements, parse_not, parse_or, parse_postfix, parse_power, parse_prefix,
    parse_statement, parse_statements, parse_term, parse_while, read, root, token, ParsedList,
};
use crate::node::{BinaryOp, SpecNode, UnaryOp};
use crate::token::{SpecToken, SpecTokenType, Symbol};
use vstd::prelude::*;

verus! {

/// The equation of [`parse_statements`].
pub proof fn unfold_parse_statements(t: Seq<SpecToken>, p: int)
    ensures
        parse_statements(t, p) == ({
            let skipped = newlines(t, p);
            let first = parse_statement(t, p + skipped);
            match first.result {
                Err(e) => failed(e),
                Ok(node) => {
                    let rest = parse_more_statements(t, p + skipped + first.used);
                    match rest.result {
                        Err(e) => failed(e),
                        Ok(nodes) => read(
                            SpecNode::Statements(seq![node] + nodes),
                            skipped + first.used + rest.used,
                        ),
                    }
                },
            }
        }),
{
    reveal(parse_statements);
    reveal(parse_more_statements);
    reveal(parse_statement);
}

/// The equation of [`parse_more_statements`].
pub proof fn unfold_parse_more_statements(t: Seq<SpecToken>, p: int)
    ensures
        parse_more_statements(t, p) == ({
            let skipped = newlines(t, p);
            if skipped == 0 || at_symbol(t, p + skipped, Symbol::RightBrace) {
                ParsedList { result: Ok(seq![]), used: skipped }
            } else {
                let next = parse_statement(t, p + skipped);
                match next.result {
                    Err(e) => ParsedList { result: Err(e), used: 0 },
                    Ok(node) => if node is Eof {
                        ParsedList { result: Ok(seq![]), used: skipped + next.used }
                    } else {
                        let rest = parse_more_statements(t, p + skipped + next.used);
                        match rest.result {
                            Err(e) => ParsedList { result: Err(e), used: 0 },
                            Ok(nodes) => ParsedList {
                                result: Ok(seq![node] + nodes),
                                used: skipped + next.used + rest.used,
                            },
                        }
                    },
                }
            }
        }),
{
    reveal(parse_more_statements);
    reveal(parse_statement);
}

/// The equation of [`parse_statement`].
pub proof fn unfold_parse_statement(t: Seq<SpecToken>, p: int)
    ensures
        parse_statement(t, p) == ({
            parse_expr(t, p)
        }),
{
    reveal(parse_statement);
    reveal(parse_expr);
}

/// The equation of [`parse_expr`].
pub proof fn unfold_parse_expr(t: Seq<SpecToken>, p: int)
    ensures
        parse_expr(t, p) == ({
            if kind(t, p) is Identifier && at_symbol(t, p + 1, Symbol::Eq) {
                let value = parse_or(t, p + 2);
                match value.result {
                    Err(e) => failed(e),
                    Ok(node) => read(
                        SpecNode::Assignment(kind(t, p)->Identifier_0, Box::new(node)),
                        2 + value.used,
                    ),
                }
            } else {
                parse_or(t, p)
            }
        }),
{
    reveal(parse_expr);
    reveal(parse_or);
}

/// The equation of [`parse_or`].
pub proof fn unfold_parse_or(t: Seq<SpecToken>, p: int)
    ensures
        parse_or(t, p) == ({
            let left = parse_and(t, p);
            match left.result {
                Err(e) => failed(e),
                Ok(a) => if at_symbol(t, p + left.used, Symbol::Or) {
                    let right = parse_or(t, p + left.used + 1);
                    match right.result {
                        Err(e) => failed(e),
                        Ok(b) => read(
                            SpecNode::Binary(Box::new(a), BinaryOp::Or, Box::new(b)),
                            left.used + 1 + right.used,
                        ),
                    }
                } else {
                    left
                },
            }
        }),
{
    reveal(parse_or);
    reveal(parse_and);
}

/// The equation of [`parse_and`].
pub proof fn unfold_parse_and(t: Seq<SpecToken>, p: int)
    ensures
        parse_and(t, p) == ({
            let left = parse_not(t, p);
            match left.result {
                Err(e) => failed(e),
                Ok(a) => if at_symbol(t, p + left.used, Symbol::And) {
                    let right = parse_and(t, p + left.used + 1);
                    match right.result {
                        Err(e) => failed(e),
                        Ok(b) => read(
                            SpecNode::Binary(Box::new(a), BinaryOp::And, Box::new(b)),
                            left.used + 1 + right.used,
                        ),
                    }
                } else {
                    left
                },
            }
        }),
{
    reveal(parse_and);
    reveal(parse_not);
}

/// The equation of [`parse_not`].
pub proof fn unfold_parse_not(t: Seq<SpecToken>, p: int)
    ensures
        parse_not(t, p) == ({
            if at_symbol(t, p, Symbol::Not) {
                let operand = parse_not(t, p + 1);
                match operand.result {
                    Err(e) => failed(e),
                    Ok(a) => read(SpecNode::Unary(UnaryOp::Not, Box::new(a)), 1 + operand.used),
                }
            } else {
                parse_comp(t, p)
            }
        }),
{
    reveal(parse_not);
    reveal(parse_comp);
}

/// The equation of [`parse_comp`].
pub proof fn unfold_parse_comp(t: Seq<SpecToken>, p: int)
    ensures
        parse_comp(t, p) == ({
            let left = parse_arith(t, p);
            match left.result {
                Err(e) => failed(e),
                Ok(a) => match comparison(kind(t, p + left.used)) {
                    Some(op) => {
                        let right = parse_comp(t, p + left.used + 1);
                        match right.result {
                            Err(e) => failed(e),
                            Ok(b) => read(
                                SpecNode::Binary(Box::new(a), op, Box::new(b)),
                                left.used + 1 + right.used,
                            ),
                        }
                    },
                    None => left,
                },
            }
        }),
{
    reveal(parse_comp);
    reveal(parse_arith);
}

/// The equation of [`parse_arith`].
pub proof fn unfold_parse_arith(t: Seq<SpecToken>, p: int)
    ensures
        parse_arith(t, p) == ({
            let left = parse_term(t, p);
            match left.result {
                Err(e) => failed(e),
                Ok(a) => if at_symbol(t, p + left.used, Symbol::Plus) || at_symbol(
                    t,
                    p + left.used,
                    Symbol::Minus,
                ) {
                    let op = if at_symbol(t, p + left.used, Symbol::Plus) {
                        BinaryOp::Add
                    } else {
                        BinaryOp::Sub
                    };
                    let right = parse_arith(t, p + left.used + 1);
                    match right.result {
                        Err(e) => failed(e),
                        Ok(b) => read(
                            SpecNode::Binary(Box::new(a), op, Box::new(b)),
                            left.used + 1 + right.used,
                        ),
                    }
                } else {
                    left
                },
            }
        }),
{
    reveal(parse_arith);
    reveal(parse_term);
}

/// The equation of [`parse_term`].
pub proof fn unfold_parse_term(t: Seq<SpecToken>, p: int)
    ensures
        parse_term(t, p) == ({
            if is_number(kind(t, p)) && !ends_operand(kind(t, p + 1)) {
                match literal(t, p) {
                    Err(e) => failed(e),
                    Ok(a) => {
                        let right = parse_term(t, p + 1);
                        match right.result {
                            Err(e) => failed(e),
                            Ok(b) => read(
                                SpecNode::Binary(Box::new(a), BinaryOp::Mul, Box::new(b)),
                                1 + right.used,
                            ),
                        }
                    },
                }
            } else {
                let left = parse_factor(t, p);
                match left.result {
                    Err(e) => failed(e),
                    Ok(a) => match multiplicative(kind(t, p + left.used)) {
                        Some(op) => {
                            let right = parse_term(t, p + left.used + 1);
                            match right.result {
                                Err(e) => failed(e),
                                Ok(b) => read(
                                    SpecNode::Binary(Box::new(a), op, Box::new(b)),
                                    left.used + 1 + right.used,
                                ),
                            }
                        },
                        None => left,
                    },
                }
            }
        }),
{
    reveal(parse_term);
    reveal(parse_factor);
}

/// The equation of [`parse_factor`].
pub proof fn unfold_parse_factor(t: Seq<SpecToken>, p: int)
    ensures
        parse_factor(t, p) == ({
            if at_symbol(t, p, Symbol::Plus) || at_symbol(t, p, Symbol::Minus) {
                let op = if at_symbol(t, p, Symbol::Plus) {
                    UnaryOp::Pos
                } else {
                    UnaryOp::Neg
                };
                let operand = parse_factor(t, p + 1);
                match operand.result {
                    Err(e) => failed(e),
                    Ok(a) => read(SpecNode::Unary(op, Box::new(a)), 1 + operand.used),
                }
            } else {
                parse_power(t, p)
            }
        }),
{
    reveal(parse_factor);
    reveal(parse_power);
}

/// The equation of [`parse_power`].
pub proof fn unfold_parse_power(t: Seq<SpecToken>, p: int)
    ensures
        parse_power(t, p) == ({
            let left = parse_prefix(t, p);
            match left.result {
                Err(e) => failed(e),
                Ok(a) => if at_symbol(t, p + left.used, Symbol::Carrot) {
                    let right = parse_factor(t, p + left.used + 1);
                    match right.result {
                        Err(e) => failed(e),
                        Ok(b) => read(
                            SpecNode::Binary(Box::new(a), BinaryOp::Pow, Box::new(b)),
                            left.used + 1 + right.used,
                        ),
                    }
                } else {
                    left
                },
            }
        }),
{
    reveal(parse_power);
    reveal(parse_factor);
    reveal(parse_prefix);
}

/// The equation of [`parse_prefix`].
pub proof fn unfold_parse_prefix(t: Seq<SpecToken>, p: int)
    ensures
        parse_prefix(t, p) == ({
            match root(kind(t, p)) {
                Some(op) => {
                    let operand = parse_prefix(t, p + 1);
                    match operand.result {
                        Err(e) => failed(e),
                        Ok(a) => read(SpecNode::Unary(op, Box::new(a)), 1 + operand.used),
                    }
                },
                None => parse_postfix(t, p),
            }
        }),
{
    reveal(parse_prefix);
    reveal(parse_postfix);
}

/// The equation of [`parse_postfix`].
pub proof fn unfold_parse_postfix(t: Seq<SpecToken>, p: int)
    ensures
        parse_postfix(t, p) == ({
            let inner = parse_call(t, p);
            match inner.result {
                Err(e) => failed(e),
                Ok(a) => match kind(t, p + inner.used) {
                    SpecTokenType::Symbol(Symbol::Exclamation) => read(
                        SpecNode::Unary(UnaryOp::Fact, Box::new(a)),
                        inner.used + 1,
                    ),
                    SpecTokenType::Symbol(Symbol::Degree) => read(
                        SpecNode::Unary(UnaryOp::Degree, Box::new(a)),
                        inner.used + 1,
                    ),
                    SpecTokenType::Superscript(payload) => {
                        let exponent = parse_arith(payload, 0);
                        match exponent.result {
                            Err(e) => failed(e),
                            Ok(b) => read(
                                SpecNode::Binary(Box::new(a), BinaryOp::Pow, Box::new(b)),
                                inner.used + 1,
                            ),
                        }
                    },
                    _ => inner,
                },
            }
        }),
{
    reveal(parse_postfix);
    reveal(parse_arith);
    reveal(parse_call);
}

/// The equation of [`parse_call`].
pub proof fn unfold_parse_call(t: Seq<SpecToken>, p: int)
    ensures
        parse_call(t, p) == ({
            let callee = parse_atom(t, p);
            match callee.result {
                Err(e) => failed(e),
                Ok(a) => if at_symbol(t, p + callee.used, Symbol::LeftParen) {
                    let open = p + callee.used;
                    match a {
                        SpecNode::Identifier(name) => {
                            let args = parse_list(t, open + 1, token(t, open).start);
                            match args.result {
                                Err(e) => failed(e),
                                Ok(items) => {
                                    let after = open + 1 + args.used;
                                    if at_symbol(t, after, Symbol::Eq) {
                                        let body = parse_expr(t, after + 1);
                                        match body.result {
                                            Err(e) => failed(e),
                                            Ok(b) => match parameter_names(items) {
                                                Some(names) => read(
                                                    SpecNode::FnDef(name, names, Box::new(b)),
                                                    callee.used + 1 + args.used + 1 + body.used,
                                                ),
                                                None => failed(
                                                    expected(
                                                        t,
                                                        after + 1 + body.used,
                                                        "the parameters of a function must be identifiers"@,
                                                        token(t, p).start,
                                                    ),
                                                ),
                                            },
                                        }
                                    } else {
                                        read(SpecNode::Call(name, items), callee.used + 1 + args.used)
                                    }
                                },
                            }
                        },
                        _ => failed(
                            expected(t, open, "there should be an identifier here"@, token(t, p).start),
                        ),
                    }
                } else {
                    callee
                },
            }
        }),
{
    reveal(parse_call);
    reveal(parse_atom);
    reveal(parse_expr);
    reveal(parse_list);
}

/// The equation of [`parse_list`].
pub proof fn unfold_parse_list(t: Seq<SpecToken>, p: int, start: int)
    ensures
        parse_list(t, p, start) == ({
            if at_symbol(t, p, Symbol::RightParen) {
                ParsedList { result: Ok(seq![]), used: 1 }
            } else {
                let item = parse_expr(t, p);
                match item.result {
                    Err(e) => ParsedList { result: Err(e), used: 0 },
                    Ok(node) => if at_symbol(t, p + item.used, Symbol::Comma) {
                        let rest = parse_list(t, p + item.used + 1, start);
                        match rest.result {
                            Err(e) => ParsedList { result: Err(e), used: 0 },
                            Ok(nodes) => ParsedList {
                                result: Ok(seq![node] + nodes),
                                used: item.used + 1 + rest.used,
                            },
                        }
                    } else if at_symbol(t, p + item.used, Symbol::RightParen) {
                        ParsedList { result: Ok(seq![node]), used: item.used + 1 }
                    } else {
                        ParsedList {
                            result: Err(expected(t, p + item.used, "expected ',' or ')'"@, start)),
                            used: 0,
                        }
                    },
                }
            }
        }),
{
    reveal(parse_list);
    reveal(parse_expr);
}

/// The equation of [`parse_atom`].
pub proof fn unfold_parse_atom(t: Seq<SpecToken>, p: int)
    ensures
        parse_atom(t, p) == ({
            let start = token(t, p).start;
            match kind(t, p) {
                SpecTokenType::Int(_) | SpecTokenType::Float(_) => match literal(t, p) {
                    Err(e) => failed(e),
                    Ok(node) => read(node, 1),
                },
                SpecTokenType::Identifier(name) => read(SpecNode::Identifier(name), 1),
                SpecTokenType::Symbol(Symbol::LeftParen) => {
                    let inner = parse_expr(t, p + 1);
                    match inner.result {
                        Err(e) => failed(e),
                        Ok(a) => if at_symbol(t, p + 1 + inner.used, Symbol::RightParen) {
                            read(a, inner.used + 2)
                        } else {
                            failed(expected(t, p + 1 + inner.used, "expected ')'"@, start))
                        },
                    }
                },
                SpecTokenType::Symbol(Symbol::Pipe) => {
                    let inner = parse_expr(t, p + 1);
                    match inner.result {
                        Err(e) => failed(e),
                        Ok(a) => if at_symbol(t, p + 1 + inner.used, Symbol::Pipe) {
                            read(SpecNode::Unary(UnaryOp::Abs, Box::new(a)), inner.used + 2)
                        } else {
                            failed(expected(t, p + 1 + inner.used, "expected '|'"@, start))
                        },
                    }
                },
                SpecTokenType::Symbol(Symbol::LeftFloor) => {
                    let inner = parse_expr(t, p + 1);
                    match inner.result {
                        Err(e) => failed(e),
                        Ok(a) => if at_symbol(t, p + 1 + inner.used, Symbol::RightFloor) {
                            read(SpecNode::Unary(UnaryOp::Floor, Box::new(a)), inner.used + 2)
                        } else if at_symbol(t, p + 1 + inner.used, Symbol::RightCeil) {
                            read(SpecNode::Unary(UnaryOp::Abs, Box::new(a)), inner.used + 2)
                        } else {
                            failed(expected(t, p + 1 + inner.used, "expected '⌋' or '⌉'"@, start))
                        },
                    }
                },
                SpecTokenType::Symbol(Symbol::LeftCeil) => {
                    let inner = parse_expr(t, p + 1);
                    match inner.result {
                        Err(e) => failed(e),
                        Ok(a) => if at_symbol(t, p + 1 + inner.used, Symbol::RightCeil) {
                            read(SpecNode::Unary(UnaryOp::Ceil, Box::new(a)), inner.used + 2)
                        } else {
                            failed(expected(t, p + 1 + inner.used, "expected '⌉'"@, start))
                        },
                    }
                },
                SpecTokenType::Symbol(Symbol::If) => parse_if(t, p),
                SpecTokenType::Symbol(Symbol::While) => parse_while(t, p),
                SpecTokenType::EOF => read(SpecNode::Eof, 0),
                _ => failed(
                    expected(
                        t,
                        p,
                        "expected int, float, identifier, '(', '|', '⌊', '⌈', or 'if'"@,
                        start,
                    ),
                ),
            }
        }),
{
    reveal(parse_atom);
    reveal(parse_expr);
    reveal(parse_if);
    reveal(parse_while);
}

/// The equation of [`parse_if`].
pub proof fn unfold_parse_if(t: Seq<SpecToken>, p: int)
    ensures
        parse_if(t, p) == ({
            if !at_symbol(t, p, Symbol::If) {
                failed(expected(t, p, "expected 'if'"@, token(t, p).start))
            } else {
                let cond = parse_expr(t, p + 1);
                match cond.result {
                    Err(e) => failed(e),
                    Ok(c) => {
                        let open = p + 1 + cond.used;
                        let body = parse_block(t, open);
                        match body.result {
                            Err(e) => failed(e),
                            Ok(b) => {
                                let skipped = newlines(t, open + body.used);
                                let after = open + body.used + skipped;
                                if at_symbol(t, after, Symbol::Else) {
                                    let otherwise = parse_else(t, after);
                                    match otherwise.result {
                                        Err(e) => failed(e),
                                        Ok(o) => read(
                                            SpecNode::If(Box::new(c), Box::new(b), Some(Box::new(o))),
                                            1 + cond.used + body.used + skipped + otherwise.used,
                                        ),
                                    }
                                } else {
                                    read(
                                        SpecNode::If(Box::new(c), Box::new(b), None),
                                        1 + cond.used + body.used + skipped,
                                    )
                                }
                            },
                        }
                    },
                }
            }
        }),
{
    reveal(parse_if);
    reveal(parse_block);
    reveal(parse_else);
    reveal(parse_expr);
}

/// The equation of [`parse_else`].
pub proof fn unfold_parse_else(t: Seq<SpecToken>, p: int)
    ensures
        parse_else(t, p) == ({
            if !at_symbol(t, p, Symbol::Else) {
                failed(expected(t, p, "expected 'else'"@, token(t, p).start))
            } else if at_symbol(t, p + 1, Symbol::LeftBrace) {
                let body = parse_block(t, p + 1);
                match body.result {
                    Err(e) => failed(e),
                    Ok(b) => read(b, 1 + body.used),
                }
            } else if at_symbol(t, p + 1, Symbol::If) {
                let nested = parse_if(t, p + 1);
                match nested.result {
                    Err(e) => failed(e),
                    Ok(b) => read(b, 1 + nested.used),
                }
            } else {
                failed(expected(t, p + 1, "expected '{' or 'if'"@, token(t, p + 1).start))
            }
        }),
{
    reveal(parse_else);
    reveal(parse_block);
    reveal(parse_if);
}

/// The equation of [`parse_while`].
pub proof fn unfold_parse_while(t: Seq<SpecToken>, p: int)
    ensures
        parse_while(t, p) == ({
            if !at_symbol(t, p, Symbol::While) {
                failed(expected(t, p, "expected 'while'"@, token(t, p).start))
            } else {
                let cond = parse_expr(t, p + 1);
                match cond.result {
                    Err(e) => failed(e),
                    Ok(c) => {
                        let body = parse_block(t, p + 1 + cond.used);
                        match body.result {
                            Err(e) => failed(e),
                            Ok(b) => read(
                                SpecNode::While(Box::new(c), Box::new(b)),
                                1 + cond.used + body.used,
                            ),
                        }
                    },
                }
            }
        }),
{
    reveal(parse_while);
    reveal(parse_block);
    reveal(parse_expr);
}

/// The equation of [`parse_block`].
pub proof fn unfold_parse_block(t: Seq<SpecToken>, p: int)
    ensures
        parse_block(t, p) == ({
            if !at_symbol(t, p, Symbol::LeftBrace) {
                failed(expected(t, p, "expected '{'"@, token(t, p).start))
            } else {
                let body = parse_statements(t, p + 1);
                match body.result {
                    Err(e) => failed(e),
                    Ok(b) => if at_symbol(t, p + 1 + body.used, Symbol::RightBrace) {
                        read(b, body.used + 2)
                    } else {
                        failed(
                            expected(
                                t,
                                p + 1 + body.used,
                                "expected '}'"@,
                                token(t, p + 1 + body.used).start,
                            ),
                        )
                    },
                }
            }
        }),
{
    reveal(parse_block);
    reveal(parse_statements);
}

} // verus!
