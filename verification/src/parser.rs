//! The parser: tokens to a syntax tree, by recursive descent.
//!
//! Each method reads one level of the precedence ladder and is proved to
//! give what the function of the same level in [`crate::grammar`] gives.

use crate::error::{SpecError, SpectreError};
use crate::glyphs::{char_is_digit, char_is_number_char, is_number_char};
use crate::grammar::{
    at_symbol, comparison, dot_count, ends_operand, expected, is_number, is_real_literal, kind,
    literal, multiplicative, newlines, parameter_names, parse_and, parse_arith, parse_atom,
    parse_block, parse_call, parse_comp, parse_else, parse_expr, parse_factor, parse_if,
    parse_list, parse_more_statements, parse_not, parse_or, parse_postfix, parse_power,
    parse_prefix, parse_program, parse_statement, parse_statements, parse_term, parse_while, read,
    remaining, root, token, Parsed, ParsedList,
};
use crate::node::{
    lemma_call_view, lemma_statements_view, names_view, nodes_view, BinaryOp, Node, SpecNode,
    UnaryOp,
};
use crate::text::{push_chars, to_chars};
use crate::token::{
    lemma_superscript_view, tokens_view, SpecToken, SpecTokenType, Symbol, Token, TokenType,
};
use crate::unfold::{
    unfold_parse_and, unfold_parse_arith, unfold_parse_atom, unfold_parse_block, unfold_parse_call,
    unfold_parse_comp, unfold_parse_else, unfold_parse_expr, unfold_parse_factor, unfold_parse_if,
    unfold_parse_list, unfold_parse_more_statements, unfold_parse_not, unfold_parse_or,
    unfold_parse_postfix, unfold_parse_power, unfold_parse_prefix, unfold_parse_statement,
    unfold_parse_statements, unfold_parse_term, unfold_parse_while,
};
use vstd::prelude::*;

verus! {

/// Whether a token kind ends an operand: see [`ends_operand`].
fn kind_ends_operand(ty: &TokenType) -> (b: bool)
    ensures
        b == ends_operand(ty@),
{
    match ty {
        TokenType::Superscript(_) => true,
        TokenType::Newline => true,
        TokenType::EOF => true,
        TokenType::Symbol(s) => match s {
            Symbol::Plus
            | Symbol::Minus
            | Symbol::Star
            | Symbol::Dot
            | Symbol::Cross
            | Symbol::Slash
            | Symbol::Divide
            | Symbol::Percent
            | Symbol::Carrot
            | Symbol::Exclamation
            | Symbol::Degree
            | Symbol::Not
            | Symbol::EqEq
            | Symbol::Neq
            | Symbol::Lt
            | Symbol::Lte
            | Symbol::Gt
            | Symbol::Gte
            | Symbol::And
            | Symbol::Or
            | Symbol::RightParen
            | Symbol::LeftBrace
            | Symbol::RightBrace
            | Symbol::Pipe
            | Symbol::RightFloor
            | Symbol::RightCeil
            | Symbol::Comma => true,
            _ => false,
        },
        _ => false,
    }
}

/// Whether a text is a real literal: see [`is_real_literal`].
fn text_is_real_literal(text: &Vec<char>) -> (b: bool)
    ensures
        b == is_real_literal(text@),
{
    if text.len() == 0 || !char_is_digit(text[0]) {
        return false;
    }
    let mut dots: usize = 0;
    let mut i: usize = 0;
    while i < text.len()
        invariant
            i <= text.len(),
            dots == dot_count(text@.take(i as int)),
            dots <= i,
            forall|k: int| 0 <= k < i ==> is_number_char(#[trigger] text@[k]),
        decreases text.len() - i,
    {
        assert(text@.take(i as int + 1).drop_last() =~= text@.take(i as int));
        if !char_is_number_char(text[i]) {
            return false;
        }
        if text[i] == '.' {
            dots += 1;
        }
        i += 1;
    }
    assert(text@.take(i as int) =~= text@);
    dots == 1
}

/// A copy of a list of tokens.
fn clone_tokens(tokens: &Vec<Token>) -> (r: Vec<Token>)
    ensures
        tokens_view(r@) == tokens_view(tokens@),
{
    let mut out: Vec<Token> = Vec::new();
    let mut i: usize = 0;
    while i < tokens.len()
        invariant
            i <= tokens.len(),
            out@.len() == i,
            forall|k: int| 0 <= k < i ==> out@[k]@ == tokens@[k]@,
        decreases tokens.len() - i,
    {
        out.push(tokens[i].clone());
        i += 1;
    }
    assert(tokens_view(out@) =~= tokens_view(tokens@));
    out
}

/// The names of function parameters: see [`parameter_names`].
fn names_of(params: &Vec<Node>) -> (r: Option<Vec<String>>)
    ensures
        match parameter_names(nodes_view(params@)) {
            Some(names) => r matches Some(v) && names_view(v@) == names,
            None => r is None,
        },
{
    let mut out: Vec<String> = Vec::new();
    let mut i: usize = 0;
    while i < params.len()
        invariant
            i <= params.len(),
            out@.len() == i,
            forall|k: int|
                0 <= k < i ==> (#[trigger] nodes_view(params@)[k]) is Identifier && out@[k]@
                    == nodes_view(params@)[k]->Identifier_0,
        decreases params.len() - i,
    {
        match &params[i] {
            Node::Identifier(name) => {
                out.push(name.clone());
            },
            _ => {
                assert(!(nodes_view(params@)[i as int] is Identifier));
                return None;
            },
        }
        i += 1;
    }
    assert(names_view(out@) =~= parameter_names(nodes_view(params@))->0);
    Some(out)
}

/// The parser: a cursor over a list of tokens.
pub struct Parser {
    tokens: Vec<Token>,
    index: usize,
}

/// Whether a result of the parser is what the grammar gives, and the cursor
/// has moved over the tokens that were used.
pub open spec fn parsed_as(
    before: Parser,
    after: Parser,
    r: Result<Node, SpectreError>,
    parsed: Parsed,
) -> bool {
    &&& after.wf()
    &&& after.tokens() == before.tokens()
    &&& r is Ok ==> parsed.result is Ok && parsed.result->Ok_0 == r->Ok_0@ && after.position()
        == before.position() + parsed.used
    &&& r is Err ==> parsed.result is Err && parsed.result->Err_0 == r->Err_0@
}

/// The same for a list of nodes.
pub open spec fn listed_as(
    before: Parser,
    after: Parser,
    r: Result<Vec<Node>, SpectreError>,
    parsed: ParsedList,
) -> bool {
    &&& after.wf()
    &&& after.tokens() == before.tokens()
    &&& r is Ok ==> parsed.result is Ok && parsed.result->Ok_0 == nodes_view(r->Ok_0@)
        && after.position() == before.position() + parsed.used
    &&& r is Err ==> parsed.result is Err && parsed.result->Err_0 == r->Err_0@
}

impl Parser {
    /// The tokens that are parsed.
    #[verifier::opaque]
    pub closed spec fn tokens(&self) -> Seq<SpecToken> {
        tokens_view(self.tokens@)
    }

    /// The position of the current token.
    pub closed spec fn position(&self) -> int {
        self.index as int
    }

    /// The cursor is at a token or just past the last one.
    pub closed spec fn wf(&self) -> bool {
        self.index <= self.tokens.len()
    }

    /// A parser at the first of `tokens`.
    pub fn new(tokens: Vec<Token>) -> (parser: Parser)
        ensures
            parser.wf(),
            parser.tokens() == tokens_view(tokens@),
            parser.position() == 0,
    {
        proof {
            reveal(Parser::tokens);
        }
        Parser { tokens, index: 0 }
    }

    /// Whether the current token is the symbol `s`.
    fn at(&self, s: Symbol) -> (b: bool)
        requires
            self.wf(),
        ensures
            b == at_symbol(self.tokens(), self.position(), s),
    {
        proof {
            reveal(Parser::tokens);
        }
        if self.index < self.tokens.len() {
            match &self.tokens[self.index].ty {
                TokenType::Symbol(x) => *x == s,
                _ => false,
            }
        } else {
            false
        }
    }

    /// Whether the token after the current one is the symbol `s`.
    fn next_at(&self, s: Symbol) -> (b: bool)
        requires
            self.wf(),
        ensures
            b == at_symbol(self.tokens(), self.position() + 1, s),
    {
        proof {
            reveal(Parser::tokens);
        }
        if self.index < self.tokens.len() && self.index + 1 < self.tokens.len() {
            match &self.tokens[self.index + 1].ty {
                TokenType::Symbol(x) => *x == s,
                _ => false,
            }
        } else {
            false
        }
    }

    /// Whether the current token is a number that multiplies what follows it.
    fn at_implicit_product(&self) -> (b: bool)
        requires
            self.wf(),
        ensures
            b == (is_number(kind(self.tokens(), self.position())) && !ends_operand(
                kind(self.tokens(), self.position() + 1),
            )),
    {
        proof {
            reveal(Parser::tokens);
        }
        if self.index < self.tokens.len() {
            let number = match &self.tokens[self.index].ty {
                TokenType::Int(_) => true,
                TokenType::Float(_) => true,
                _ => false,
            };
            if number && self.index + 1 < self.tokens.len() {
                !kind_ends_operand(&self.tokens[self.index + 1].ty)
            } else {
                false
            }
        } else {
            false
        }
    }

    /// The symbol under the cursor, if the current token is one.
    fn symbol(&self) -> (r: Option<Symbol>)
        requires
            self.wf(),
        ensures
            match kind(self.tokens(), self.position()) {
                SpecTokenType::Symbol(s) => r == Some(s),
                _ => r is None,
            },
    {
        proof {
            reveal(Parser::tokens);
        }
        if self.index < self.tokens.len() {
            match &self.tokens[self.index].ty {
                TokenType::Symbol(s) => Some(*s),
                _ => None,
            }
        } else {
            None
        }
    }

    /// Whether the current token is a numeric literal.
    fn at_number(&self) -> (b: bool)
        requires
            self.wf(),
        ensures
            b == is_number(kind(self.tokens(), self.position())),
    {
        proof {
            reveal(Parser::tokens);
        }
        if self.index < self.tokens.len() {
            match &self.tokens[self.index].ty {
                TokenType::Int(_) => true,
                TokenType::Float(_) => true,
                _ => false,
            }
        } else {
            false
        }
    }

    /// Whether the current token is the end marker.
    fn at_end(&self) -> (b: bool)
        requires
            self.wf(),
        ensures
            b == (kind(self.tokens(), self.position()) is EOF),
    {
        proof {
            reveal(Parser::tokens);
        }
        if self.index < self.tokens.len() {
            matches!(self.tokens[self.index].ty, TokenType::EOF)
        } else {
            true
        }
    }

    /// The name of the identifier under the cursor, if it is one.
    fn identifier(&self) -> (r: Option<String>)
        requires
            self.wf(),
        ensures
            match kind(self.tokens(), self.position()) {
                SpecTokenType::Identifier(name) => r matches Some(s) && s@ == name,
                _ => r is None,
            },
    {
        proof {
            reveal(Parser::tokens);
        }
        if self.index < self.tokens.len() {
            match &self.tokens[self.index].ty {
                TokenType::Identifier(name) => Some(name.clone()),
                _ => None,
            }
        } else {
            None
        }
    }

    /// The byte offset at which the current token starts.
    fn start(&self) -> (n: usize)
        requires
            self.wf(),
        ensures
            n == token(self.tokens(), self.position()).start,
    {
        proof {
            reveal(Parser::tokens);
        }
        if self.index < self.tokens.len() {
            self.tokens[self.index].range.start
        } else {
            0
        }
    }

    /// The error for a token that was expected at the cursor and is not there.
    fn error(&self, reason: &str, start: usize) -> (e: SpectreError)
        requires
            self.wf(),
        ensures
            e@ == expected(self.tokens(), self.position(), reason@, start as int),
    {
        proof {
            reveal(Parser::tokens);
        }
        let end = if self.index < self.tokens.len() {
            self.tokens[self.index].range.end
        } else {
            0
        };
        SpectreError::new(String::from_str("expected token"), String::from_str(reason), start, end)
    }

    /// Moves the cursor over the current token.
    fn advance(&mut self)
        requires
            old(self).wf(),
            old(self).position() < old(self).tokens().len(),
        ensures
            final(self).wf(),
            final(self).tokens() == old(self).tokens(),
            final(self).position() == old(self).position() + 1,
    {
        proof {
            reveal(Parser::tokens);
        }
        self.index = self.index + 1;
    }

    /// Moves the cursor over a run of separators and gives their number.
    fn skip_newlines(&mut self) -> (n: usize)
        requires
            old(self).wf(),
        ensures
            final(self).wf(),
            final(self).tokens() == old(self).tokens(),
            n == newlines(old(self).tokens(), old(self).position()),
            final(self).position() == old(self).position() + n,
    {
        proof {
            reveal(Parser::tokens);
        }
        let first = self.index;
        while self.index < self.tokens.len() && matches!(
            self.tokens[self.index].ty,
            TokenType::Newline
        )
            invariant
                self.tokens == old(self).tokens,
                first == old(self).index,
                first <= self.index <= self.tokens.len(),
                newlines(self.tokens(), first as int) == (self.index - first) + newlines(
                    self.tokens(),
                    self.index as int,
                ),
            decreases self.tokens.len() - self.index,
        {
            proof {
                reveal(Parser::tokens);
            }
            self.index = self.index + 1;
        }
        self.index - first
    }

    /// The node of the numeric literal under the cursor.
    fn literal(&self) -> (r: Result<Node, SpectreError>)
        requires
            self.wf(),
            is_number(kind(self.tokens(), self.position())),
        ensures
            match r {
                Ok(node) => literal(self.tokens(), self.position()) == Ok::<SpecNode, SpecError>(
                    node@,
                ),
                Err(e) => literal(self.tokens(), self.position()) == Err::<SpecNode, SpecError>(
                    e@,
                ),
            },
    {
        proof {
            reveal(Parser::tokens);
        }
        let current = &self.tokens[self.index];
        match &current.ty {
            TokenType::Int(n) => Ok(Node::Int(*n)),
            TokenType::Float(text) => {
                let chars = to_chars(text.as_str());
                if text_is_real_literal(&chars) {
                    Ok(Node::Float(text.clone()))
                } else {
                    let mut reason = String::from_str("'");
                    push_chars(&mut reason, &chars);
                    reason.append("' is not a number with one decimal point");
                    Err(
                        SpectreError::new(
                            String::from_str("invalid number"),
                            reason,
                            current.range.start,
                            current.range.end,
                        ),
                    )
                }
            },
            _ => Ok(Node::Eof),
        }
    }

    /// The payload of the superscript token under the cursor, if it is one.
    fn payload(&self) -> (r: Option<Vec<Token>>)
        requires
            self.wf(),
        ensures
            match kind(self.tokens(), self.position()) {
                SpecTokenType::Superscript(p) => r matches Some(v) && tokens_view(v@) == p,
                _ => r is None,
            },
    {
        proof {
            reveal(Parser::tokens);
        }
        if self.index < self.tokens.len() {
            match &self.tokens[self.index].ty {
                TokenType::Superscript(tokens) => {
                    proof {
                        lemma_superscript_view(*tokens);
                    }
                    Some(clone_tokens(tokens))
                },
                _ => None,
            }
        } else {
            None
        }
    }

    /// Parses a program: a block of statements.
    pub fn parse(&mut self) -> (r: Result<Node, SpectreError>)
        requires
            old(self).wf(),
        ensures
            parsed_as(
                *old(self),
                *final(self),
                r,
                parse_statements(old(self).tokens(), old(self).position()),
            ),
    {
        self.statements()
    }

    fn statements(&mut self) -> (r: Result<Node, SpectreError>)
        requires
            old(self).wf(),
        ensures
            parsed_as(
                *old(self),
                *final(self),
                r,
                parse_statements(old(self).tokens(), old(self).position()),
            ),
        decreases old(self).tokens(), remaining(old(self).tokens(), old(self).position()), 22int,
    {
        proof {
            unfold_parse_statements(self.tokens(), self.position());
        }
        let ghost t = self.tokens();
        let ghost p0 = self.position();
        let mut nodes: Vec<Node> = Vec::new();
        self.skip_newlines();
        let first = match self.statement() {
            Ok(value) => value,
            Err(e) => {
                return Err(e);
            },
        };
        let ghost first_view = first@;
        nodes.push(first);
        let ghost p1 = self.position();
        let ghost whole = parse_statements(t, p0);
        let ghost more = parse_more_statements(t, p1);
        loop
            invariant_except_break
                more.result is Ok ==> parse_more_statements(t, self.position()).result is Ok
                    && more.result->Ok_0 == nodes_view(nodes@).skip(1) + parse_more_statements(
                    t,
                    self.position(),
                ).result->Ok_0 && p1 + more.used == self.position() + parse_more_statements(
                    t,
                    self.position(),
                ).used,
                more.result is Err ==> parse_more_statements(t, self.position()).result
                    == more.result,
            invariant
                self.wf(),
                self.tokens() == t,
                t == old(self).tokens(),
                p0 == old(self).position(),
                p0 <= p1 <= self.position(),
                nodes@.len() >= 1,
                nodes@[0]@ == first_view,
                whole == parse_statements(t, p0),
                more == parse_more_statements(t, p1),
                more.result is Err ==> whole.result == Err::<SpecNode, SpecError>(
                    more.result->Err_0,
                ),
                more.result is Ok ==> whole == read(
                    SpecNode::Statements(seq![first_view] + more.result->Ok_0),
                    (p1 - p0 + more.used) as nat,
                ),
            ensures
                more.result == Ok::<Seq<SpecNode>, SpecError>(nodes_view(nodes@).skip(1)),
                p1 + more.used == self.position(),
            decreases remaining(t, self.position()),
        {
            proof {
                unfold_parse_more_statements(t, self.position());
            }
            let ghost before = nodes_view(nodes@);
            let skipped = self.skip_newlines();
            if skipped == 0 || self.at(Symbol::RightBrace) {
                assert(before.skip(1) + Seq::<SpecNode>::empty() =~= before.skip(1));
                break;
            }
            let next = match self.statement() {
                Ok(value) => value,
                Err(e) => {
                    return Err(e);
                },
            };
            if matches!(next, Node::Eof) {
                assert(before.skip(1) + Seq::<SpecNode>::empty() =~= before.skip(1));
                break;
            }
            let ghost next_view = next@;
            nodes.push(next);
            proof {
                assert(nodes_view(nodes@) =~= before.push(next_view));
                match parse_more_statements(t, self.position()).result {
                    Ok(rest) => {
                        assert(before.skip(1) + (seq![next_view] + rest) =~= nodes_view(
                            nodes@,
                        ).skip(1) + rest);
                    },
                    Err(_) => {},
                }
            }
        }
        proof {
            lemma_statements_view(nodes);
            assert(nodes_view(nodes@) =~= seq![first_view] + nodes_view(nodes@).skip(1));
        }
        Ok(Node::Statements(nodes))
    }

    /// Parses one statement.
    pub fn statement(&mut self) -> (r: Result<Node, SpectreError>)
        requires
            old(self).wf(),
        ensures
            parsed_as(
                *old(self),
                *final(self),
                r,
                parse_statement(old(self).tokens(), old(self).position()),
            ),
        decreases old(self).tokens(), remaining(old(self).tokens(), old(self).position()), 20int,
    {
        proof {
            unfold_parse_statement(self.tokens(), self.position());
        }
        self.expr()
    }

    fn expr(&mut self) -> (r: Result<Node, SpectreError>)
        requires
            old(self).wf(),
        ensures
            parsed_as(
                *old(self),
                *final(self),
                r,
                parse_expr(old(self).tokens(), old(self).position()),
            ),
        decreases old(self).tokens(), remaining(old(self).tokens(), old(self).position()), 19int,
    {
        proof {
            unfold_parse_expr(self.tokens(), self.position());
        }
        let ghost t = self.tokens();
        let ghost p = self.position();
        if self.next_at(Symbol::Eq) {
            match self.identifier() {
                Some(name) => {
                    self.advance();
                    self.advance();
                    let value = match self.or_expr() {
                        Ok(value) => value,
                        Err(e) => {
                            assert(parse_expr(t, p).result == Err::<SpecNode, SpecError>(e@));
                            return Err(e);
                        },
                    };
                    let node = Node::Assignment(name, Box::new(value));
                    assert(parse_expr(t, p).result == Ok::<SpecNode, SpecError>(node@));
                    assert(self.position() == p + parse_expr(t, p).used);
                    return Ok(node);
                },
                None => {},
            }
        }
        assert(parse_expr(t, p) == parse_or(t, p));
        self.or_expr()
    }

    fn or_expr(&mut self) -> (r: Result<Node, SpectreError>)
        requires
            old(self).wf(),
        ensures
            parsed_as(
                *old(self),
                *final(self),
                r,
                parse_or(old(self).tokens(), old(self).position()),
            ),
        decreases old(self).tokens(), remaining(old(self).tokens(), old(self).position()), 18int,
    {
        proof {
            unfold_parse_or(self.tokens(), self.position());
        }
        let left = match self.and_expr() {
            Ok(value) => value,
            Err(e) => {
                return Err(e);
            },
        };
        if self.at(Symbol::Or) {
            self.advance();
            let right = match self.or_expr() {
                Ok(value) => value,
                Err(e) => {
                    return Err(e);
                },
            };
            Ok(Node::Binary(Box::new(left), BinaryOp::Or, Box::new(right)))
        } else {
            Ok(left)
        }
    }

    fn and_expr(&mut self) -> (r: Result<Node, SpectreError>)
        requires
            old(self).wf(),
        ensures
            parsed_as(
                *old(self),
                *final(self),
                r,
                parse_and(old(self).tokens(), old(self).position()),
            ),
        decreases old(self).tokens(), remaining(old(self).tokens(), old(self).position()), 17int,
    {
        proof {
            unfold_parse_and(self.tokens(), self.position());
        }
        let left = match self.not_expr() {
            Ok(value) => value,
            Err(e) => {
                return Err(e);
            },
        };
        if self.at(Symbol::And) {
            self.advance();
            let right = match self.and_expr() {
                Ok(value) => value,
                Err(e) => {
                    return Err(e);
                },
            };
            Ok(Node::Binary(Box::new(left), BinaryOp::And, Box::new(right)))
        } else {
            Ok(left)
        }
    }

    fn not_expr(&mut self) -> (r: Result<Node, SpectreError>)
        requires
            old(self).wf(),
        ensures
            parsed_as(
                *old(self),
                *final(self),
                r,
                parse_not(old(self).tokens(), old(self).position()),
            ),
        decreases old(self).tokens(), remaining(old(self).tokens(), old(self).position()), 16int,
    {
        proof {
            unfold_parse_not(self.tokens(), self.position());
        }
        if self.at(Symbol::Not) {
            self.advance();
            let operand = match self.not_expr() {
                Ok(value) => value,
                Err(e) => {
                    return Err(e);
                },
            };
            Ok(Node::Unary(UnaryOp::Not, Box::new(operand)))
        } else {
            self.comp_expr()
        }
    }

    /// The comparison that the current token denotes, if it is one.
    fn comparison(&self) -> (r: Option<BinaryOp>)
        requires
            self.wf(),
        ensures
            r == comparison(kind(self.tokens(), self.position())),
    {
        proof {
            reveal(Parser::tokens);
        }
        if self.index < self.tokens.len() {
            match &self.tokens[self.index].ty {
                TokenType::Symbol(Symbol::EqEq) => Some(BinaryOp::EqEq),
                TokenType::Symbol(Symbol::Neq) => Some(BinaryOp::Neq),
                TokenType::Symbol(Symbol::Lt) => Some(BinaryOp::Lt),
                TokenType::Symbol(Symbol::Lte) => Some(BinaryOp::Lte),
                TokenType::Symbol(Symbol::Gt) => Some(BinaryOp::Gt),
                TokenType::Symbol(Symbol::Gte) => Some(BinaryOp::Gte),
                _ => None,
            }
        } else {
            None
        }
    }

    /// The operator of the multiplication, division or remainder symbol under the cursor.
    fn multiplicative(&self) -> (r: Option<BinaryOp>)
        requires
            self.wf(),
        ensures
            r == multiplicative(kind(self.tokens(), self.position())),
    {
        proof {
            reveal(Parser::tokens);
        }
        if self.index < self.tokens.len() {
            match &self.tokens[self.index].ty {
                TokenType::Symbol(Symbol::Star) => Some(BinaryOp::Mul),
                TokenType::Symbol(Symbol::Dot) => Some(BinaryOp::Mul),
                TokenType::Symbol(Symbol::Cross) => Some(BinaryOp::Mul),
                TokenType::Symbol(Symbol::Slash) => Some(BinaryOp::Div),
                TokenType::Symbol(Symbol::Divide) => Some(BinaryOp::Div),
                TokenType::Symbol(Symbol::Percent) => Some(BinaryOp::Rem),
                _ => None,
            }
        } else {
            None
        }
    }

    /// The operator of the root symbol under the cursor.
    fn root(&self) -> (r: Option<UnaryOp>)
        requires
            self.wf(),
        ensures
            r == root(kind(self.tokens(), self.position())),
    {
        proof {
            reveal(Parser::tokens);
        }
        if self.index < self.tokens.len() {
            match &self.tokens[self.index].ty {
                TokenType::Symbol(Symbol::Sqrt) => Some(UnaryOp::Sqrt),
                TokenType::Symbol(Symbol::Cbrt) => Some(UnaryOp::Cbrt),
                TokenType::Symbol(Symbol::Fort) => Some(UnaryOp::Fort),
                _ => None,
            }
        } else {
            None
        }
    }

    fn comp_expr(&mut self) -> (r: Result<Node, SpectreError>)
        requires
            old(self).wf(),
        ensures
            parsed_as(
                *old(self),
                *final(self),
                r,
                parse_comp(old(self).tokens(), old(self).position()),
            ),
        decreases old(self).tokens(), remaining(old(self).tokens(), old(self).position()), 15int,
    {
        proof {
            unfold_parse_comp(self.tokens(), self.position());
        }
        let left = match self.arith_expr() {
            Ok(value) => value,
            Err(e) => {
                return Err(e);
            },
        };
        match self.comparison() {
            Some(op) => {
                self.advance();
                let right = match self.comp_expr() {
                    Ok(value) => value,
                    Err(e) => {
                        return Err(e);
                    },
                };
                Ok(Node::Binary(Box::new(left), op, Box::new(right)))
            },
            None => Ok(left),
        }
    }

    fn arith_expr(&mut self) -> (r: Result<Node, SpectreError>)
        requires
            old(self).wf(),
        ensures
            parsed_as(
                *old(self),
                *final(self),
                r,
                parse_arith(old(self).tokens(), old(self).position()),
            ),
        decreases old(self).tokens(), remaining(old(self).tokens(), old(self).position()), 14int,
    {
        proof {
            unfold_parse_arith(self.tokens(), self.position());
        }
        let left = match self.term() {
            Ok(value) => value,
            Err(e) => {
                return Err(e);
            },
        };
        if self.at(Symbol::Plus) {
            self.advance();
            let right = match self.arith_expr() {
                Ok(value) => value,
                Err(e) => {
                    return Err(e);
                },
            };
            Ok(Node::Binary(Box::new(left), BinaryOp::Add, Box::new(right)))
        } else if self.at(Symbol::Minus) {
            self.advance();
            let right = match self.arith_expr() {
                Ok(value) => value,
                Err(e) => {
                    return Err(e);
                },
            };
            Ok(Node::Binary(Box::new(left), BinaryOp::Sub, Box::new(right)))
        } else {
            Ok(left)
        }
    }

    fn term(&mut self) -> (r: Result<Node, SpectreError>)
        requires
            old(self).wf(),
        ensures
            parsed_as(
                *old(self),
                *final(self),
                r,
                parse_term(old(self).tokens(), old(self).position()),
            ),
        decreases old(self).tokens(), remaining(old(self).tokens(), old(self).position()), 13int,
    {
        proof {
            unfold_parse_term(self.tokens(), self.position());
        }
        if self.at_implicit_product() {
            let left = match self.literal() {
                Ok(value) => value,
                Err(e) => {
                    return Err(e);
                },
            };
            self.advance();
            let right = match self.term() {
                Ok(value) => value,
                Err(e) => {
                    return Err(e);
                },
            };
            return Ok(Node::Binary(Box::new(left), BinaryOp::Mul, Box::new(right)));
        }
        let left = match self.factor() {
            Ok(value) => value,
            Err(e) => {
                return Err(e);
            },
        };
        match self.multiplicative() {
            Some(op) => {
                self.advance();
                let right = match self.term() {
                    Ok(value) => value,
                    Err(e) => {
                        return Err(e);
                    },
                };
                Ok(Node::Binary(Box::new(left), op, Box::new(right)))
            },
            None => Ok(left),
        }
    }

    fn factor(&mut self) -> (r: Result<Node, SpectreError>)
        requires
            old(self).wf(),
        ensures
            parsed_as(
                *old(self),
                *final(self),
                r,
                parse_factor(old(self).tokens(), old(self).position()),
            ),
        decreases old(self).tokens(), remaining(old(self).tokens(), old(self).position()), 12int,
    {
        proof {
            unfold_parse_factor(self.tokens(), self.position());
        }
        if self.at(Symbol::Plus) {
            self.advance();
            let operand = match self.factor() {
                Ok(value) => value,
                Err(e) => {
                    return Err(e);
                },
            };
            Ok(Node::Unary(UnaryOp::Pos, Box::new(operand)))
        } else if self.at(Symbol::Minus) {
            self.advance();
            let operand = match self.factor() {
                Ok(value) => value,
                Err(e) => {
                    return Err(e);
                },
            };
            Ok(Node::Unary(UnaryOp::Neg, Box::new(operand)))
        } else {
            self.power()
        }
    }

    fn power(&mut self) -> (r: Result<Node, SpectreError>)
        requires
            old(self).wf(),
        ensures
            parsed_as(
                *old(self),
                *final(self),
                r,
                parse_power(old(self).tokens(), old(self).position()),
            ),
        decreases old(self).tokens(), remaining(old(self).tokens(), old(self).position()), 11int,
    {
        proof {
            unfold_parse_power(self.tokens(), self.position());
        }
        let left = match self.prefix() {
            Ok(value) => value,
            Err(e) => {
                return Err(e);
            },
        };
        if self.at(Symbol::Carrot) {
            self.advance();
            let right = match self.factor() {
                Ok(value) => value,
                Err(e) => {
                    return Err(e);
                },
            };
            Ok(Node::Binary(Box::new(left), BinaryOp::Pow, Box::new(right)))
        } else {
            Ok(left)
        }
    }

    fn prefix(&mut self) -> (r: Result<Node, SpectreError>)
        requires
            old(self).wf(),
        ensures
            parsed_as(
                *old(self),
                *final(self),
                r,
                parse_prefix(old(self).tokens(), old(self).position()),
            ),
        decreases old(self).tokens(), remaining(old(self).tokens(), old(self).position()), 10int,
    {
        proof {
            unfold_parse_prefix(self.tokens(), self.position());
        }
        match self.root() {
            Some(op) => {
                self.advance();
                let operand = match self.prefix() {
                    Ok(value) => value,
                    Err(e) => {
                        return Err(e);
                    },
                };
                Ok(Node::Unary(op, Box::new(operand)))
            },
            None => self.postfix(),
        }
    }

    fn postfix(&mut self) -> (r: Result<Node, SpectreError>)
        requires
            old(self).wf(),
        ensures
            parsed_as(
                *old(self),
                *final(self),
                r,
                parse_postfix(old(self).tokens(), old(self).position()),
            ),
        decreases old(self).tokens(), remaining(old(self).tokens(), old(self).position()), 9int,
    {
        proof {
            unfold_parse_postfix(self.tokens(), self.position());
        }
        let ghost t = self.tokens();
        let ghost p = self.position();
        let inner = match self.call() {
            Ok(value) => value,
            Err(e) => {
                assert(parse_postfix(t, p).result == Err::<SpecNode, SpecError>(e@));
                return Err(e);
            },
        };
        if self.at(Symbol::Exclamation) {
            self.advance();
            let node = Node::Unary(UnaryOp::Fact, Box::new(inner));
            assert(parse_postfix(t, p).result == Ok::<SpecNode, SpecError>(node@));
            assert(self.position() == p + parse_postfix(t, p).used);
            Ok(node)
        } else if self.at(Symbol::Degree) {
            self.advance();
            let node = Node::Unary(UnaryOp::Degree, Box::new(inner));
            assert(parse_postfix(t, p).result == Ok::<SpecNode, SpecError>(node@));
            assert(self.position() == p + parse_postfix(t, p).used);
            Ok(node)
        } else {
            match self.payload() {
                Some(tokens) => {
                    proof {
                        vstd::seq::axiom_seq_index_decreases(t, self.position());
                    }
                    let mut nested = Parser::new(tokens);
                    let exponent = match nested.arith_expr() {
                        Ok(value) => value,
                        Err(e) => {
                            assert(parse_postfix(t, p).result == Err::<SpecNode, SpecError>(e@));
                            return Err(e);
                        },
                    };
                    self.advance();
                    let node = Node::Binary(Box::new(inner), BinaryOp::Pow, Box::new(exponent));
                    assert(parse_postfix(t, p).result == Ok::<SpecNode, SpecError>(node@));
                    assert(self.position() == p + parse_postfix(t, p).used);
                    Ok(node)
                },
                None => {
                    let node = inner;
                    assert(parse_postfix(t, p).result == Ok::<SpecNode, SpecError>(node@));
                    assert(self.position() == p + parse_postfix(t, p).used);
                    Ok(node)
                },
            }
        }
    }

    fn call(&mut self) -> (r: Result<Node, SpectreError>)
        requires
            old(self).wf(),
        ensures
            parsed_as(
                *old(self),
                *final(self),
                r,
                parse_call(old(self).tokens(), old(self).position()),
            ),
        decreases old(self).tokens(), remaining(old(self).tokens(), old(self).position()), 8int,
    {
        proof {
            unfold_parse_call(self.tokens(), self.position());
        }
        let ghost t = self.tokens();
        let ghost p = self.position();
        let start = self.start();
        let callee = match self.atom() {
            Ok(value) => value,
            Err(e) => {
                assert(parse_call(t, p).result == Err::<SpecNode, SpecError>(e@));
                return Err(e);
            },
        };
        if !self.at(Symbol::LeftParen) {
            let node = callee;
            assert(parse_call(t, p).result == Ok::<SpecNode, SpecError>(node@));
            assert(self.position() == p + parse_call(t, p).used);
            return Ok(node);
        }
        let list_start = self.start();
        match callee {
            Node::Identifier(name) => {
                self.advance();
                let args = match self.list(list_start) {
                    Ok(value) => value,
                    Err(e) => {
                        assert(parse_call(t, p).result == Err::<SpecNode, SpecError>(e@));
                        return Err(e);
                    },
                };
                if self.at(Symbol::Eq) {
                    self.advance();
                    let body = match self.expr() {
                        Ok(value) => value,
                        Err(e) => {
                            assert(parse_call(t, p).result == Err::<SpecNode, SpecError>(e@));
                            return Err(e);
                        },
                    };
                    match names_of(&args) {
                        Some(names) => {
                            let node = Node::FnDef(name, names, Box::new(body));
                            assert(parse_call(t, p).result == Ok::<SpecNode, SpecError>(node@));
                            assert(self.position() == p + parse_call(t, p).used);
                            Ok(node)
                        },
                        None => {
                            let e = self.error(
                                "the parameters of a function must be identifiers",
                                start,
                            );
                            assert(parse_call(t, p).result == Err::<SpecNode, SpecError>(e@));
                            Err(e)
                        },
                    }
                } else {
                    proof {
                        lemma_call_view(name, args);
                    }
                    let node = Node::Call(name, args);
                    assert(parse_call(t, p).result == Ok::<SpecNode, SpecError>(node@));
                    assert(self.position() == p + parse_call(t, p).used);
                    Ok(node)
                }
            },
            _ => {
                let e = self.error("there should be an identifier here", start);
                assert(parse_call(t, p).result == Err::<SpecNode, SpecError>(e@));
                Err(e)
            },
        }
    }

    fn list(&mut self, start: usize) -> (r: Result<Vec<Node>, SpectreError>)
        requires
            old(self).wf(),
        ensures
            listed_as(
                *old(self),
                *final(self),
                r,
                parse_list(old(self).tokens(), old(self).position(), start as int),
            ),
        decreases old(self).tokens(), remaining(old(self).tokens(), old(self).position()), 21int,
    {
        proof {
            unfold_parse_list(self.tokens(), self.position(), start as int);
        }
        let ghost t = self.tokens();
        let ghost p0 = self.position();
        let mut nodes: Vec<Node> = Vec::new();
        loop
            invariant
                self.wf(),
                self.tokens() == t,
                t == old(self).tokens(),
                p0 == old(self).position(),
                p0 <= self.position(),
                parse_list(t, self.position(), start as int).result is Ok ==> {
                    &&& parse_list(t, p0, start as int).result == Ok::<Seq<SpecNode>, SpecError>(
                        nodes_view(nodes@) + parse_list(
                            t,
                            self.position(),
                            start as int,
                        ).result->Ok_0,
                    )
                    &&& p0 + parse_list(t, p0, start as int).used == self.position() + parse_list(
                        t,
                        self.position(),
                        start as int,
                    ).used
                },
                parse_list(t, self.position(), start as int).result is Err ==> parse_list(
                    t,
                    p0,
                    start as int,
                ).result == parse_list(t, self.position(), start as int).result,
            decreases remaining(t, self.position()),
        {
            proof {
                unfold_parse_list(t, self.position(), start as int);
            }
            let ghost before = nodes_view(nodes@);
            if self.at(Symbol::RightParen) {
                self.advance();
                assert(before + Seq::<SpecNode>::empty() =~= before);
                return Ok(nodes);
            }
            let item = match self.expr() {
                Ok(value) => value,
                Err(e) => {
                    return Err(e);
                },
            };
            let ghost item_view = item@;
            nodes.push(item);
            assert(nodes_view(nodes@) =~= before.push(item_view));
            if self.at(Symbol::Comma) {
                self.advance();
                proof {
                    match parse_list(t, self.position(), start as int).result {
                        Ok(rest) => {
                            assert(before + (seq![item_view] + rest) =~= nodes_view(nodes@)
                                + rest);
                        },
                        Err(_) => {},
                    }
                }
            } else if self.at(Symbol::RightParen) {
                self.advance();
                assert(before + seq![item_view] =~= nodes_view(nodes@));
                return Ok(nodes);
            } else {
                return Err(self.error("expected ',' or ')'", start));
            }
        }
    }

    fn atom(&mut self) -> (r: Result<Node, SpectreError>)
        requires
            old(self).wf(),
        ensures
            parsed_as(
                *old(self),
                *final(self),
                r,
                parse_atom(old(self).tokens(), old(self).position()),
            ),
        decreases old(self).tokens(), remaining(old(self).tokens(), old(self).position()), 7int,
    {
        proof {
            unfold_parse_atom(self.tokens(), self.position());
        }
        let ghost t = self.tokens();
        let ghost p = self.position();
        let start = self.start();
        if self.at_number() {
            let node = match self.literal() {
                Ok(value) => value,
                Err(e) => {
                    assert(parse_atom(t, p).result == Err::<SpecNode, SpecError>(e@));
                    return Err(e);
                },
            };
            self.advance();
            assert(parse_atom(t, p).result == Ok::<SpecNode, SpecError>(node@));
            assert(self.position() == p + parse_atom(t, p).used);
            return Ok(node);
        }
        match self.identifier() {
            Some(name) => {
                let node = Node::Identifier(name);
                self.advance();
                assert(parse_atom(t, p).result == Ok::<SpecNode, SpecError>(node@));
                assert(self.position() == p + parse_atom(t, p).used);
                return Ok(node);
            },
            None => {},
        }
        if self.at_end() {
            let node = Node::Eof;
            assert(parse_atom(t, p).result == Ok::<SpecNode, SpecError>(node@));
            assert(self.position() == p + parse_atom(t, p).used);
            return Ok(node);
        }
        let symbol = self.symbol();
        match symbol {
            Some(Symbol::LeftParen) => {
                self.advance();
                let inner = match self.expr() {
                    Ok(value) => value,
                    Err(e) => {
                        assert(parse_atom(t, p).result == Err::<SpecNode, SpecError>(e@));
                        return Err(e);
                    },
                };
                if !self.at(Symbol::RightParen) {
                    let e = self.error("expected ')'", start);
                    assert(parse_atom(t, p).result == Err::<SpecNode, SpecError>(e@));
                    return Err(e);
                }
                self.advance();
                let node = inner;
                assert(parse_atom(t, p).result == Ok::<SpecNode, SpecError>(node@));
                assert(self.position() == p + parse_atom(t, p).used);
                Ok(node)
            },
            Some(Symbol::Pipe) => {
                self.advance();
                let inner = match self.expr() {
                    Ok(value) => value,
                    Err(e) => {
                        assert(parse_atom(t, p).result == Err::<SpecNode, SpecError>(e@));
                        return Err(e);
                    },
                };
                if !self.at(Symbol::Pipe) {
                    let e = self.error("expected '|'", start);
                    assert(parse_atom(t, p).result == Err::<SpecNode, SpecError>(e@));
                    return Err(e);
                }
                self.advance();
                let node = Node::Unary(UnaryOp::Abs, Box::new(inner));
                assert(parse_atom(t, p).result == Ok::<SpecNode, SpecError>(node@));
                assert(self.position() == p + parse_atom(t, p).used);
                Ok(node)
            },
            Some(Symbol::LeftFloor) => {
                self.advance();
                let inner = match self.expr() {
                    Ok(value) => value,
                    Err(e) => {
                        assert(parse_atom(t, p).result == Err::<SpecNode, SpecError>(e@));
                        return Err(e);
                    },
                };
                if self.at(Symbol::RightFloor) {
                    self.advance();
                    let node = Node::Unary(UnaryOp::Floor, Box::new(inner));
                    assert(parse_atom(t, p).result == Ok::<SpecNode, SpecError>(node@));
                    assert(self.position() == p + parse_atom(t, p).used);
                    Ok(node)
                } else if self.at(Symbol::RightCeil) {
                    self.advance();
                    let node = Node::Unary(UnaryOp::Abs, Box::new(inner));
                    assert(parse_atom(t, p).result == Ok::<SpecNode, SpecError>(node@));
                    assert(self.position() == p + parse_atom(t, p).used);
                    Ok(node)
                } else {
                    let e = self.error("expected '⌋' or '⌉'", start);
                    assert(parse_atom(t, p).result == Err::<SpecNode, SpecError>(e@));
                    Err(e)
                }
            },
            Some(Symbol::LeftCeil) => {
                self.advance();
                let inner = match self.expr() {
                    Ok(value) => value,
                    Err(e) => {
                        assert(parse_atom(t, p).result == Err::<SpecNode, SpecError>(e@));
                        return Err(e);
                    },
                };
                if !self.at(Symbol::RightCeil) {
                    let e = self.error("expected '⌉'", start);
                    assert(parse_atom(t, p).result == Err::<SpecNode, SpecError>(e@));
                    return Err(e);
                }
                self.advance();
                let node = Node::Unary(UnaryOp::Ceil, Box::new(inner));
                assert(parse_atom(t, p).result == Ok::<SpecNode, SpecError>(node@));
                assert(self.position() == p + parse_atom(t, p).used);
                Ok(node)
            },
            Some(Symbol::If) => {
                assert(parse_atom(t, p) == parse_if(t, p));
                self.if_expr()
            },
            Some(Symbol::While) => {
                assert(parse_atom(t, p) == parse_while(t, p));
                self.while_expr()
            },
            _ => {
                let e = self.error(
                    "expected int, float, identifier, '(', '|', '⌊', '⌈', or 'if'",
                    start,
                );
                assert(parse_atom(t, p).result == Err::<SpecNode, SpecError>(e@));
                Err(e)
            },
        }
    }

    fn if_expr(&mut self) -> (r: Result<Node, SpectreError>)
        requires
            old(self).wf(),
        ensures
            parsed_as(
                *old(self),
                *final(self),
                r,
                parse_if(old(self).tokens(), old(self).position()),
            ),
        decreases old(self).tokens(), remaining(old(self).tokens(), old(self).position()), 5int,
    {
        proof {
            unfold_parse_if(self.tokens(), self.position());
        }
        let ghost t = self.tokens();
        let ghost p = self.position();
        if !self.at(Symbol::If) {
            let e = self.error("expected 'if'", self.start());
            assert(parse_if(t, p).result == Err::<SpecNode, SpecError>(e@));
            return Err(e);
        }
        self.advance();
        let cond = match self.expr() {
            Ok(value) => value,
            Err(e) => {
                assert(parse_if(t, p).result == Err::<SpecNode, SpecError>(e@));
                return Err(e);
            },
        };
        let body = match self.block() {
            Ok(value) => value,
            Err(e) => {
                assert(parse_if(t, p).result == Err::<SpecNode, SpecError>(e@));
                return Err(e);
            },
        };
        self.skip_newlines();
        if self.at(Symbol::Else) {
            let otherwise = match self.else_expr() {
                Ok(value) => value,
                Err(e) => {
                    assert(parse_if(t, p).result == Err::<SpecNode, SpecError>(e@));
                    return Err(e);
                },
            };
            let node = Node::If(Box::new(cond), Box::new(body), Some(Box::new(otherwise)));
            assert(parse_if(t, p).result == Ok::<SpecNode, SpecError>(node@));
            assert(self.position() == p + parse_if(t, p).used);
            Ok(node)
        } else {
            let node = Node::If(Box::new(cond), Box::new(body), None);
            assert(parse_if(t, p).result == Ok::<SpecNode, SpecError>(node@));
            assert(self.position() == p + parse_if(t, p).used);
            Ok(node)
        }
    }

    fn else_expr(&mut self) -> (r: Result<Node, SpectreError>)
        requires
            old(self).wf(),
        ensures
            parsed_as(
                *old(self),
                *final(self),
                r,
                parse_else(old(self).tokens(), old(self).position()),
            ),
        decreases old(self).tokens(), remaining(old(self).tokens(), old(self).position()), 4int,
    {
        proof {
            unfold_parse_else(self.tokens(), self.position());
        }
        if !self.at(Symbol::Else) {
            return Err(self.error("expected 'else'", self.start()));
        }
        self.advance();
        if self.at(Symbol::LeftBrace) {
            self.block()
        } else if self.at(Symbol::If) {
            self.if_expr()
        } else {
            Err(self.error("expected '{' or 'if'", self.start()))
        }
    }

    fn while_expr(&mut self) -> (r: Result<Node, SpectreError>)
        requires
            old(self).wf(),
        ensures
            parsed_as(
                *old(self),
                *final(self),
                r,
                parse_while(old(self).tokens(), old(self).position()),
            ),
        decreases old(self).tokens(), remaining(old(self).tokens(), old(self).position()), 5int,
    {
        proof {
            unfold_parse_while(self.tokens(), self.position());
        }
        let ghost t = self.tokens();
        let ghost p = self.position();
        if !self.at(Symbol::While) {
            let e = self.error("expected 'while'", self.start());
            assert(parse_while(t, p).result == Err::<SpecNode, SpecError>(e@));
            return Err(e);
        }
        self.advance();
        let cond = match self.expr() {
            Ok(value) => value,
            Err(e) => {
                assert(parse_while(t, p).result == Err::<SpecNode, SpecError>(e@));
                return Err(e);
            },
        };
        let body = match self.block() {
            Ok(value) => value,
            Err(e) => {
                assert(parse_while(t, p).result == Err::<SpecNode, SpecError>(e@));
                return Err(e);
            },
        };
        let node = Node::While(Box::new(cond), Box::new(body));
        assert(parse_while(t, p).result == Ok::<SpecNode, SpecError>(node@));
        assert(self.position() == p + parse_while(t, p).used);
        Ok(node)
    }

    fn block(&mut self) -> (r: Result<Node, SpectreError>)
        requires
            old(self).wf(),
        ensures
            parsed_as(
                *old(self),
                *final(self),
                r,
                parse_block(old(self).tokens(), old(self).position()),
            ),
        decreases old(self).tokens(), remaining(old(self).tokens(), old(self).position()), 3int,
    {
        proof {
            unfold_parse_block(self.tokens(), self.position());
        }
        let ghost t = self.tokens();
        let ghost p = self.position();
        if !self.at(Symbol::LeftBrace) {
            let e = self.error("expected '{'", self.start());
            assert(parse_block(t, p).result == Err::<SpecNode, SpecError>(e@));
            return Err(e);
        }
        self.advance();
        let body = match self.statements() {
            Ok(value) => value,
            Err(e) => {
                assert(parse_block(t, p).result == Err::<SpecNode, SpecError>(e@));
                return Err(e);
            },
        };
        if !self.at(Symbol::RightBrace) {
            let e = self.error("expected '}'", self.start());
            assert(parse_block(t, p).result == Err::<SpecNode, SpecError>(e@));
            return Err(e);
        }
        self.advance();
        assert(parse_block(t, p) == read(body@, parse_statements(t, p + 1).used + 2));
        Ok(body)
    }
}

/// The program that `tokens` are parsed to, or the first syntax error.
pub fn parse(tokens: Vec<Token>) -> (r: Result<Node, SpectreError>)
    ensures
        match r {
            Ok(node) => parse_program(tokens_view(tokens@)) == Ok::<SpecNode, SpecError>(node@),
            Err(e) => parse_program(tokens_view(tokens@)) == Err::<SpecNode, SpecError>(e@),
        },
{
    let mut parser = Parser::new(tokens);
    parser.parse()
}

} // verus!
