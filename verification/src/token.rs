//! Tokens: the smallest lexical units, each with a kind and a byte range.

use crate::glyphs::{plain_superscript, symbol_text, to_superscript};
use crate::text::{decimal_text, extend_str, from_chars, push_decimal};
use std::ops::Range;
use vstd::prelude::*;

verus! {

/// The fixed operator, bracket and keyword tokens.
#[derive(Clone, Copy, PartialEq, Eq, Structural, Debug)]
pub enum Symbol {
    Eq,
    Plus,
    Minus,
    Star,
    Dot,
    Cross,
    Slash,
    Divide,
    Percent,
    Carrot,
    Exclamation,
    Degree,
    Sqrt,
    Cbrt,
    Fort,
    LeftParen,
    RightParen,
    Pipe,
    LeftFloor,
    RightFloor,
    LeftCeil,
    RightCeil,
    LeftBrace,
    RightBrace,
    Comma,
    EqEq,
    Neq,
    Lt,
    Lte,
    Gt,
    Gte,
    And,
    Or,
    Not,
    If,
    Else,
    While,
}

/// The kind of a token.
///
/// A real literal keeps the text it was written with: digits and dots,
/// starting with a digit.  A superscript token carries the tokens of its
/// glyph run, lexed as a stream of their own.
#[derive(Debug, PartialEq)]
pub enum TokenType {
    Int(i32),
    Float(String),
    Identifier(String),
    Superscript(Vec<Token>),
    Symbol(Symbol),
    Newline,
    EOF,
}

/// A token: its kind and the byte range of the source text it was read from.
#[derive(Debug, PartialEq)]
pub struct Token {
    pub ty: TokenType,
    pub range: Range<usize>,
}

/// The mathematical content of a [`TokenType`].
pub enum SpecTokenType {
    Int(i32),
    Float(Seq<char>),
    Identifier(Seq<char>),
    Superscript(Seq<SpecToken>),
    Symbol(Symbol),
    Newline,
    EOF,
}

/// The mathematical content of a [`Token`].
pub struct SpecToken {
    pub ty: SpecTokenType,
    pub start: int,
    pub end: int,
}

/// The mathematical content of a token kind.
pub open spec fn token_type_view(ty: TokenType) -> SpecTokenType
    decreases ty,
{
    match ty {
        TokenType::Int(n) => SpecTokenType::Int(n),
        TokenType::Float(text) => SpecTokenType::Float(text@),
        TokenType::Identifier(name) => SpecTokenType::Identifier(name@),
        TokenType::Superscript(tokens) => SpecTokenType::Superscript(
            Seq::new(
                tokens@.len(),
                |i: int|
                    if 0 <= i < tokens@.len() {
                        token_view(tokens@[i])
                    } else {
                        arbitrary()
                    },
            ),
        ),
        TokenType::Symbol(s) => SpecTokenType::Symbol(s),
        TokenType::Newline => SpecTokenType::Newline,
        TokenType::EOF => SpecTokenType::EOF,
    }
}

/// The mathematical content of a token.
pub open spec fn token_view(token: Token) -> SpecToken
    decreases token,
{
    SpecToken {
        ty: token_type_view(token.ty),
        start: token.range.start as int,
        end: token.range.end as int,
    }
}

impl View for TokenType {
    type V = SpecTokenType;

    open spec fn view(&self) -> SpecTokenType {
        token_type_view(*self)
    }
}

impl View for Token {
    type V = SpecToken;

    open spec fn view(&self) -> SpecToken {
        token_view(*self)
    }
}

/// The views of a run of tokens, in order.
pub open spec fn tokens_view(tokens: Seq<Token>) -> Seq<SpecToken> {
    Seq::new(tokens.len(), |i: int| tokens[i]@)
}

/// The payload of a superscript token is viewed token by token.
pub proof fn lemma_superscript_view(tokens: Vec<Token>)
    ensures
        TokenType::Superscript(tokens)@ == SpecTokenType::Superscript(tokens_view(tokens@)),
{
    assert(TokenType::Superscript(tokens)@->Superscript_0 =~= tokens_view(tokens@));
}

/// A text in single quotes, as diagnostics show a symbol.
pub open spec fn quoted(text: Seq<char>) -> Seq<char> {
    seq!['\''] + text + seq!['\'']
}

/// The text that is shown for a token kind: a literal or a name as it is, a
/// symbol in single quotes, a superscript as `^(..)` around its tokens.
pub open spec fn display_text(ty: SpecTokenType) -> Seq<char>
    decreases ty,
{
    match ty {
        SpecTokenType::Int(n) => decimal_text(n as int),
        SpecTokenType::Float(text) => text,
        SpecTokenType::Identifier(name) => name,
        SpecTokenType::Superscript(tokens) => seq!['^', '('] + display_list(tokens) + seq![')'],
        SpecTokenType::Symbol(s) => quoted(symbol_text(s)),
        SpecTokenType::Newline => seq!['\'', '\\', 'n', '\''],
        SpecTokenType::EOF => seq!['<', 'e', 'o', 'f', '>'],
    }
}

/// The texts shown for `tokens`, with one space between neighbours.
pub open spec fn display_list(tokens: Seq<SpecToken>) -> Seq<char>
    decreases tokens,
{
    if tokens.len() == 0 {
        seq![]
    } else if tokens.len() == 1 {
        display_text(tokens[0].ty)
    } else {
        display_list(tokens.drop_last()) + seq![' '] + display_text(tokens.last().ty)
    }
}

/// The superscript glyphs of a plain text, if each of its characters has one.
pub open spec fn raised(plain: Seq<char>) -> Option<Seq<char>> {
    if forall|k: int| 0 <= k < plain.len() ==> plain_superscript(#[trigger] plain[k]) is Some {
        Some(Seq::new(plain.len(), |k: int| plain_superscript(plain[k])->0))
    } else {
        None
    }
}

/// The source text of a token kind, if it has one: a superscript has one
/// only if each character of its payload's source text has a superscript
/// glyph.
pub open spec fn lexeme(ty: SpecTokenType) -> Option<Seq<char>>
    decreases ty,
{
    match ty {
        SpecTokenType::Int(n) => Some(decimal_text(n as int)),
        SpecTokenType::Float(text) => Some(text),
        SpecTokenType::Identifier(name) => Some(name),
        SpecTokenType::Superscript(tokens) => match lexeme_list(tokens) {
            Some(plain) => raised(plain),
            None => None,
        },
        SpecTokenType::Symbol(s) => Some(symbol_text(s)),
        SpecTokenType::Newline => Some(seq!['\n']),
        SpecTokenType::EOF => Some(seq![]),
    }
}

/// The source texts of `tokens`, one after the other.
pub open spec fn lexeme_list(tokens: Seq<SpecToken>) -> Option<Seq<char>>
    decreases tokens,
{
    if tokens.len() == 0 {
        Some(seq![])
    } else {
        match (lexeme_list(tokens.drop_last()), lexeme(tokens.last().ty)) {
            (Some(before), Some(last)) => Some(before + last),
            _ => None,
        }
    }
}

impl TokenType {
    /// Appends the text shown for this token kind to `out`.
    fn push_display(&self, out: &mut Vec<char>)
        ensures
            final(out)@ == old(out)@ + display_text(self@),
        decreases self,
    {
        match self {
            TokenType::Int(n) => push_decimal(out, *n),
            TokenType::Float(text) => extend_str(out, text.as_str()),
            TokenType::Identifier(name) => extend_str(out, name.as_str()),
            TokenType::Superscript(tokens) => {
                proof {
                    lemma_superscript_view(*tokens);
                }
                out.push('^');
                out.push('(');
                let ghost base = out@;
                let ghost views = tokens_view(tokens@);
                let mut i: usize = 0;
                while i < tokens.len()
                    invariant
                        i <= tokens.len(),
                        self is Superscript,
                        self->Superscript_0 == *tokens,
                        views == tokens_view(tokens@),
                        out@ == base + display_list(views.take(i as int)),
                    decreases tokens.len() - i,
                {
                    proof {
                        vstd::std_specs::vec::axiom_vec_index_decreases(*tokens, i as int);
                        assert(views.take(i as int + 1).drop_last() =~= views.take(i as int));
                    }
                    if i > 0 {
                        out.push(' ');
                    }
                    tokens[i].ty.push_display(out);
                    i += 1;
                    assert(out@ =~= base + display_list(views.take(i as int)));
                }
                assert(views.take(i as int) =~= views);
                out.push(')');
                assert(out@ =~= old(out)@ + display_text(self@));
            },
            TokenType::Symbol(s) => {
                out.push('\'');
                extend_str(out, s.text());
                out.push('\'');
                assert(out@ =~= old(out)@ + display_text(self@));
            },
            TokenType::Newline => {
                out.push('\'');
                out.push('\\');
                out.push('n');
                out.push('\'');
                assert(out@ =~= old(out)@ + display_text(self@));
            },
            TokenType::EOF => {
                out.push('<');
                out.push('e');
                out.push('o');
                out.push('f');
                out.push('>');
                assert(out@ =~= old(out)@ + display_text(self@));
            },
        }
    }

    /// The text that is shown for this token kind.
    pub fn to_string(&self) -> (r: String)
        ensures
            r@ == display_text(self@),
    {
        let mut out: Vec<char> = Vec::new();
        self.push_display(&mut out);
        from_chars(&out)
    }

    /// Appends the source text of this token kind to `out`, if it has one.
    fn push_lexeme(&self, out: &mut Vec<char>) -> (ok: bool)
        ensures
            match lexeme(self@) {
                Some(text) => ok && final(out)@ == old(out)@ + text,
                None => !ok,
            },
        decreases self,
    {
        match self {
            TokenType::Int(n) => {
                push_decimal(out, *n);
                true
            },
            TokenType::Float(text) => {
                extend_str(out, text.as_str());
                true
            },
            TokenType::Identifier(name) => {
                extend_str(out, name.as_str());
                true
            },
            TokenType::Superscript(tokens) => {
                proof {
                    lemma_superscript_view(*tokens);
                }
                let ghost views = tokens_view(tokens@);
                let mut plain: Vec<char> = Vec::new();
                let mut i: usize = 0;
                while i < tokens.len()
                    invariant
                        i <= tokens.len(),
                        self is Superscript,
                        self->Superscript_0 == *tokens,
                        views == tokens_view(tokens@),
                        self@ == SpecTokenType::Superscript(views),
                        lexeme_list(views.take(i as int)) == Some(plain@),
                    decreases tokens.len() - i,
                {
                    proof {
                        vstd::std_specs::vec::axiom_vec_index_decreases(*tokens, i as int);
                        assert(views.take(i as int + 1).drop_last() =~= views.take(i as int));
                        assert(views.take(i as int + 1).last() == tokens@[i as int]@);
                        lemma_lexeme_list_prefix(views, i as int + 1);
                    }
                    if !tokens[i].ty.push_lexeme(&mut plain) {
                        return false;
                    }
                    i += 1;
                }
                assert(views.take(i as int) =~= views);
                let ghost base = out@;
                let mut k: usize = 0;
                while k < plain.len()
                    invariant
                        k <= plain.len(),
                        self@ == SpecTokenType::Superscript(views),
                        lexeme_list(views) == Some(plain@),
                        forall|j: int| 0 <= j < k ==> plain_superscript(#[trigger] plain@[j]) is Some,
                        out@ == base + Seq::new(k as nat, |j: int| plain_superscript(plain@[j])->0),
                    decreases plain.len() - k,
                {
                    match to_superscript(plain[k]) {
                        Some(glyph) => out.push(glyph),
                        None => {
                            return false;
                        },
                    }
                    k += 1;
                    assert(out@ =~= base + Seq::new(
                        k as nat,
                        |j: int| plain_superscript(plain@[j])->0,
                    ));
                }
                assert(out@ =~= base + raised(plain@)->0);
                true
            },
            TokenType::Symbol(s) => {
                extend_str(out, s.text());
                true
            },
            TokenType::Newline => {
                out.push('\n');
                assert(out@ =~= old(out)@ + seq!['\n']);
                true
            },
            TokenType::EOF => {
                assert(out@ =~= old(out)@ + Seq::<char>::empty());
                true
            },
        }
    }

    /// The source text of this token kind, if it has one.
    pub fn lexeme(&self) -> (r: Option<String>)
        ensures
            match lexeme(self@) {
                Some(text) => r matches Some(s) && s@ == text,
                None => r is None,
            },
    {
        let mut out: Vec<char> = Vec::new();
        if self.push_lexeme(&mut out) {
            Some(from_chars(&out))
        } else {
            None
        }
    }
}

impl Token {
    /// The text that is shown for this token.
    pub fn to_string(&self) -> (r: String)
        ensures
            r@ == display_text(self@.ty),
    {
        self.ty.to_string()
    }
}

/// If a run of tokens has a source text, so has each of its prefixes.
pub proof fn lemma_lexeme_list_prefix(tokens: Seq<SpecToken>, i: int)
    requires
        0 <= i <= tokens.len(),
    ensures
        lexeme_list(tokens.take(i)) is None ==> lexeme_list(tokens) is None,
    decreases tokens.len() - i,
{
    if i < tokens.len() {
        assert(tokens.take(i + 1).drop_last() =~= tokens.take(i));
        lemma_lexeme_list_prefix(tokens, i + 1);
    } else {
        assert(tokens.take(i) =~= tokens);
    }
}

impl Clone for TokenType {
    fn clone(&self) -> (r: Self)
        ensures
            r@ == self@,
        decreases self,
    {
        match self {
            TokenType::Int(n) => TokenType::Int(*n),
            TokenType::Float(text) => TokenType::Float(text.clone()),
            TokenType::Identifier(name) => TokenType::Identifier(name.clone()),
            TokenType::Superscript(tokens) => {
                let mut out: Vec<Token> = Vec::new();
                let mut i: usize = 0;
                while i < tokens.len()
                    invariant
                        i <= tokens.len(),
                        out@.len() == i,
                        forall|k: int| 0 <= k < i ==> out@[k]@ == tokens@[k]@,
                        self is Superscript,
                        self->Superscript_0 == *tokens,
                    decreases tokens.len() - i,
                {
                    proof {
                        vstd::std_specs::vec::axiom_vec_index_decreases(*tokens, i as int);
                    }
                    out.push(tokens[i].clone());
                    i += 1;
                }
                assert(TokenType::Superscript(out)@->Superscript_0 =~= self@->Superscript_0);
                TokenType::Superscript(out)
            },
            TokenType::Symbol(s) => TokenType::Symbol(*s),
            TokenType::Newline => TokenType::Newline,
            TokenType::EOF => TokenType::EOF,
        }
    }
}

impl Clone for Token {
    fn clone(&self) -> (r: Self)
        ensures
            r@ == self@,
        decreases self,
    {
        Token {
            ty: self.ty.clone(),
            range: Range { start: self.range.start, end: self.range.end },
        }
    }
}

} // verus!
