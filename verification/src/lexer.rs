//! The lexer: source text to tokens.
//!
//! What the lexer computes is stated by [`token_at`] and [`lex_from`] over the
//! sequence of characters of the source; [`Lexer`] is proved against them.

use crate::error::{SpecError, SpectreError};
use crate::glyphs::{
    char_is_blank, char_is_digit, char_is_number_char, char_is_word_char, char_is_word_start,
    char_width, digit_value, is_blank, is_digit, is_number_char, is_superscript, is_word_char,
    is_word_start, keyword, keyword_of, superscript_plain, symbol_at, symbol_of, to_plain,
    utf8_len, utf8_width,
};
use crate::token::{
    lemma_superscript_view, tokens_view, SpecToken, SpecTokenType, Token, TokenType,
};
use crate::text::{
    byte_len, from_chars, lemma_utf8_len_ascii, lemma_utf8_len_prefix, push_chars, slice,
    to_chars,
};
use std::ops::Range;
use vstd::prelude::*;

verus! {

/// The character at index `i`, or NUL past the end.
pub open spec fn char_at(s: Seq<char>, i: int) -> char {
    if 0 <= i < s.len() {
        s[i]
    } else {
        '\0'
    }
}

/// The end of the longest run of characters of class `class` that starts at `i`.
pub open spec fn run_end(s: Seq<char>, i: int, class: spec_fn(char) -> bool) -> int
    decreases s.len() - i,
{
    if 0 <= i < s.len() && class(s[i]) {
        run_end(s, i + 1, class)
    } else {
        i
    }
}

/// The byte offset of the character at index `i`.
pub open spec fn byte_offset(s: Seq<char>, i: int) -> int {
    utf8_len(s.take(i))
}

/// The number that a run of decimal digits denotes.
pub open spec fn decimal_value(digits: Seq<char>) -> int
    decreases digits.len(),
{
    if digits.len() == 0 {
        0
    } else {
        10 * decimal_value(digits.drop_last()) + digit_value(digits.last())
    }
}

/// The plain text that a run of superscript glyphs stands for.
pub open spec fn plain_text(run: Seq<char>) -> Seq<char> {
    Seq::new(
        run.len(),
        |k: int|
            match superscript_plain(run[k]) {
                Some(p) => p,
                None => '\0',
            },
    )
}

/// 1 if `s` holds a superscript glyph, else 0.  Superscripts do not nest:
/// the plain text of a run holds none.
pub open spec fn superscript_rank(s: Seq<char>) -> int {
    if exists|k: int| 0 <= k < s.len() && is_superscript(#[trigger] s[k]) {
        1
    } else {
        0
    }
}

/// The index at which the token at or after `i` starts: blanks are skipped.
pub open spec fn token_start(s: Seq<char>, i: int) -> int {
    run_end(s, i, |c: char| is_blank(c))
}

/// Whether only blanks are left from `i` on (a NUL character ends the text too).
pub open spec fn at_end(s: Seq<char>, i: int) -> bool {
    char_at(s, token_start(s, i)) == '\0'
}

/// The index of the first character after the token at or after `i`.
/// After a character that starts no token, it is the index after that character.
pub open spec fn token_end(s: Seq<char>, i: int) -> int {
    let start = token_start(s, i);
    let c = char_at(s, start);
    if is_digit(c) {
        run_end(s, start + 1, |c: char| is_number_char(c))
    } else if is_word_start(c) {
        run_end(s, start + 1, |c: char| is_word_char(c))
    } else if is_superscript(c) {
        run_end(s, start, |c: char| is_superscript(c))
    } else if c == '\0' {
        start
    } else {
        match symbol_at(c, char_at(s, start + 1)) {
            Some((_, n)) => start + n,
            None => start + 1,
        }
    }
}

/// A token of kind `ty` that spans the characters `from..to` of `s`.
pub open spec fn spanning(s: Seq<char>, ty: SpecTokenType, from: int, to: int) -> Result<
    SpecToken,
    SpecError,
> {
    Ok(SpecToken { ty, start: byte_offset(s, from), end: byte_offset(s, to) })
}

/// An error about the characters `from..to` of `s`.
pub open spec fn failing(s: Seq<char>, msg: Seq<char>, reason: Seq<char>, from: int, to: int)
    -> Result<SpecToken, SpecError> {
    Err(SpecError { msg, reason, start: byte_offset(s, from), end: byte_offset(s, to) })
}

/// A numeric literal that spans `start..end`: a digit, then digits and dots.
/// Without a dot it is an integer, which must fit in 32 bits; with one or
/// more dots it is a real literal, kept as written.
pub open spec fn number_token(s: Seq<char>, start: int, end: int) -> Result<SpecToken, SpecError> {
    let text = s.subrange(start, end);
    if text.contains('.') {
        spanning(s, SpecTokenType::Float(text), start, end)
    } else if decimal_value(text) <= i32::MAX {
        spanning(s, SpecTokenType::Int(decimal_value(text) as i32), start, end)
    } else {
        failing(
            s,
            "invalid number"@,
            "'"@ + text + "' does not fit in a 32-bit integer"@,
            start,
            end,
        )
    }
}

/// A word that spans `start..end`: a keyword or an identifier.
pub open spec fn word_token(s: Seq<char>, start: int, end: int) -> Result<SpecToken, SpecError> {
    let word = s.subrange(start, end);
    match keyword_of(word) {
        Some(k) => spanning(s, SpecTokenType::Symbol(k), start, end),
        None => spanning(s, SpecTokenType::Identifier(word), start, end),
    }
}

/// The token that starts at or after index `i` of `s`, blanks skipped.
///
/// A run of superscript glyphs is one token: its plain text is lexed as a
/// stream of its own, and the tokens of that stream, without the end marker,
/// are the token's payload.  An error in that stream is reported for the
/// whole run.
pub open spec fn token_at(s: Seq<char>, i: int) -> Result<SpecToken, SpecError>
    decreases superscript_rank(s), s.len() - i, 0int,
    when 0 <= i <= s.len()
{
    let start = token_start(s, i);
    let end = token_end(s, i);
    let c = char_at(s, start);
    if is_digit(c) {
        number_token(s, start, end)
    } else if is_word_start(c) {
        word_token(s, start, end)
    } else if is_superscript(c) {
        let sub = plain_text(s.subrange(start, end));
        proof {
            assert(is_superscript(s[start]));
            assert forall|k: int| 0 <= k < sub.len() implies !is_superscript(#[trigger] sub[k]) by {}
        }
        match lex_from(sub, 0) {
            Ok(tokens) => spanning(s, SpecTokenType::Superscript(tokens.drop_last()), start, end),
            Err(e) => failing(s, e.msg, e.reason, start, end),
        }
    } else if c == '\0' {
        spanning(s, SpecTokenType::EOF, start, end)
    } else {
        match symbol_at(c, char_at(s, start + 1)) {
            Some((symbol, _)) => spanning(s, SpecTokenType::Symbol(symbol), start, end),
            None => if c == '\n' || c == ';' {
                spanning(s, SpecTokenType::Newline, start, end)
            } else {
                failing(
                    s,
                    "invalid character"@,
                    "'"@.push(c) + "' is not a valid character"@,
                    start,
                    end,
                )
            },
        }
    }
}

/// The tokens of `s` from index `i` on, up to and with the end marker, or
/// the first error.
pub open spec fn lex_from(s: Seq<char>, i: int) -> Result<Seq<SpecToken>, SpecError>
    decreases superscript_rank(s), s.len() - i, 1int,
    when 0 <= i <= s.len()
{
    match token_at(s, i) {
        Err(e) => Err(e),
        Ok(token) => if at_end(s, i) {
            Ok(seq![token])
        } else {
            proof {
                lemma_token_end_bounds(s, i);
            }
            match lex_from(s, token_end(s, i)) {
                Ok(rest) => Ok(seq![token] + rest),
                Err(e) => Err(e),
            }
        },
    }
}

/// The index at which lexing from `i` stops: after the end marker, or
/// after the token that is in error.
pub open spec fn lex_stop(s: Seq<char>, i: int) -> int
    decreases s.len() - i,
    when 0 <= i <= s.len()
{
    if token_at(s, i) is Err || at_end(s, i) {
        token_end(s, i)
    } else {
        proof {
            lemma_token_end_bounds(s, i);
        }
        lex_stop(s, token_end(s, i))
    }
}

/// The tokens of a whole source text.
pub open spec fn lex_text(s: Seq<char>) -> Result<Seq<SpecToken>, SpecError> {
    lex_from(s, 0)
}

/// A run ends at or after its start and within the text; every character in
/// it is of the class, and the character after it is not.
pub proof fn lemma_run_end_bounds(s: Seq<char>, i: int, class: spec_fn(char) -> bool)
    requires
        0 <= i <= s.len(),
    ensures
        i <= run_end(s, i, class) <= s.len(),
        forall|k: int| i <= k < run_end(s, i, class) ==> class(#[trigger] s[k]),
        run_end(s, i, class) < s.len() ==> !class(s[run_end(s, i, class)]),
    decreases s.len() - i,
{
    if i < s.len() && class(s[i]) {
        lemma_run_end_bounds(s, i + 1, class);
    }
}

/// A token lies within the text, and unless the end was reached it takes at
/// least one character.
pub proof fn lemma_token_end_bounds(s: Seq<char>, i: int)
    requires
        0 <= i <= s.len(),
    ensures
        i <= token_start(s, i) <= token_end(s, i) <= s.len(),
        !at_end(s, i) ==> token_start(s, i) < token_end(s, i),
{
    let start = token_start(s, i);
    lemma_run_end_bounds(s, i, |c: char| is_blank(c));
    if start < s.len() {
        lemma_run_end_bounds(s, start + 1, |c: char| is_number_char(c));
        lemma_run_end_bounds(s, start + 1, |c: char| is_word_char(c));
        lemma_run_end_bounds(s, start, |c: char| is_superscript(c));
    }
}

/// The value of a run of digits is not negative, and that of a prefix is at
/// most that of the whole run.
pub proof fn lemma_decimal_value_prefix(digits: Seq<char>, k: int)
    requires
        0 <= k <= digits.len(),
        forall|j: int| 0 <= j < digits.len() ==> is_digit(#[trigger] digits[j]),
    ensures
        0 <= decimal_value(digits.take(k)) <= decimal_value(digits),
        k < digits.len() ==> decimal_value(digits.take(k + 1)) == 10 * decimal_value(
            digits.take(k),
        ) + digit_value(digits[k]),
    decreases digits.len() - k,
{
    lemma_decimal_value_nonnegative(digits.take(k));
    if k == digits.len() {
        assert(digits.take(k) =~= digits);
    } else {
        lemma_decimal_value_prefix(digits, k + 1);
        assert(digits.take(k + 1).drop_last() =~= digits.take(k));
    }
}

/// The value of a run of digits is not negative.
pub proof fn lemma_decimal_value_nonnegative(digits: Seq<char>)
    requires
        forall|j: int| 0 <= j < digits.len() ==> is_digit(#[trigger] digits[j]),
    ensures
        0 <= decimal_value(digits),
    decreases digits.len(),
{
    if digits.len() > 0 {
        lemma_decimal_value_nonnegative(digits.drop_last());
    }
}

/// Byte offsets grow with the index.
pub proof fn lemma_byte_offset_monotone(s: Seq<char>, a: int, b: int)
    requires
        0 <= a <= b <= s.len(),
    ensures
        0 <= byte_offset(s, a) <= byte_offset(s, b) <= utf8_len(s),
{
    assert(s.take(b).take(a) =~= s.take(a));
    lemma_utf8_len_prefix(s.take(b), a);
    lemma_utf8_len_prefix(s, b);
}

/// The range of a token, and that of an error, lies within the source text.
pub proof fn lemma_token_range(s: Seq<char>, i: int)
    requires
        0 <= i <= s.len(),
    ensures
        match token_at(s, i) {
            Ok(t) => 0 <= t.start <= t.end <= utf8_len(s),
            Err(e) => 0 <= e.start <= e.end <= utf8_len(s),
        },
{
    lemma_token_end_bounds(s, i);
    lemma_byte_offset_monotone(s, token_start(s, i), token_end(s, i));
}

/// The ranges of all tokens of a text lie within it, and so does the range of a lexical error.
pub proof fn lemma_lex_ranges(s: Seq<char>, i: int)
    requires
        0 <= i <= s.len(),
    ensures
        match lex_from(s, i) {
            Ok(tokens) => forall|k: int|
                0 <= k < tokens.len() ==> 0 <= (#[trigger] tokens[k]).start <= tokens[k].end
                    <= utf8_len(s),
            Err(e) => 0 <= e.start <= e.end <= utf8_len(s),
        },
    decreases s.len() - i,
{
    lemma_token_range(s, i);
    lemma_token_end_bounds(s, i);
    if token_at(s, i) is Ok && !at_end(s, i) {
        lemma_lex_ranges(s, token_end(s, i));
    }
}

/// The end marker is read exactly when the end of the text was reached.
pub proof fn lemma_end_marker(s: Seq<char>, i: int)
    requires
        0 <= i <= s.len(),
    ensures
        token_at(s, i) matches Ok(t) ==> (t.ty is EOF <==> at_end(s, i)),
{
}

/// A successful lex ends with the end marker, so it is never empty.
pub proof fn lemma_lex_nonempty(s: Seq<char>, i: int)
    requires
        0 <= i <= s.len(),
    ensures
        lex_from(s, i) matches Ok(tokens) ==> tokens.len() >= 1,
{
}

/// The view of a result of reading one token.
pub open spec fn token_result_view(r: Result<Token, SpectreError>) -> Result<SpecToken, SpecError> {
    match r {
        Ok(t) => Ok(t@),
        Err(e) => Err(e@),
    }
}

/// The view of a result of lexing.
pub open spec fn tokens_result_view(r: Result<Vec<Token>, SpectreError>) -> Result<
    Seq<SpecToken>,
    SpecError,
> {
    match r {
        Ok(ts) => Ok(tokens_view(ts@)),
        Err(e) => Err(e@),
    }
}

/// Whether `text` holds a dot.
fn contains_dot(text: &Vec<char>) -> (b: bool)
    ensures
        b == text@.contains('.'),
{
    let mut i: usize = 0;
    while i < text.len()
        invariant
            i <= text.len(),
            forall|k: int| 0 <= k < i ==> text@[k] != '.',
        decreases text.len() - i,
    {
        if text[i] == '.' {
            return true;
        }
        i += 1;
    }
    false
}

/// The value of a run of digits, if it fits in 32 bits.
fn parse_decimal(digits: &Vec<char>) -> (r: Option<i32>)
    requires
        forall|j: int| 0 <= j < digits.len() ==> is_digit(#[trigger] digits@[j]),
    ensures
        match r {
            Some(n) => n == decimal_value(digits@),
            None => decimal_value(digits@) > i32::MAX,
        },
{
    let mut value: i64 = 0;
    let mut i: usize = 0;
    while i < digits.len()
        invariant
            i <= digits.len(),
            forall|j: int| 0 <= j < digits.len() ==> is_digit(#[trigger] digits@[j]),
            value == decimal_value(digits@.take(i as int)),
            0 <= value <= i32::MAX,
        decreases digits.len() - i,
    {
        proof {
            lemma_decimal_value_prefix(digits@, i as int);
            lemma_decimal_value_prefix(digits@, i as int + 1);
        }
        let d: i64 = (digits[i] as u32 - '0' as u32) as i64;
        value = value * 10 + d;
        if value > 2147483647 {
            return None;
        }
        i += 1;
    }
    assert(digits@.take(i as int) =~= digits@);
    Some(value as i32)
}

/// A token of kind `ty` with the byte range `start..end`.
fn token(ty: TokenType, start: usize, end: usize) -> (t: Token)
    ensures
        t@ == (SpecToken { ty: ty@, start: start as int, end: end as int }),
{
    Token { ty, range: Range { start, end } }
}

/// The lexer: a cursor over the characters of a source text.
pub struct Lexer {
    source: Vec<char>,
    index: usize,
    offset: usize,
}

impl Lexer {
    /// The characters of the source text.
    pub closed spec fn source(&self) -> Seq<char> {
        self.source@
    }

    /// The index of the next character to read.
    pub closed spec fn position(&self) -> int {
        self.index as int
    }

    /// The cursor lies within the text, and the byte offset kept beside it is
    /// that of the character it points at.
    pub closed spec fn wf(&self) -> bool {
        &&& self.index <= self.source.len()
        &&& self.offset == byte_offset(self.source@, self.index as int)
        &&& utf8_len(self.source@) <= usize::MAX
    }

    /// A lexer at the start of `source`.
    pub fn new(source: String) -> (lexer: Lexer)
        ensures
            lexer.wf(),
            lexer.source() == source@,
            lexer.position() == 0,
    {
        // The length is not kept: that it exists bounds the byte offsets of the cursor.
        let _ = byte_len(source.as_str());
        let chars = to_chars(source.as_str());
        assert(chars@.take(0) =~= Seq::<char>::empty());
        Lexer { source: chars, index: 0, offset: 0 }
    }

    /// A lexer at the start of the plain text of a superscript run.
    fn nested(plain: Vec<char>) -> (lexer: Lexer)
        requires
            forall|k: int| 0 <= k < plain.len() ==> utf8_width(#[trigger] plain@[k]) == 1,
        ensures
            lexer.wf(),
            lexer.source() == plain@,
            lexer.position() == 0,
    {
        proof {
            lemma_utf8_len_ascii(plain@);
        }
        assert(plain@.take(0) =~= Seq::<char>::empty());
        Lexer { source: plain, index: 0, offset: 0 }
    }

    /// The character under the cursor, or NUL at the end.
    fn current(&self) -> (c: char)
        requires
            self.wf(),
        ensures
            c == char_at(self.source(), self.position()),
    {
        if self.index < self.source.len() {
            self.source[self.index]
        } else {
            '\0'
        }
    }

    /// The character after the one under the cursor, or NUL at the end.
    fn peek(&self) -> (c: char)
        requires
            self.wf(),
        ensures
            c == char_at(self.source(), self.position() + 1),
    {
        if self.index < self.source.len() && self.index + 1 < self.source.len() {
            self.source[self.index + 1]
        } else {
            '\0'
        }
    }

    /// Moves the cursor over one character.
    fn advance(&mut self)
        requires
            old(self).wf(),
            old(self).position() < old(self).source().len(),
        ensures
            final(self).wf(),
            final(self).source() == old(self).source(),
            final(self).position() == old(self).position() + 1,
    {
        proof {
            lemma_utf8_len_prefix(self.source@, self.index as int);
            lemma_utf8_len_prefix(self.source@, self.index as int + 1);
        }
        self.offset = self.offset + char_width(self.source[self.index]);
        self.index = self.index + 1;
    }

    /// Moves the cursor over blanks.
    fn skip_blanks(&mut self)
        requires
            old(self).wf(),
        ensures
            final(self).wf(),
            final(self).source() == old(self).source(),
            final(self).position() == token_start(old(self).source(), old(self).position()),
    {
        while self.index < self.source.len() && char_is_blank(self.source[self.index])
            invariant
                self.wf(),
                self.source@ == old(self).source@,
                old(self).index <= self.index,
                token_start(self.source@, old(self).index as int) == token_start(
                    self.source@,
                    self.index as int,
                ),
            decreases self.source.len() - self.index,
        {
            self.advance();
        }
    }

    /// Reads all tokens up to and with the end marker, or stops at the first
    /// error.
    pub fn lex(&mut self) -> (r: Result<Vec<Token>, SpectreError>)
        requires
            old(self).wf(),
        ensures
            final(self).wf(),
            final(self).source() == old(self).source(),
            final(self).position() == lex_stop(old(self).source(), old(self).position()),
            tokens_result_view(r) == lex_from(old(self).source(), old(self).position()),
        decreases superscript_rank(old(self).source()), old(self).source().len() - old(self).position(), 2int,
    {
        let ghost s = self.source@;
        let ghost first = self.index as int;
        let mut tokens: Vec<Token> = Vec::new();
        loop
            invariant
                self.wf(),
                self.source@ == s,
                s == old(self).source@,
                first == old(self).index,
                first <= self.index <= s.len(),
                lex_stop(s, first) == lex_stop(s, self.index as int),
                lex_from(s, first) == (match lex_from(s, self.index as int) {
                    Ok(rest) => Ok(tokens_view(tokens@) + rest),
                    Err(e) => Err(e),
                }),
            decreases s.len() - self.index,
        {
            let ghost here = self.index as int;
            let ghost before = tokens_view(tokens@);
            proof {
                lemma_token_end_bounds(s, here);
                lemma_end_marker(s, here);
            }
            match self.next_token() {
                Err(e) => {
                    return Err(e);
                },
                Ok(token) => {
                    let at_end = matches!(token.ty, TokenType::EOF);
                    tokens.push(token);
                    assert(tokens_view(tokens@) =~= before + seq![token@]);
                    if at_end {
                        assert(before + seq![token@] =~= before + seq![token@]);
                        return Ok(tokens);
                    }
                    proof {
                        match lex_from(s, self.index as int) {
                            Ok(rest) => {
                                assert(before + (seq![token@] + rest) =~= (before + seq![
                                    token@,
                                ]) + rest);
                            },
                            Err(_) => {},
                        }
                    }
                },
            }
        }
    }

    /// Reads the next token.
    pub fn next_token(&mut self) -> (r: Result<Token, SpectreError>)
        requires
            old(self).wf(),
        ensures
            final(self).wf(),
            final(self).source() == old(self).source(),
            final(self).position() == token_end(old(self).source(), old(self).position()),
            token_result_view(r) == token_at(old(self).source(), old(self).position()),
        decreases superscript_rank(old(self).source()), old(self).source().len() - old(self).position(), 1int,
    {
        let ghost s = self.source@;
        proof {
            lemma_token_end_bounds(s, self.index as int);
        }
        self.skip_blanks();
        let start = self.offset;
        let c = self.current();
        if char_is_digit(c) {
            self.number()
        } else if char_is_word_start(c) {
            self.word()
        } else if to_plain(c).is_some() {
            self.superscript()
        } else if c == '\0' {
            Ok(token(TokenType::EOF, start, start))
        } else {
            let next = self.peek();
            match symbol_of(c, next) {
                Some((symbol, n)) => {
                    self.advance();
                    if n == 2 {
                        self.advance();
                    }
                    Ok(token(TokenType::Symbol(symbol), start, self.offset))
                },
                None => {
                    self.advance();
                    if c == '\n' || c == ';' {
                        Ok(token(TokenType::Newline, start, self.offset))
                    } else {
                        let msg = String::from_str("invalid character");
                        let mut reason = String::from_str("'");
                        reason.push(c);
                        reason.append("' is not a valid character");
                        Err(SpectreError::new(msg, reason, start, self.offset))
                    }
                },
            }
        }
    }

    /// Reads a numeric literal; the cursor is at its first digit.
    fn number(&mut self) -> (r: Result<Token, SpectreError>)
        requires
            old(self).wf(),
            is_digit(char_at(old(self).source(), old(self).position())),
        ensures
            final(self).wf(),
            final(self).source() == old(self).source(),
            final(self).position() == run_end(
                old(self).source(),
                old(self).position() + 1,
                |c: char| is_number_char(c),
            ),
            token_result_view(r) == number_token(
                old(self).source(),
                old(self).position(),
                final(self).position(),
            ),
    {
        let first = self.index;
        let start = self.offset;
        self.advance();
        while self.index < self.source.len() && char_is_number_char(self.source[self.index])
            invariant
                self.wf(),
                self.source@ == old(self).source@,
                first == old(self).index,
                first < self.index <= self.source.len(),
                is_digit(self.source@[first as int]),
                forall|k: int| first < k < self.index ==> is_number_char(#[trigger] self.source@[k]),
                run_end(self.source@, first + 1, |c: char| is_number_char(c)) == run_end(
                    self.source@,
                    self.index as int,
                    |c: char| is_number_char(c),
                ),
            decreases self.source.len() - self.index,
        {
            self.advance();
        }
        let text = slice(&self.source, first, self.index);
        if contains_dot(&text) {
            Ok(token(TokenType::Float(from_chars(&text)), start, self.offset))
        } else {
            match parse_decimal(&text) {
                Some(n) => Ok(token(TokenType::Int(n), start, self.offset)),
                None => {
                    let msg = String::from_str("invalid number");
                    let mut reason = String::from_str("'");
                    push_chars(&mut reason, &text);
                    reason.append("' does not fit in a 32-bit integer");
                    Err(SpectreError::new(msg, reason, start, self.offset))
                },
            }
        }
    }

    /// Reads a keyword or an identifier; the cursor is at its first character.
    fn word(&mut self) -> (r: Result<Token, SpectreError>)
        requires
            old(self).wf(),
            is_word_start(char_at(old(self).source(), old(self).position())),
        ensures
            final(self).wf(),
            final(self).source() == old(self).source(),
            final(self).position() == run_end(
                old(self).source(),
                old(self).position() + 1,
                |c: char| is_word_char(c),
            ),
            token_result_view(r) == word_token(
                old(self).source(),
                old(self).position(),
                final(self).position(),
            ),
    {
        let first = self.index;
        let start = self.offset;
        self.advance();
        while self.index < self.source.len() && char_is_word_char(self.source[self.index])
            invariant
                self.wf(),
                self.source@ == old(self).source@,
                first == old(self).index,
                first < self.index <= self.source.len(),
                run_end(self.source@, first + 1, |c: char| is_word_char(c)) == run_end(
                    self.source@,
                    self.index as int,
                    |c: char| is_word_char(c),
                ),
            decreases self.source.len() - self.index,
        {
            self.advance();
        }
        let word = slice(&self.source, first, self.index);
        match keyword(&word) {
            Some(k) => Ok(token(TokenType::Symbol(k), start, self.offset)),
            None => Ok(token(TokenType::Identifier(from_chars(&word)), start, self.offset)),
        }
    }

    /// Reads a run of superscript glyphs; the cursor is at its first glyph.
    fn superscript(&mut self) -> (r: Result<Token, SpectreError>)
        requires
            old(self).wf(),
            is_superscript(char_at(old(self).source(), old(self).position())),
        ensures
            final(self).wf(),
            final(self).source() == old(self).source(),
            final(self).position() == run_end(
                old(self).source(),
                old(self).position(),
                |c: char| is_superscript(c),
            ),
            token_result_view(r) == (match lex_from(
                plain_text(
                    old(self).source().subrange(old(self).position(), final(self).position()),
                ),
                0,
            ) {
                Ok(tokens) => spanning(
                    old(self).source(),
                    SpecTokenType::Superscript(tokens.drop_last()),
                    old(self).position(),
                    final(self).position(),
                ),
                Err(e) => failing(
                    old(self).source(),
                    e.msg,
                    e.reason,
                    old(self).position(),
                    final(self).position(),
                ),
            }),
        decreases superscript_rank(old(self).source()), old(self).source().len() - old(self).position(), 0int,
    {
        let ghost s = self.source@;
        let ghost first = self.index as int;
        let start = self.offset;
        let mut plain: Vec<char> = Vec::new();
        while self.index < self.source.len() && to_plain(self.source[self.index]).is_some()
            invariant
                self.wf(),
                self.source@ == s,
                0 <= first <= self.index <= s.len(),
                plain@ == plain_text(s.subrange(first, self.index as int)),
                run_end(s, first, |c: char| is_superscript(c)) == run_end(
                    s,
                    self.index as int,
                    |c: char| is_superscript(c),
                ),
            decreases self.source.len() - self.index,
        {
            let p = to_plain(self.source[self.index]).unwrap();
            plain.push(p);
            self.advance();
            assert(plain@ =~= plain_text(s.subrange(first, self.index as int)));
        }
        let ghost sub = plain@;
        proof {
            assert(is_superscript(s[first]));
            assert forall|k: int| 0 <= k < sub.len() implies !is_superscript(#[trigger] sub[k])
                && utf8_width(sub[k]) == 1 by {}
            lemma_lex_nonempty(sub, 0);
        }
        let mut inner = Lexer::nested(plain);
        match inner.lex() {
            Ok(tokens) => {
                let mut tokens = tokens;
                let ghost all = tokens_view(tokens@);
                tokens.pop();
                proof {
                    lemma_superscript_view(tokens);
                    assert(tokens_view(tokens@) =~= all.drop_last());
                }
                let ty = TokenType::Superscript(tokens);
                Ok(token(ty, start, self.offset))
            },
            Err(e) => Err(SpectreError::new(e.msg, e.reason, start, self.offset)),
        }
    }
}

/// The tokens of `text`, up to and with the end marker, or the first lexical
/// error.
pub fn tokenize(text: &str) -> (r: Result<Vec<Token>, SpectreError>)
    ensures
        tokens_result_view(r) == lex_text(text@),
{
    // The length is not kept: that it exists bounds the byte offsets of the cursor.
    let _ = byte_len(text);
    let chars = to_chars(text);
    assert(chars@.take(0) =~= Seq::<char>::empty());
    let mut lexer = Lexer { source: chars, index: 0, offset: 0 };
    lexer.lex()
}

} // verus!
