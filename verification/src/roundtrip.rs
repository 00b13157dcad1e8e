//! Lexer self-consistency: the source text of a token lexes back to a token
//! of the same kind.

use crate::glyphs::{
    is_blank, is_digit, is_number_char, is_superscript, is_word_char, is_word_start, keyword_of,
    symbol_text,
};
use crate::lexer::{
    at_end, decimal_value, lex_from, lex_text, plain_text, run_end, token_at, token_end,
    token_start,
};
use crate::text::digits_of;
use crate::token::{lexeme, SpecTokenType, Symbol};
use vstd::prelude::*;

verus! {

/// Whether two token kinds are of the same kind: both integers, both reals,
/// both identifiers, both superscripts, the same symbol, both separators or
/// both end markers.
pub open spec fn same_kind(a: SpecTokenType, b: SpecTokenType) -> bool {
    match (a, b) {
        (SpecTokenType::Int(_), SpecTokenType::Int(_)) => true,
        (SpecTokenType::Float(_), SpecTokenType::Float(_)) => true,
        (SpecTokenType::Identifier(_), SpecTokenType::Identifier(_)) => true,
        (SpecTokenType::Superscript(_), SpecTokenType::Superscript(_)) => true,
        (SpecTokenType::Symbol(x), SpecTokenType::Symbol(y)) => x == y,
        (SpecTokenType::Newline, SpecTokenType::Newline) => true,
        (SpecTokenType::EOF, SpecTokenType::EOF) => true,
        _ => false,
    }
}

/// The token kinds that the lexer can give: an integer is not negative, a
/// real literal is a digit followed by digits and dots with at least one
/// dot, an identifier is a word that is no keyword, and a superscript has a
/// source text that is not empty and whose plain text lexes.
pub open spec fn lexable(ty: SpecTokenType) -> bool {
    match ty {
        SpecTokenType::Int(n) => n >= 0,
        SpecTokenType::Float(text) => {
            &&& text.len() >= 1
            &&& is_digit(text[0])
            &&& forall|k: int| 0 <= k < text.len() ==> is_number_char(#[trigger] text[k])
            &&& text.contains('.')
        },
        SpecTokenType::Identifier(name) => {
            &&& name.len() >= 1
            &&& is_word_start(name[0])
            &&& forall|k: int| 0 <= k < name.len() ==> is_word_char(#[trigger] name[k])
            &&& keyword_of(name) is None
        },
        SpecTokenType::Superscript(_) => {
            &&& lexeme(ty) matches Some(run)
            &&& run.len() >= 1
            &&& lex_text(plain_text(run)) is Ok
        },
        _ => true,
    }
}

/// A run that starts where every character up to the end is of the class ends at the end.
pub proof fn lemma_run_end_all(s: Seq<char>, i: int, class: spec_fn(char) -> bool)
    requires
        0 <= i <= s.len(),
        forall|k: int| i <= k < s.len() ==> class(#[trigger] s[k]),
    ensures
        run_end(s, i, class) == s.len(),
    decreases s.len() - i,
{
    if i < s.len() {
        lemma_run_end_all(s, i + 1, class);
    }
}

/// The decimal digits of a number are digits, and their value is the number.
pub proof fn lemma_digits_of(n: nat)
    ensures
        digits_of(n).len() >= 1,
        forall|k: int| 0 <= k < digits_of(n).len() ==> is_digit(#[trigger] digits_of(n)[k]),
        decimal_value(digits_of(n)) == n,
    decreases n,
{
    if n < 10 {
        assert(digits_of(n).drop_last() =~= Seq::<char>::empty());
        assert(decimal_value(digits_of(n).drop_last()) == 0);
    } else {
        lemma_digits_of(n / 10);
        assert(digits_of(n).drop_last() =~= digits_of(n / 10));
    }
}

/// A text that is one token from its first character to its last lexes to
/// that token and the end marker.
pub proof fn lemma_lone_token(s: Seq<char>)
    requires
        s.len() >= 1,
        !is_blank(s[0]),
        s[0] != '\0',
        token_end(s, 0) == s.len(),
        token_at(s, 0) is Ok,
    ensures
        lex_text(s) matches Ok(tokens) && tokens.len() == 2 && tokens[0] == token_at(s, 0)->Ok_0
            && tokens[1].ty is EOF,
{
    reveal_with_fuel(lex_from, 3);
    reveal_with_fuel(run_end, 2);
    assert(token_start(s, 0) == 0);
    assert(!at_end(s, 0));
    let n = s.len() as int;
    assert(token_start(s, n) == n);
    assert(at_end(s, n));
    assert(token_at(s, n) is Ok);
}

/// What the round trip gives for one token kind.
pub open spec fn round_trips(ty: SpecTokenType) -> bool {
    lexeme(ty) matches Some(text) && lex_text(text) matches Ok(tokens) && tokens.len() >= 1
        && same_kind(tokens[0].ty, ty) && (!(ty is Superscript) ==> tokens[0].ty == ty)
}

proof fn lemma_round_trip_int(n: i32)
    requires
        n >= 0,
    ensures
        round_trips(SpecTokenType::Int(n)),
{
    let text = digits_of(n as nat);
    lemma_digits_of(n as nat);
    lemma_run_end_all(text, 1, |c: char| is_number_char(c));
    assert(text.subrange(0, text.len() as int) =~= text);
    assert(!text.contains('.'));
    lemma_lone_token(text);
}

proof fn lemma_round_trip_float(text: Seq<char>)
    requires
        lexable(SpecTokenType::Float(text)),
    ensures
        round_trips(SpecTokenType::Float(text)),
{
    lemma_run_end_all(text, 1, |c: char| is_number_char(c));
    assert(text.subrange(0, text.len() as int) =~= text);
    lemma_lone_token(text);
}

proof fn lemma_round_trip_identifier(name: Seq<char>)
    requires
        lexable(SpecTokenType::Identifier(name)),
    ensures
        round_trips(SpecTokenType::Identifier(name)),
{
    lemma_run_end_all(name, 1, |c: char| is_word_char(c));
    assert(name.subrange(0, name.len() as int) =~= name);
    lemma_lone_token(name);
}

proof fn lemma_round_trip_superscript(ty: SpecTokenType)
    requires
        ty is Superscript,
        lexable(ty),
    ensures
        round_trips(ty),
{
    let run = lexeme(ty)->0;
    assert forall|k: int| 0 <= k < run.len() implies is_superscript(#[trigger] run[k]) by {}
    lemma_run_end_all(run, 0, |c: char| is_superscript(c));
    assert(run.subrange(0, run.len() as int) =~= run);
    assert(is_superscript(run[0]));
    lemma_lone_token(run);
}

proof fn lemma_round_trip_symbol(s: Symbol)
    ensures
        round_trips(SpecTokenType::Symbol(s)),
{
    let text = symbol_text(s);
    if is_word_start(text[0]) {
        lemma_run_end_all(text, 1, |c: char| is_word_char(c));
    }
    assert(text.subrange(0, text.len() as int) =~= text);
    lemma_lone_token(text);
}

/// Round trip: the source text of a token kind that the lexer can give lexes
/// to one token of the same kind, followed by the end marker (to the end
/// marker alone, for the end marker).  But for superscripts, whose payload
/// may change, the token kind that comes back is the one that was written.
pub proof fn lemma_lexeme_round_trip(ty: SpecTokenType)
    requires
        lexable(ty),
    ensures
        round_trips(ty),
{
    match ty {
        SpecTokenType::Int(n) => lemma_round_trip_int(n),
        SpecTokenType::Float(text) => lemma_round_trip_float(text),
        SpecTokenType::Identifier(name) => lemma_round_trip_identifier(name),
        SpecTokenType::Superscript(_) => lemma_round_trip_superscript(ty),
        SpecTokenType::Symbol(s) => lemma_round_trip_symbol(s),
        SpecTokenType::Newline => {
            let text = seq!['\n'];
            reveal_with_fuel(run_end, 2);
            assert(token_start(text, 0) == 0);
            assert(token_end(text, 0) == 1);
            assert(token_at(text, 0) is Ok);
            lemma_lone_token(text);
            assert(round_trips(ty));
        },
        SpecTokenType::EOF => {
            reveal_with_fuel(run_end, 2);
            let text = Seq::<char>::empty();
            assert(token_start(text, 0) == 0);
            assert(at_end(text, 0));
            assert(token_at(text, 0) is Ok);
            assert(lex_from(text, 0) is Ok);
            assert(round_trips(ty));
        },
    }
}

} // verus!
