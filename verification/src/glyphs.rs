//! Character classes and the fixed glyph tables of the lexer.

use crate::token::Symbol;
use vstd::prelude::*;

verus! {

/// Blank characters between tokens: space, tab and carriage return.
pub open spec fn is_blank(c: char) -> bool {
    c == ' ' || c == '\t' || c == '\r'
}

/// ASCII decimal digits.
pub open spec fn is_digit(c: char) -> bool {
    '0' <= c <= '9'
}

/// Characters that continue a numeric literal: digits and the dot.
pub open spec fn is_number_char(c: char) -> bool {
    is_digit(c) || c == '.'
}

/// Characters that may start an identifier: ASCII letters, the underscore,
/// the Greek block from capital alpha to small omega, and the infinity glyph.
pub open spec fn is_word_start(c: char) -> bool {
    ('a' <= c <= 'z') || ('A' <= c <= 'Z') || c == '_' || ('Α' <= c <= 'ω') || c == '∞'
}

/// Characters that may continue an identifier.
pub open spec fn is_word_char(c: char) -> bool {
    is_word_start(c) || is_digit(c)
}

/// The value of a decimal digit.
pub open spec fn digit_value(c: char) -> int
    recommends
        is_digit(c),
{
    c as int - '0' as int
}

/// The plain character that a superscript glyph stands for, if `c` is one.
pub open spec fn superscript_plain(c: char) -> Option<char> {
    match c {
        'ᵃ' => Some('a'),
        'ᵇ' => Some('b'),
        'ᶜ' => Some('c'),
        'ᵈ' => Some('d'),
        'ᵉ' => Some('e'),
        'ᶠ' => Some('f'),
        'ᵍ' => Some('g'),
        'ʰ' => Some('h'),
        'ⁱ' => Some('i'),
        'ʲ' => Some('j'),
        'ᵏ' => Some('k'),
        'ˡ' => Some('l'),
        'ᵐ' => Some('m'),
        'ⁿ' => Some('n'),
        'ᵒ' => Some('o'),
        'ᵖ' => Some('p'),
        'ʳ' => Some('r'),
        'ˢ' => Some('s'),
        'ᵗ' => Some('t'),
        'ᵘ' => Some('u'),
        'ᵛ' => Some('v'),
        'ʷ' => Some('w'),
        'ˣ' => Some('x'),
        'ʸ' => Some('y'),
        'ᶻ' => Some('z'),
        'ᴬ' => Some('A'),
        'ᴮ' => Some('B'),
        'ᴰ' => Some('D'),
        'ᴱ' => Some('E'),
        'ᴳ' => Some('G'),
        'ᴴ' => Some('H'),
        'ᴵ' => Some('I'),
        'ᴶ' => Some('J'),
        'ᴷ' => Some('K'),
        'ᴸ' => Some('L'),
        'ᴹ' => Some('M'),
        'ᴺ' => Some('N'),
        'ᴼ' => Some('O'),
        'ᴾ' => Some('P'),
        'ᴿ' => Some('R'),
        'ᵀ' => Some('T'),
        'ᵁ' => Some('U'),
        'ⱽ' => Some('V'),
        'ᵂ' => Some('W'),
        '⁰' => Some('0'),
        '¹' => Some('1'),
        '²' => Some('2'),
        '³' => Some('3'),
        '⁴' => Some('4'),
        '⁵' => Some('5'),
        '⁶' => Some('6'),
        '⁷' => Some('7'),
        '⁸' => Some('8'),
        '⁹' => Some('9'),
        '⁺' => Some('+'),
        '⁻' => Some('-'),
        '⁼' => Some('='),
        '⁽' => Some('('),
        '⁾' => Some(')'),
        _ => None,
    }
}

/// Whether `c` is a superscript glyph.
pub open spec fn is_superscript(c: char) -> bool {
    superscript_plain(c) is Some
}

/// The superscript glyph that stands for a plain character, if there is one.
///
/// Six capital letters (C, F, S, X, Y, Z) share the glyph of their small
/// letter, so a capital that is raised and lowered again may come back small.
pub open spec fn plain_superscript(c: char) -> Option<char> {
    match c {
        'a' => Some('ᵃ'),
        'b' => Some('ᵇ'),
        'c' | 'C' => Some('ᶜ'),
        'd' => Some('ᵈ'),
        'e' => Some('ᵉ'),
        'f' | 'F' => Some('ᶠ'),
        'g' => Some('ᵍ'),
        'h' => Some('ʰ'),
        'i' => Some('ⁱ'),
        'j' => Some('ʲ'),
        'k' => Some('ᵏ'),
        'l' => Some('ˡ'),
        'm' => Some('ᵐ'),
        'n' => Some('ⁿ'),
        'o' => Some('ᵒ'),
        'p' => Some('ᵖ'),
        'r' => Some('ʳ'),
        's' | 'S' => Some('ˢ'),
        't' => Some('ᵗ'),
        'u' => Some('ᵘ'),
        'v' => Some('ᵛ'),
        'w' => Some('ʷ'),
        'x' | 'X' => Some('ˣ'),
        'y' | 'Y' => Some('ʸ'),
        'z' | 'Z' => Some('ᶻ'),
        'A' => Some('ᴬ'),
        'B' => Some('ᴮ'),
        'D' => Some('ᴰ'),
        'E' => Some('ᴱ'),
        'G' => Some('ᴳ'),
        'H' => Some('ᴴ'),
        'I' => Some('ᴵ'),
        'J' => Some('ᴶ'),
        'K' => Some('ᴷ'),
        'L' => Some('ᴸ'),
        'M' => Some('ᴹ'),
        'N' => Some('ᴺ'),
        'O' => Some('ᴼ'),
        'P' => Some('ᴾ'),
        'R' => Some('ᴿ'),
        'T' => Some('ᵀ'),
        'U' => Some('ᵁ'),
        'V' => Some('ⱽ'),
        'W' => Some('ᵂ'),
        '0' => Some('⁰'),
        '1' => Some('¹'),
        '2' => Some('²'),
        '3' => Some('³'),
        '4' => Some('⁴'),
        '5' => Some('⁵'),
        '6' => Some('⁶'),
        '7' => Some('⁷'),
        '8' => Some('⁸'),
        '9' => Some('⁹'),
        '+' => Some('⁺'),
        '-' => Some('⁻'),
        '=' => Some('⁼'),
        '(' => Some('⁽'),
        ')' => Some('⁾'),
        _ => None,
    }
}

/// The symbol that starts with `c`, given the character `next` after it, and
/// the number of characters it takes.
pub open spec fn symbol_at(c: char, next: char) -> Option<(Symbol, int)> {
    match c {
        '=' => if next == '=' {
            Some((Symbol::EqEq, 2))
        } else {
            Some((Symbol::Eq, 1))
        },
        '!' => if next == '=' {
            Some((Symbol::Neq, 2))
        } else {
            Some((Symbol::Exclamation, 1))
        },
        '<' => if next == '=' {
            Some((Symbol::Lte, 2))
        } else {
            Some((Symbol::Lt, 1))
        },
        '>' => if next == '=' {
            Some((Symbol::Gte, 2))
        } else {
            Some((Symbol::Gt, 1))
        },
        '+' => Some((Symbol::Plus, 1)),
        '-' => Some((Symbol::Minus, 1)),
        '*' => Some((Symbol::Star, 1)),
        '∙' => Some((Symbol::Dot, 1)),
        '×' => Some((Symbol::Cross, 1)),
        '/' => Some((Symbol::Slash, 1)),
        '÷' => Some((Symbol::Divide, 1)),
        '%' => Some((Symbol::Percent, 1)),
        '^' => Some((Symbol::Carrot, 1)),
        '°' => Some((Symbol::Degree, 1)),
        '√' => Some((Symbol::Sqrt, 1)),
        '∛' => Some((Symbol::Cbrt, 1)),
        '∜' => Some((Symbol::Fort, 1)),
        '(' => Some((Symbol::LeftParen, 1)),
        ')' => Some((Symbol::RightParen, 1)),
        '|' => Some((Symbol::Pipe, 1)),
        '⌊' => Some((Symbol::LeftFloor, 1)),
        '⌋' => Some((Symbol::RightFloor, 1)),
        '⌈' => Some((Symbol::LeftCeil, 1)),
        '⌉' => Some((Symbol::RightCeil, 1)),
        '{' => Some((Symbol::LeftBrace, 1)),
        '}' => Some((Symbol::RightBrace, 1)),
        ',' => Some((Symbol::Comma, 1)),
        _ => None,
    }
}

/// The keyword spelled by `word`, if it is one.
pub open spec fn keyword_of(word: Seq<char>) -> Option<Symbol> {
    if word == seq!['a', 'n', 'd'] {
        Some(Symbol::And)
    } else if word == seq!['o', 'r'] {
        Some(Symbol::Or)
    } else if word == seq!['n', 'o', 't'] {
        Some(Symbol::Not)
    } else if word == seq!['i', 'f'] {
        Some(Symbol::If)
    } else if word == seq!['e', 'l', 's', 'e'] {
        Some(Symbol::Else)
    } else if word == seq!['w', 'h', 'i', 'l', 'e'] {
        Some(Symbol::While)
    } else {
        None
    }
}

/// The source text of a symbol.
pub open spec fn symbol_text(s: Symbol) -> Seq<char> {
    match s {
        Symbol::Eq => seq!['='],
        Symbol::Plus => seq!['+'],
        Symbol::Minus => seq!['-'],
        Symbol::Star => seq!['*'],
        Symbol::Dot => seq!['∙'],
        Symbol::Cross => seq!['×'],
        Symbol::Slash => seq!['/'],
        Symbol::Divide => seq!['÷'],
        Symbol::Percent => seq!['%'],
        Symbol::Carrot => seq!['^'],
        Symbol::Exclamation => seq!['!'],
        Symbol::Degree => seq!['°'],
        Symbol::Sqrt => seq!['√'],
        Symbol::Cbrt => seq!['∛'],
        Symbol::Fort => seq!['∜'],
        Symbol::LeftParen => seq!['('],
        Symbol::RightParen => seq![')'],
        Symbol::Pipe => seq!['|'],
        Symbol::LeftFloor => seq!['⌊'],
        Symbol::RightFloor => seq!['⌋'],
        Symbol::LeftCeil => seq!['⌈'],
        Symbol::RightCeil => seq!['⌉'],
        Symbol::LeftBrace => seq!['{'],
        Symbol::RightBrace => seq!['}'],
        Symbol::Comma => seq![','],
        Symbol::EqEq => seq!['=', '='],
        Symbol::Neq => seq!['!', '='],
        Symbol::Lt => seq!['<'],
        Symbol::Lte => seq!['<', '='],
        Symbol::Gt => seq!['>'],
        Symbol::Gte => seq!['>', '='],
        Symbol::And => seq!['a', 'n', 'd'],
        Symbol::Or => seq!['o', 'r'],
        Symbol::Not => seq!['n', 'o', 't'],
        Symbol::If => seq!['i', 'f'],
        Symbol::Else => seq!['e', 'l', 's', 'e'],
        Symbol::While => seq!['w', 'h', 'i', 'l', 'e'],
    }
}

/// The number of bytes that `c` takes in UTF-8.
pub open spec fn utf8_width(c: char) -> int {
    if (c as u32) < 0x80 {
        1
    } else if (c as u32) < 0x800 {
        2
    } else if (c as u32) < 0x10000 {
        3
    } else {
        4
    }
}

/// The number of bytes that `s` takes in UTF-8.
pub open spec fn utf8_len(s: Seq<char>) -> int
    decreases s.len(),
{
    if s.len() == 0 {
        0
    } else {
        utf8_len(s.drop_last()) + utf8_width(s.last())
    }
}

pub fn char_is_blank(c: char) -> (b: bool)
    ensures
        b == is_blank(c),
{
    c == ' ' || c == '\t' || c == '\r'
}

pub fn char_is_digit(c: char) -> (b: bool)
    ensures
        b == is_digit(c),
{
    '0' <= c && c <= '9'
}

pub fn char_is_number_char(c: char) -> (b: bool)
    ensures
        b == is_number_char(c),
{
    char_is_digit(c) || c == '.'
}

pub fn char_is_word_start(c: char) -> (b: bool)
    ensures
        b == is_word_start(c),
{
    ('a' <= c && c <= 'z') || ('A' <= c && c <= 'Z') || c == '_' || ('Α' <= c && c <= 'ω') || c
        == '∞'
}

pub fn char_is_word_char(c: char) -> (b: bool)
    ensures
        b == is_word_char(c),
{
    char_is_word_start(c) || char_is_digit(c)
}

/// The number of bytes that `c` takes in UTF-8.
pub fn char_width(c: char) -> (w: usize)
    ensures
        w == utf8_width(c),
{
    let u: u32 = c as u32;
    if u < 0x80 {
        1
    } else if u < 0x800 {
        2
    } else if u < 0x10000 {
        3
    } else {
        4
    }
}

/// The plain character that a superscript glyph stands for, if `c` is one.
pub fn to_plain(c: char) -> (r: Option<char>)
    ensures
        r == superscript_plain(c),
{
    match c {
        'ᵃ' => Some('a'),
        'ᵇ' => Some('b'),
        'ᶜ' => Some('c'),
        'ᵈ' => Some('d'),
        'ᵉ' => Some('e'),
        'ᶠ' => Some('f'),
        'ᵍ' => Some('g'),
        'ʰ' => Some('h'),
        'ⁱ' => Some('i'),
        'ʲ' => Some('j'),
        'ᵏ' => Some('k'),
        'ˡ' => Some('l'),
        'ᵐ' => Some('m'),
        'ⁿ' => Some('n'),
        'ᵒ' => Some('o'),
        'ᵖ' => Some('p'),
        'ʳ' => Some('r'),
        'ˢ' => Some('s'),
        'ᵗ' => Some('t'),
        'ᵘ' => Some('u'),
        'ᵛ' => Some('v'),
        'ʷ' => Some('w'),
        'ˣ' => Some('x'),
        'ʸ' => Some('y'),
        'ᶻ' => Some('z'),
        'ᴬ' => Some('A'),
        'ᴮ' => Some('B'),
        'ᴰ' => Some('D'),
        'ᴱ' => Some('E'),
        'ᴳ' => Some('G'),
        'ᴴ' => Some('H'),
        'ᴵ' => Some('I'),
        'ᴶ' => Some('J'),
        'ᴷ' => Some('K'),
        'ᴸ' => Some('L'),
        'ᴹ' => Some('M'),
        'ᴺ' => Some('N'),
        'ᴼ' => Some('O'),
        'ᴾ' => Some('P'),
        'ᴿ' => Some('R'),
        'ᵀ' => Some('T'),
        'ᵁ' => Some('U'),
        'ⱽ' => Some('V'),
        'ᵂ' => Some('W'),
        '⁰' => Some('0'),
        '¹' => Some('1'),
        '²' => Some('2'),
        '³' => Some('3'),
        '⁴' => Some('4'),
        '⁵' => Some('5'),
        '⁶' => Some('6'),
        '⁷' => Some('7'),
        '⁸' => Some('8'),
        '⁹' => Some('9'),
        '⁺' => Some('+'),
        '⁻' => Some('-'),
        '⁼' => Some('='),
        '⁽' => Some('('),
        '⁾' => Some(')'),
        _ => None,
    }
}

/// The superscript glyph that stands for a plain character, if there is one.
pub fn to_superscript(c: char) -> (r: Option<char>)
    ensures
        r == plain_superscript(c),
{
    match c {
        'a' => Some('ᵃ'),
        'b' => Some('ᵇ'),
        'c' | 'C' => Some('ᶜ'),
        'd' => Some('ᵈ'),
        'e' => Some('ᵉ'),
        'f' | 'F' => Some('ᶠ'),
        'g' => Some('ᵍ'),
        'h' => Some('ʰ'),
        'i' => Some('ⁱ'),
        'j' => Some('ʲ'),
        'k' => Some('ᵏ'),
        'l' => Some('ˡ'),
        'm' => Some('ᵐ'),
        'n' => Some('ⁿ'),
        'o' => Some('ᵒ'),
        'p' => Some('ᵖ'),
        'r' => Some('ʳ'),
        's' | 'S' => Some('ˢ'),
        't' => Some('ᵗ'),
        'u' => Some('ᵘ'),
        'v' => Some('ᵛ'),
        'w' => Some('ʷ'),
        'x' | 'X' => Some('ˣ'),
        'y' | 'Y' => Some('ʸ'),
        'z' | 'Z' => Some('ᶻ'),
        'A' => Some('ᴬ'),
        'B' => Some('ᴮ'),
        'D' => Some('ᴰ'),
        'E' => Some('ᴱ'),
        'G' => Some('ᴳ'),
        'H' => Some('ᴴ'),
        'I' => Some('ᴵ'),
        'J' => Some('ᴶ'),
        'K' => Some('ᴷ'),
        'L' => Some('ᴸ'),
        'M' => Some('ᴹ'),
        'N' => Some('ᴺ'),
        'O' => Some('ᴼ'),
        'P' => Some('ᴾ'),
        'R' => Some('ᴿ'),
        'T' => Some('ᵀ'),
        'U' => Some('ᵁ'),
        'V' => Some('ⱽ'),
        'W' => Some('ᵂ'),
        '0' => Some('⁰'),
        '1' => Some('¹'),
        '2' => Some('²'),
        '3' => Some('³'),
        '4' => Some('⁴'),
        '5' => Some('⁵'),
        '6' => Some('⁶'),
        '7' => Some('⁷'),
        '8' => Some('⁸'),
        '9' => Some('⁹'),
        '+' => Some('⁺'),
        '-' => Some('⁻'),
        '=' => Some('⁼'),
        '(' => Some('⁽'),
        ')' => Some('⁾'),
        _ => None,
    }
}

/// The symbol that starts with `c`, given the character `next` after it, and
/// the number of characters it takes.
pub fn symbol_of(c: char, next: char) -> (r: Option<(Symbol, usize)>)
    ensures
        match symbol_at(c, next) {
            Some((s, n)) => r == Some((s, n as usize)) && 1 <= n <= 2,
            None => r is None,
        },
{
    match c {
        '=' => if next == '=' {
            Some((Symbol::EqEq, 2usize))
        } else {
            Some((Symbol::Eq, 1usize))
        },
        '!' => if next == '=' {
            Some((Symbol::Neq, 2usize))
        } else {
            Some((Symbol::Exclamation, 1usize))
        },
        '<' => if next == '=' {
            Some((Symbol::Lte, 2usize))
        } else {
            Some((Symbol::Lt, 1usize))
        },
        '>' => if next == '=' {
            Some((Symbol::Gte, 2usize))
        } else {
            Some((Symbol::Gt, 1usize))
        },
        '+' => Some((Symbol::Plus, 1usize)),
        '-' => Some((Symbol::Minus, 1usize)),
        '*' => Some((Symbol::Star, 1usize)),
        '∙' => Some((Symbol::Dot, 1usize)),
        '×' => Some((Symbol::Cross, 1usize)),
        '/' => Some((Symbol::Slash, 1usize)),
        '÷' => Some((Symbol::Divide, 1usize)),
        '%' => Some((Symbol::Percent, 1usize)),
        '^' => Some((Symbol::Carrot, 1usize)),
        '°' => Some((Symbol::Degree, 1usize)),
        '√' => Some((Symbol::Sqrt, 1usize)),
        '∛' => Some((Symbol::Cbrt, 1usize)),
        '∜' => Some((Symbol::Fort, 1usize)),
        '(' => Some((Symbol::LeftParen, 1usize)),
        ')' => Some((Symbol::RightParen, 1usize)),
        '|' => Some((Symbol::Pipe, 1usize)),
        '⌊' => Some((Symbol::LeftFloor, 1usize)),
        '⌋' => Some((Symbol::RightFloor, 1usize)),
        '⌈' => Some((Symbol::LeftCeil, 1usize)),
        '⌉' => Some((Symbol::RightCeil, 1usize)),
        '{' => Some((Symbol::LeftBrace, 1usize)),
        '}' => Some((Symbol::RightBrace, 1usize)),
        ',' => Some((Symbol::Comma, 1usize)),
        _ => None,
    }
}

/// The keyword spelled by `word`, if it is one.
pub fn keyword(word: &Vec<char>) -> (r: Option<Symbol>)
    ensures
        r == keyword_of(word@),
{
    let n = word.len();
    if n == 3 && word[0] == 'a' && word[1] == 'n' && word[2] == 'd' {
        assert(word@ =~= seq!['a', 'n', 'd']);
        Some(Symbol::And)
    } else if n == 2 && word[0] == 'o' && word[1] == 'r' {
        assert(word@ =~= seq!['o', 'r']);
        Some(Symbol::Or)
    } else if n == 3 && word[0] == 'n' && word[1] == 'o' && word[2] == 't' {
        assert(word@ =~= seq!['n', 'o', 't']);
        Some(Symbol::Not)
    } else if n == 2 && word[0] == 'i' && word[1] == 'f' {
        assert(word@ =~= seq!['i', 'f']);
        Some(Symbol::If)
    } else if n == 4 && word[0] == 'e' && word[1] == 'l' && word[2] == 's' && word[3] == 'e' {
        assert(word@ =~= seq!['e', 'l', 's', 'e']);
        Some(Symbol::Else)
    } else if n == 5 && word[0] == 'w' && word[1] == 'h' && word[2] == 'i' && word[3] == 'l'
        && word[4] == 'e' {
        assert(word@ =~= seq!['w', 'h', 'i', 'l', 'e']);
        Some(Symbol::While)
    } else {
        None
    }
}

impl Symbol {
    /// The source text of the symbol.
    pub fn text(&self) -> (r: &'static str)
        ensures
            r@ == symbol_text(*self),
    {
        let r = match self {
            Symbol::Eq => "=",
            Symbol::Plus => "+",
            Symbol::Minus => "-",
            Symbol::Star => "*",
            Symbol::Dot => "∙",
            Symbol::Cross => "×",
            Symbol::Slash => "/",
            Symbol::Divide => "÷",
            Symbol::Percent => "%",
            Symbol::Carrot => "^",
            Symbol::Exclamation => "!",
            Symbol::Degree => "°",
            Symbol::Sqrt => "√",
            Symbol::Cbrt => "∛",
            Symbol::Fort => "∜",
            Symbol::LeftParen => "(",
            Symbol::RightParen => ")",
            Symbol::Pipe => "|",
            Symbol::LeftFloor => "⌊",
            Symbol::RightFloor => "⌋",
            Symbol::LeftCeil => "⌈",
            Symbol::RightCeil => "⌉",
            Symbol::LeftBrace => "{",
            Symbol::RightBrace => "}",
            Symbol::Comma => ",",
            Symbol::EqEq => "==",
            Symbol::Neq => "!=",
            Symbol::Lt => "<",
            Symbol::Lte => "<=",
            Symbol::Gt => ">",
            Symbol::Gte => ">=",
            Symbol::And => "and",
            Symbol::Or => "or",
            Symbol::Not => "not",
            Symbol::If => "if",
            Symbol::Else => "else",
            Symbol::While => "while",
        };
        proof {
            reveal_strlit("=");
            reveal_strlit("+");
            reveal_strlit("-");
            reveal_strlit("*");
            reveal_strlit("∙");
            reveal_strlit("×");
            reveal_strlit("/");
            reveal_strlit("÷");
            reveal_strlit("%");
            reveal_strlit("^");
            reveal_strlit("!");
            reveal_strlit("°");
            reveal_strlit("√");
            reveal_strlit("∛");
            reveal_strlit("∜");
            reveal_strlit("(");
            reveal_strlit(")");
            reveal_strlit("|");
            reveal_strlit("⌊");
            reveal_strlit("⌋");
            reveal_strlit("⌈");
            reveal_strlit("⌉");
            reveal_strlit("{");
            reveal_strlit("}");
            reveal_strlit(",");
            reveal_strlit("==");
            reveal_strlit("!=");
            reveal_strlit("<");
            reveal_strlit("<=");
            reveal_strlit(">");
            reveal_strlit(">=");
            reveal_strlit("and");
            reveal_strlit("or");
            reveal_strlit("not");
            reveal_strlit("if");
            reveal_strlit("else");
            reveal_strlit("while");
            assert(r@ =~= symbol_text(*self));
        }
        r
    }
}

} // verus!
