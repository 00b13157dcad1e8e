use spectre::{tokenize, Lexer, Symbol, Token, TokenType};

fn kinds(text: &str) -> Vec<TokenType> {
    tokenize(text).unwrap().into_iter().map(|t| t.ty).collect()
}

fn symbols(text: &str) -> Vec<TokenType> {
    let mut all = kinds(text);
    assert_eq!(all.pop(), Some(TokenType::EOF));
    all
}

fn sym(s: Symbol) -> TokenType {
    TokenType::Symbol(s)
}

#[test]
fn lexes_numbers_and_operators() {
    assert_eq!(
        kinds("2 + 3.5"),
        vec![
            TokenType::Int(2),
            sym(Symbol::Plus),
            TokenType::Float("3.5".to_string()),
            TokenType::EOF,
        ]
    );
}

#[test]
fn token_ranges_are_byte_ranges() {
    let tokens = tokenize("2 × 3").unwrap();
    assert_eq!(tokens[0], Token { ty: TokenType::Int(2), range: 0..1 });
    assert_eq!(tokens[1], Token { ty: sym(Symbol::Cross), range: 2..4 });
    assert_eq!(tokens[2], Token { ty: TokenType::Int(3), range: 5..6 });
    assert_eq!(tokens[3], Token { ty: TokenType::EOF, range: 6..6 });
    let tokens = tokenize("√𝜑").unwrap_err();
    assert_eq!(tokens.range, 3..7);
}

#[test]
fn every_symbol_has_its_token() {
    assert_eq!(
        symbols("= + - * ∙ × / ÷ % ^ ! °"),
        vec![
            sym(Symbol::Eq),
            sym(Symbol::Plus),
            sym(Symbol::Minus),
            sym(Symbol::Star),
            sym(Symbol::Dot),
            sym(Symbol::Cross),
            sym(Symbol::Slash),
            sym(Symbol::Divide),
            sym(Symbol::Percent),
            sym(Symbol::Carrot),
            sym(Symbol::Exclamation),
            sym(Symbol::Degree),
        ]
    );
    assert_eq!(
        symbols("√ ∛ ∜ ( ) | ⌊ ⌋ ⌈ ⌉ { } ,"),
        vec![
            sym(Symbol::Sqrt),
            sym(Symbol::Cbrt),
            sym(Symbol::Fort),
            sym(Symbol::LeftParen),
            sym(Symbol::RightParen),
            sym(Symbol::Pipe),
            sym(Symbol::LeftFloor),
            sym(Symbol::RightFloor),
            sym(Symbol::LeftCeil),
            sym(Symbol::RightCeil),
            sym(Symbol::LeftBrace),
            sym(Symbol::RightBrace),
            sym(Symbol::Comma),
        ]
    );
    assert_eq!(
        symbols("== != < <= > >="),
        vec![
            sym(Symbol::EqEq),
            sym(Symbol::Neq),
            sym(Symbol::Lt),
            sym(Symbol::Lte),
            sym(Symbol::Gt),
            sym(Symbol::Gte),
        ]
    );
    assert_eq!(
        symbols("and or not if else while"),
        vec![
            sym(Symbol::And),
            sym(Symbol::Or),
            sym(Symbol::Not),
            sym(Symbol::If),
            sym(Symbol::Else),
            sym(Symbol::While),
        ]
    );
}

#[test]
fn newline_and_semicolon_separate() {
    assert_eq!(
        symbols("a\nb;c"),
        vec![
            TokenType::Identifier("a".to_string()),
            TokenType::Newline,
            TokenType::Identifier("b".to_string()),
            TokenType::Newline,
            TokenType::Identifier("c".to_string()),
        ]
    );
}

#[test]
fn blanks_are_skipped() {
    assert_eq!(kinds(" \t\r 1 \t "), vec![TokenType::Int(1), TokenType::EOF]);
    assert_eq!(kinds(""), vec![TokenType::EOF]);
    assert_eq!(kinds("   "), vec![TokenType::EOF]);
}

#[test]
fn identifiers() {
    assert_eq!(
        symbols("x_1 αβγ ∞ Ω2 iff android"),
        vec![
            TokenType::Identifier("x_1".to_string()),
            TokenType::Identifier("αβγ".to_string()),
            TokenType::Identifier("∞".to_string()),
            TokenType::Identifier("Ω2".to_string()),
            TokenType::Identifier("iff".to_string()),
            TokenType::Identifier("android".to_string()),
        ]
    );
}

#[test]
fn number_literals() {
    assert_eq!(symbols("0"), vec![TokenType::Int(0)]);
    assert_eq!(symbols("007"), vec![TokenType::Int(7)]);
    assert_eq!(symbols("2147483647"), vec![TokenType::Int(2147483647)]);
    assert_eq!(symbols("1."), vec![TokenType::Float("1.".to_string())]);
    assert_eq!(symbols("1.2.3"), vec![TokenType::Float("1.2.3".to_string())]);
    assert_eq!(
        symbols("2x"),
        vec![TokenType::Int(2), TokenType::Identifier("x".to_string())]
    );
}

#[test]
fn integer_literal_out_of_range_is_an_error() {
    let e = tokenize("1 + 2147483648").unwrap_err();
    assert_eq!(e.msg, "invalid number");
    assert_eq!(e.reason, "'2147483648' does not fit in a 32-bit integer");
    assert_eq!(e.range, 4..14);
}

#[test]
fn superscript_run_is_one_token() {
    let tokens = tokenize("x²").unwrap();
    assert_eq!(tokens.len(), 3);
    assert_eq!(
        tokens[1].ty,
        TokenType::Superscript(vec![Token { ty: TokenType::Int(2), range: 0..1 }])
    );
    assert_eq!(tokens[1].range, 1..3);
    assert_eq!(
        symbols("⁽ⁿ⁺¹⁾"),
        vec![TokenType::Superscript(vec![
            Token { ty: sym(Symbol::LeftParen), range: 0..1 },
            Token { ty: TokenType::Identifier("n".to_string()), range: 1..2 },
            Token { ty: sym(Symbol::Plus), range: 2..3 },
            Token { ty: TokenType::Int(1), range: 3..4 },
            Token { ty: sym(Symbol::RightParen), range: 4..5 },
        ])]
    );
}

#[test]
fn shared_superscript_glyphs_are_small_letters() {
    assert_eq!(
        symbols("ᶜᴬ"),
        vec![TokenType::Superscript(vec![Token {
            ty: TokenType::Identifier("cA".to_string()),
            range: 0..2
        }])]
    );
}

#[test]
fn error_in_a_superscript_covers_the_run() {
    let e = tokenize("x⁹⁹⁹⁹⁹⁹⁹⁹⁹⁹").unwrap_err();
    assert_eq!(e.msg, "invalid number");
    assert_eq!(e.range, 1..31);
}

#[test]
fn invalid_character_is_an_error() {
    let e = tokenize("1 @ 2").unwrap_err();
    assert_eq!(e.msg, "invalid character");
    assert_eq!(e.reason, "'@' is not a valid character");
    assert_eq!(e.range, 2..3);
    let e = tokenize("1 + €").unwrap_err();
    assert_eq!(e.reason, "'€' is not a valid character");
    assert_eq!(e.range, 4..7);
}

#[test]
fn nul_ends_the_text() {
    assert_eq!(kinds("1\0 2"), vec![TokenType::Int(1), TokenType::EOF]);
}

#[test]
fn lexer_reads_token_by_token() {
    let mut lexer = Lexer::new("a + 1".to_string());
    assert_eq!(lexer.next_token().unwrap().ty, TokenType::Identifier("a".to_string()));
    assert_eq!(lexer.next_token().unwrap().ty, sym(Symbol::Plus));
    assert_eq!(lexer.lex().unwrap().len(), 2);
    assert_eq!(lexer.next_token().unwrap().ty, TokenType::EOF);
    assert_eq!(lexer.next_token().unwrap().ty, TokenType::EOF);
    let mut lexer = Lexer::new("a # b".to_string());
    assert!(lexer.lex().is_err());
}

#[test]
fn display_of_tokens() {
    assert_eq!(TokenType::Int(42).to_string(), "42");
    assert_eq!(TokenType::Int(-42).to_string(), "-42");
    assert_eq!(TokenType::Int(i32::MIN).to_string(), "-2147483648");
    assert_eq!(TokenType::Float("1.5".to_string()).to_string(), "1.5");
    assert_eq!(TokenType::Identifier("x".to_string()).to_string(), "x");
    assert_eq!(sym(Symbol::Plus).to_string(), "'+'");
    assert_eq!(sym(Symbol::Sqrt).to_string(), "'√'");
    assert_eq!(sym(Symbol::Lte).to_string(), "'<='");
    assert_eq!(sym(Symbol::While).to_string(), "'while'");
    assert_eq!(TokenType::Newline.to_string(), "'\\n'");
    assert_eq!(TokenType::EOF.to_string(), "<eof>");
    let tokens = tokenize("xⁿ⁺¹").unwrap();
    assert_eq!(tokens[1].to_string(), "^(n '+' 1)");
    assert_eq!(TokenType::Superscript(vec![]).to_string(), "^()");
}

#[test]
fn source_text_lexes_back_to_the_same_kind() {
    let text = "x_1 = 2 + 3.5 ∙ αⁿ⁺¹ ÷ √4 ≥ ; if a <= b { ⌊c⌉ } else { |d|! ° , ∛e ∜f % not g and h or k != m == n < o > p >= q × r - s * t / u ^ v } while w ( ) ⌈ ⌋\n";
    let text = text.replace("≥", ">=");
    for token in tokenize(&text).unwrap() {
        let lexeme = token.ty.lexeme().unwrap();
        let again = tokenize(&lexeme).unwrap();
        assert_eq!(
            std::mem::discriminant(&again[0].ty),
            std::mem::discriminant(&token.ty),
            "{:?}",
            token
        );
        if !matches!(token.ty, TokenType::Superscript(_)) {
            assert_eq!(again[0].ty, token.ty);
        }
    }
}

#[test]
fn source_text_of_tokens() {
    assert_eq!(TokenType::Int(7).lexeme(), Some("7".to_string()));
    assert_eq!(sym(Symbol::Neq).lexeme(), Some("!=".to_string()));
    assert_eq!(TokenType::Newline.lexeme(), Some("\n".to_string()));
    assert_eq!(TokenType::EOF.lexeme(), Some(String::new()));
    let tokens = tokenize("xⁿ⁺¹").unwrap();
    assert_eq!(tokens[1].ty.lexeme(), Some("ⁿ⁺¹".to_string()));
    let starred = TokenType::Superscript(vec![Token { ty: sym(Symbol::Star), range: 0..1 }]);
    assert_eq!(starred.lexeme(), None);
}

#[test]
fn position_advances_by_column_and_line() {
    let mut p = spectre::Position::default();
    p.advance('a');
    assert_eq!(p, spectre::Position { line: 0, col: 1, index: 1 });
    p.advance('\n');
    assert_eq!(p, spectre::Position { line: 1, col: 0, index: 2 });
    let text: Vec<char> = "ab\ncd".chars().collect();
    assert_eq!(
        spectre::Position::locate(&text, 4),
        spectre::Position { line: 1, col: 1, index: 4 }
    );
}

#[test]
fn lines_between_positions_are_shown_with_carets() {
    let a = spectre::Position { line: 1, col: 0, index: 3 };
    let b = spectre::Position { line: 1, col: 1, index: 4 };
    assert_eq!(
        a.get_lines_between_as_display(&b, "ab\ncd\nef"),
        "2 | cd\n   ^^"
    );
    let a = spectre::Position { line: 0, col: 1, index: 1 };
    let b = spectre::Position { line: 2, col: 1, index: 9 };
    assert_eq!(
        a.get_lines_between_as_display(&b, "ab\r\ncd\nef\n"),
        "1 | ab\n2 | cd\n3 | ef\n    ^"
    );
    let a = spectre::Position { line: 5, col: 0, index: 0 };
    assert_eq!(a.get_lines_between_as_display(&a, "ab"), "\n   ^");
}

#[test]
fn lines_of_a_text() {
    let text: Vec<char> = "a\r\n\nb\r".chars().collect();
    let lines: Vec<String> = spectre::position::split_lines(&text)
        .into_iter()
        .map(|l| l.into_iter().collect())
        .collect();
    let expected: Vec<String> = "a\r\n\nb\r".lines().map(|l| l.to_string()).collect();
    assert_eq!(lines, expected);
    assert_eq!(lines, vec!["a".to_string(), String::new(), "b\r".to_string()]);
}
