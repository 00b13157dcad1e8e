use spectre::{parse, tokenize, BinaryOp, Node, SpectreError, Symbol, Token, TokenType, UnaryOp};

fn tree(source: &str) -> Node {
    match parse(tokenize(source).unwrap()).unwrap() {
        Node::Statements(mut nodes) => {
            assert_eq!(nodes.len(), 1);
            nodes.pop().unwrap()
        }
        other => panic!("{:?}", other),
    }
}

fn failure(source: &str) -> SpectreError {
    parse(tokenize(source).unwrap()).unwrap_err()
}

fn num(n: i32) -> Node {
    Node::Int(n)
}

fn name(s: &str) -> Node {
    Node::Identifier(s.to_string())
}

fn unary(op: UnaryOp, x: Node) -> Node {
    Node::Unary(op, Box::new(x))
}

fn binary(l: Node, op: BinaryOp, r: Node) -> Node {
    Node::Binary(Box::new(l), op, Box::new(r))
}

fn block(nodes: Vec<Node>) -> Node {
    Node::Statements(nodes)
}

#[test]
fn number_before_number_is_a_product() {
    assert_eq!(tree("2 3"), binary(num(2), BinaryOp::Mul, num(3)));
}

#[test]
fn number_before_name_is_a_product() {
    assert_eq!(tree("2x"), binary(num(2), BinaryOp::Mul, name("x")));
    assert_eq!(
        tree("3(x + 1)"),
        binary(num(3), BinaryOp::Mul, binary(name("x"), BinaryOp::Add, num(1)))
    );
    assert_eq!(
        tree("2.5x"),
        binary(Node::Float("2.5".to_string()), BinaryOp::Mul, name("x"))
    );
}

#[test]
fn number_before_operator_stands_alone() {
    assert_eq!(tree("2 + 3"), binary(num(2), BinaryOp::Add, num(3)));
    assert_eq!(tree("2 * 3"), binary(num(2), BinaryOp::Mul, num(3)));
    assert_eq!(tree("5!"), unary(UnaryOp::Fact, num(5)));
    assert_eq!(tree("180°"), unary(UnaryOp::Degree, num(180)));
    assert_eq!(tree("(2)"), num(2));
    assert_eq!(tree("|2|"), unary(UnaryOp::Abs, num(2)));
}

#[test]
fn parses_sign_outside_power() {
    assert_eq!(
        tree("-2^2"),
        unary(UnaryOp::Neg, binary(num(2), BinaryOp::Pow, num(2)))
    );
    assert_eq!(
        tree("2^-2"),
        binary(num(2), BinaryOp::Pow, unary(UnaryOp::Neg, num(2)))
    );
}

#[test]
fn parses_power_right_associative() {
    assert_eq!(
        tree("2^3^2"),
        binary(num(2), BinaryOp::Pow, binary(num(3), BinaryOp::Pow, num(2)))
    );
}

#[test]
fn parses_root_tighter_than_power() {
    assert_eq!(
        tree("√4^2"),
        binary(unary(UnaryOp::Sqrt, num(4)), BinaryOp::Pow, num(2))
    );
    assert_eq!(
        tree("∛∜x"),
        unary(UnaryOp::Cbrt, unary(UnaryOp::Fort, name("x")))
    );
}

#[test]
fn sums_and_products_are_right_recursive() {
    assert_eq!(
        tree("1 - 2 - 3"),
        binary(num(1), BinaryOp::Sub, binary(num(2), BinaryOp::Sub, num(3)))
    );
    assert_eq!(
        tree("1 + 2 * 3"),
        binary(num(1), BinaryOp::Add, binary(num(2), BinaryOp::Mul, num(3)))
    );
    assert_eq!(
        tree("8 / 4 % 3"),
        binary(num(8), BinaryOp::Div, binary(num(4), BinaryOp::Rem, num(3)))
    );
}

#[test]
fn glyphs_alias_operators() {
    assert_eq!(tree("a × b"), binary(name("a"), BinaryOp::Mul, name("b")));
    assert_eq!(tree("a ∙ b"), binary(name("a"), BinaryOp::Mul, name("b")));
    assert_eq!(tree("a ÷ b"), binary(name("a"), BinaryOp::Div, name("b")));
}

#[test]
fn logical_and_comparison_levels() {
    assert_eq!(
        tree("a or b and not c == d"),
        binary(
            name("a"),
            BinaryOp::Or,
            binary(
                name("b"),
                BinaryOp::And,
                unary(UnaryOp::Not, binary(name("c"), BinaryOp::EqEq, name("d")))
            )
        )
    );
    assert_eq!(
        tree("1 < 2 <= 3"),
        binary(num(1), BinaryOp::Lt, binary(num(2), BinaryOp::Lte, num(3)))
    );
    assert_eq!(tree("1 != 2"), binary(num(1), BinaryOp::Neq, num(2)));
    assert_eq!(tree("1 > 2"), binary(num(1), BinaryOp::Gt, num(2)));
    assert_eq!(tree("1 >= 2"), binary(num(1), BinaryOp::Gte, num(2)));
}

#[test]
fn assignment_takes_a_logical_expression() {
    assert_eq!(
        tree("x = 1 + 2"),
        Node::Assignment(
            "x".to_string(),
            Box::new(binary(num(1), BinaryOp::Add, num(2)))
        )
    );
}

#[test]
fn brackets() {
    assert_eq!(tree("(x)"), name("x"));
    assert_eq!(tree("|x|"), unary(UnaryOp::Abs, name("x")));
    assert_eq!(tree("⌊x⌋"), unary(UnaryOp::Floor, name("x")));
    assert_eq!(tree("⌈x⌉"), unary(UnaryOp::Ceil, name("x")));
    assert_eq!(tree("⌊x⌉"), unary(UnaryOp::Abs, name("x")));
}

#[test]
fn superscript_is_a_power() {
    assert_eq!(tree("x²"), binary(name("x"), BinaryOp::Pow, num(2)));
    assert_eq!(
        tree("xⁿ⁺¹"),
        binary(
            name("x"),
            BinaryOp::Pow,
            binary(name("n"), BinaryOp::Add, num(1))
        )
    );
}

#[test]
fn only_one_postfix_is_taken() {
    let tokens = tokenize("5!°").unwrap();
    assert_eq!(
        parse(tokens).unwrap(),
        block(vec![unary(UnaryOp::Fact, num(5))])
    );
}

#[test]
fn call_and_function_definition() {
    assert_eq!(
        tree("f(1, x)"),
        Node::Call("f".to_string(), vec![num(1), name("x")])
    );
    assert_eq!(tree("f()"), Node::Call("f".to_string(), vec![]));
    assert_eq!(tree("f(1,)"), Node::Call("f".to_string(), vec![num(1)]));
    assert_eq!(
        tree("f(x, y) = x + y"),
        Node::FnDef(
            "f".to_string(),
            vec!["x".to_string(), "y".to_string()],
            Box::new(binary(name("x"), BinaryOp::Add, name("y")))
        )
    );
}

#[test]
fn conditionals_and_loops() {
    assert_eq!(
        tree("if a { 1 }"),
        Node::If(Box::new(name("a")), Box::new(block(vec![num(1)])), None)
    );
    assert_eq!(
        tree("if a { 1 } else { 2 }"),
        Node::If(
            Box::new(name("a")),
            Box::new(block(vec![num(1)])),
            Some(Box::new(block(vec![num(2)])))
        )
    );
    assert_eq!(
        tree("if a { 1 }\nelse if b { 2 }"),
        Node::If(
            Box::new(name("a")),
            Box::new(block(vec![num(1)])),
            Some(Box::new(Node::If(
                Box::new(name("b")),
                Box::new(block(vec![num(2)])),
                None
            )))
        )
    );
    assert_eq!(
        tree("while a { 1\n 2 }"),
        Node::While(Box::new(name("a")), Box::new(block(vec![num(1), num(2)])))
    );
}

#[test]
fn statements_need_separators() {
    assert_eq!(
        parse(tokenize("1\n\n2;3").unwrap()).unwrap(),
        block(vec![num(1), num(2), num(3)])
    );
    assert_eq!(
        parse(tokenize("\n\n1\n").unwrap()).unwrap(),
        block(vec![num(1)])
    );
    assert_eq!(parse(tokenize("x y").unwrap()).unwrap(), block(vec![name("x")]));
}

#[test]
fn empty_program_is_the_end_marker() {
    assert_eq!(parse(tokenize("").unwrap()).unwrap(), block(vec![Node::Eof]));
    assert_eq!(parse(Vec::new()).unwrap(), block(vec![Node::Eof]));
}

#[test]
fn unbalanced_bracket_is_an_error() {
    let e = failure("(1 + 2");
    assert_eq!(e.msg, "expected token");
    assert_eq!(e.reason, "expected ')'");
    assert_eq!(e.range, 0..6);
    assert_eq!(failure("|1").reason, "expected '|'");
    assert_eq!(failure("⌊1").reason, "expected '⌋' or '⌉'");
    assert_eq!(failure("⌈1").reason, "expected '⌉'");
}

#[test]
fn unexpected_token_is_an_error() {
    let e = failure("1 + *");
    assert_eq!(e.msg, "expected token");
    assert_eq!(
        e.reason,
        "expected int, float, identifier, '(', '|', '⌊', '⌈', or 'if'"
    );
    assert_eq!(e.range, 4..5);
}

#[test]
fn malformed_argument_list_is_an_error() {
    let e = failure("f(x y)");
    assert_eq!(e.reason, "expected ',' or ')'");
    assert_eq!(e.range.start, 1);
    let e = failure("f(1,");
    assert_eq!(e.msg, "expected token");
}

#[test]
fn malformed_parameter_list_is_an_error() {
    let e = failure("f(1) = 2");
    assert_eq!(e.msg, "expected token");
    assert_eq!(e.reason, "the parameters of a function must be identifiers");
    assert_eq!(e.range.start, 0);
}

#[test]
fn call_of_what_is_no_name_is_an_error() {
    let e = failure("(1 + 2)(3)");
    assert_eq!(e.msg, "expected token");
    assert_eq!(e.reason, "there should be an identifier here");
    assert_eq!(e.range, 0..8);
    assert_eq!(tree("(f)(1)"), Node::Call("f".to_string(), vec![num(1)]));
}

#[test]
fn missing_brace_is_an_error() {
    assert_eq!(failure("if a 1").reason, "expected '{'");
    assert_eq!(failure("while a 1").reason, "expected '{'");
    assert_eq!(failure("if a { 1").reason, "expected '}'");
    assert_eq!(failure("if a { 1 } else 2").reason, "expected '{' or 'if'");
}

#[test]
fn second_dot_is_an_error_of_the_parser() {
    let tokens = tokenize("1.2.3").unwrap();
    assert_eq!(tokens[0].ty, TokenType::Float("1.2.3".to_string()));
    let e = parse(tokens).unwrap_err();
    assert_eq!(e.msg, "invalid number");
    assert_eq!(e.reason, "'1.2.3' is not a number with one decimal point");
    assert_eq!(e.range, 0..5);
    assert_eq!(failure("2 1..").msg, "invalid number");
}

#[test]
fn error_in_a_superscript_is_an_error() {
    let e = failure("x⁽");
    assert_eq!(e.msg, "expected token");
}

#[test]
fn parser_method_reads_one_statement() {
    let mut parser = spectre::Parser::new(tokenize("1 + 2\n3").unwrap());
    assert_eq!(parser.statement().unwrap(), binary(num(1), BinaryOp::Add, num(2)));
    let mut parser = spectre::Parser::new(vec![Token {
        ty: TokenType::Symbol(Symbol::RightParen),
        range: 0..1,
    }]);
    assert!(parser.parse().is_err());
}

#[test]
fn display_of_nodes() {
    assert_eq!(tree("1 + 2 * x").to_string(), "(1 + (2 * x))");
    assert_eq!(tree("-2^2").to_string(), "(-(2 ^ 2))");
    assert_eq!(tree("√4^2").to_string(), "((√4) ^ 2)");
    assert_eq!(tree("x = 5!").to_string(), "(x = (5!))");
    assert_eq!(tree("|x| + ⌊y⌋ + ⌈z⌉").to_string(), "(|x| + (⌊y⌋ + ⌈z⌉))");
    assert_eq!(tree("90° + ∛8 + ∜16 + +1").to_string(), "((90°) + ((∛8) + ((∜16) + (+1))))");
    assert_eq!(tree("not a and b or c").to_string(), "(((not a) and b) or c)");
    assert_eq!(tree("1.5 <= 2").to_string(), "(1.5 <= 2)");
    assert_eq!(tree("f(1, x)").to_string(), "f(1, x)");
    assert_eq!(tree("f()").to_string(), "f()");
    assert_eq!(tree("f(x, y) = x % y").to_string(), "fn f(x, y) {\n  (x % y)\n}");
    assert_eq!(
        tree("if a { 1 } else { 2 }").to_string(),
        "if a then {\n  1\n} else {\n  2\n}"
    );
    assert_eq!(tree("if a { 1 }").to_string(), "if a then {\n  1\n}");
    assert_eq!(tree("while a { 1\n2 }").to_string(), "while a do {\n  1\n  2\n}");
    assert_eq!(parse(tokenize("").unwrap()).unwrap().to_string(), "{\n  <eof>\n}");
    assert_eq!(Node::Real(7).to_string(), "#7");
    assert_eq!(unary(UnaryOp::Round, name("x")).to_string(), "⌊x⌉");
    assert_eq!(BinaryOp::And.to_string(), "and");
    assert_eq!(BinaryOp::Neq.to_string(), "!=");
}
