use spectre::{
    parse, tokenize, Comparison, Control, EvalError, Interpreter, Native, Real, RealFn, RealOp,
    Request, Test, Value,
};

fn compute(formula: &Real) -> f64 {
    match formula {
        Real::Bits(bits) => f64::from_bits(*bits),
        Real::Int(n) => *n as f64,
        Real::Apply(f, x) => {
            let x = compute(x);
            match f {
                RealFn::Neg => -x,
                RealFn::Abs => x.abs(),
                RealFn::Floor => x.floor(),
                RealFn::Ceil => x.ceil(),
                RealFn::Round => x.round(),
                RealFn::Trunc => x.trunc(),
                RealFn::Fract => x.fract(),
                RealFn::Sqrt => x.sqrt(),
                RealFn::Cbrt => x.cbrt(),
                RealFn::Ln => x.ln(),
                RealFn::Sin => x.sin(),
                RealFn::Cos => x.cos(),
                RealFn::Tan => x.tan(),
                RealFn::ToRadians => x.to_radians(),
            }
        }
        Real::Combine(op, x, y) => {
            let (x, y) = (compute(x), compute(y));
            match op {
                RealOp::Add => x + y,
                RealOp::Sub => x - y,
                RealOp::Mul => x * y,
                RealOp::Div => x / y,
                RealOp::Rem => x % y,
                RealOp::Pow => x.powf(y),
                RealOp::Hypot => x.hypot(y),
                RealOp::Atan2 => x.atan2(y),
                RealOp::Min => x.min(y),
                RealOp::Max => x.max(y),
            }
        }
    }
}

fn holds(test: &Test) -> bool {
    match test {
        Test::Compare(c, x, y) => {
            let (x, y) = (compute(x), compute(y));
            match c {
                Comparison::Eq => x == y,
                Comparison::Lt => x < y,
                Comparison::Le => x <= y,
                Comparison::Gt => x > y,
                Comparison::Ge => x >= y,
            }
        }
        Test::Both(a, b) => holds(a) && holds(b),
        Test::Not(a) => !holds(a),
    }
}

fn host(request: &Request, output: &mut Vec<String>) -> Value {
    match request {
        Request::Real(r) => Value::Float(compute(r).to_bits()),
        Request::Complex(re, im) => Value::Complex(compute(re).to_bits(), compute(im).to_bits()),
        Request::Truncated(r) => Value::Int(compute(r) as i32),
        Request::Test(t) => Value::Bool(holds(t)),
        Request::Literal(text) => Value::Float(text.parse::<f64>().unwrap().to_bits()),
        Request::Print(v) => {
            output.push(format!("{:?}", v));
            Value::Int(0)
        }
    }
}

fn run_in(interpreter: &mut Interpreter, source: &str) -> Result<Value, EvalError> {
    let mut output = Vec::new();
    run_with_output(interpreter, source, &mut output)
}

fn run_with_output(
    interpreter: &mut Interpreter,
    source: &str,
    output: &mut Vec<String>,
) -> Result<Value, EvalError> {
    let ast = parse(tokenize(source).unwrap()).unwrap();
    interpreter.load(ast);
    loop {
        interpreter.run(1000);
        let answer = match interpreter.control() {
            Control::Done(v) => return Ok(v.clone()),
            Control::Failed(e) => return Err(e.clone()),
            Control::Ask(request) => host(request, output),
            _ => continue,
        };
        interpreter.answer(answer);
    }
}

fn run(source: &str) -> Result<Value, EvalError> {
    run_in(&mut Interpreter::new(), source)
}

fn float(x: f64) -> Value {
    Value::Float(x.to_bits())
}

fn complex(re: f64, im: f64) -> Value {
    Value::Complex(re.to_bits(), im.to_bits())
}

#[test]
fn implicit_multiplication_of_two_numbers() {
    assert_eq!(run("2 3"), Ok(Value::Int(6)));
}

#[test]
fn implicit_multiplication_of_number_and_name() {
    let mut interpreter = Interpreter::new();
    interpreter.add_var("x", Value::Int(5));
    assert_eq!(run_in(&mut interpreter, "2x"), Ok(Value::Int(10)));
    assert_eq!(run_in(&mut interpreter, "3(x + 1)"), Ok(Value::Int(18)));
}

#[test]
fn sign_is_outside_power() {
    assert_eq!(run("-2^2"), Ok(Value::Int(-4)));
}

#[test]
fn negative_exponent_gives_a_real() {
    assert_eq!(run("2^-2"), Ok(float(0.25)));
}

#[test]
fn power_is_right_associative() {
    assert_eq!(run("2^3^2"), Ok(Value::Int(512)));
}

#[test]
fn root_binds_tighter_than_power() {
    assert_eq!(run("√4^2"), Ok(float(4.0)));
    assert_eq!(run("√16^2"), Ok(float(16.0)));
}

#[test]
fn imaginary_unit_squared() {
    assert_eq!(run("i*i"), Ok(complex(-1.0, 0.0)));
}

#[test]
fn integer_plus_complex() {
    assert_eq!(run("1 + 2*i"), Ok(complex(1.0, 2.0)));
}

#[test]
fn functions_do_not_capture() {
    let mut interpreter = Interpreter::new();
    assert_eq!(run_in(&mut interpreter, "y = 1"), Ok(Value::Int(1)));
    assert_eq!(run_in(&mut interpreter, "f(x) = x + y"), Ok(Value::Int(0)));
    assert_eq!(
        run_in(&mut interpreter, "f(1)"),
        Err(EvalError::UndefinedName("y".to_string()))
    );
    assert_eq!(run_in(&mut interpreter, "y"), Ok(Value::Int(1)));
}

#[test]
fn functions_do_not_see_other_functions_or_themselves() {
    let mut interpreter = Interpreter::new();
    run_in(&mut interpreter, "g(x) = x + 1").unwrap();
    run_in(&mut interpreter, "f(x) = g(x)").unwrap();
    run_in(&mut interpreter, "r(x) = r(x)").unwrap();
    assert_eq!(
        run_in(&mut interpreter, "f(1)"),
        Err(EvalError::UndefinedName("g".to_string()))
    );
    assert_eq!(
        run_in(&mut interpreter, "r(1)"),
        Err(EvalError::UndefinedName("r".to_string()))
    );
}

#[test]
fn functions_see_the_built_in_table() {
    let mut interpreter = Interpreter::new();
    run_in(&mut interpreter, "f(x) = gcd(x, 12) + floor(π)").unwrap();
    assert_eq!(run_in(&mut interpreter, "f(18)"), Ok(float(9.0)));
}

#[test]
fn scalar_times_function_is_a_function() {
    let mut interpreter = Interpreter::new();
    run_in(&mut interpreter, "f(x) = x + 1").unwrap();
    run_in(&mut interpreter, "g = 2 * f").unwrap();
    assert_eq!(run_in(&mut interpreter, "g(3)"), Ok(Value::Int(8)));
    run_in(&mut interpreter, "h = f ^ 2").unwrap();
    assert_eq!(run_in(&mut interpreter, "h(3)"), Ok(Value::Int(16)));
    run_in(&mut interpreter, "k = 1.5 * f").unwrap();
    assert_eq!(run_in(&mut interpreter, "k(3)"), Ok(float(6.0)));
    run_in(&mut interpreter, "q = 12 / f").unwrap();
    assert_eq!(run_in(&mut interpreter, "q(3)"), Ok(Value::Int(3)));
}

#[test]
fn function_plus_scalar_is_an_error() {
    let mut interpreter = Interpreter::new();
    run_in(&mut interpreter, "f(x) = x + 1").unwrap();
    assert_eq!(run_in(&mut interpreter, "f + 1"), Err(EvalError::WrongOperandKind));
    assert_eq!(run_in(&mut interpreter, "i * f"), Err(EvalError::WrongOperandKind));
}

#[test]
fn while_loop_counts_to_three() {
    assert_eq!(run("x = 0\nwhile x < 3 { x = x + 1 }"), Ok(Value::Int(3)));
    assert_eq!(run("x = 0; while x < 3 { x = x + 1 }"), Ok(Value::Int(3)));
}

#[test]
fn while_on_the_line_of_a_number_is_a_product() {
    assert_eq!(
        run("x = 0 while x < 3 { x = x + 1 }"),
        Err(EvalError::UndefinedName("x".to_string()))
    );
}

#[test]
fn while_that_never_runs_gives_zero() {
    assert_eq!(run("while 0 { 5 }"), Ok(Value::Int(0)));
}

#[test]
fn degrees_to_radians() {
    match run("180°") {
        Ok(Value::Float(bits)) => {
            assert!((f64::from_bits(bits) - std::f64::consts::PI).abs() < 1e-12)
        }
        other => panic!("{:?}", other),
    }
}

#[test]
fn factorial_of_five() {
    assert_eq!(run("5!"), Ok(Value::Int(120)));
    assert_eq!(run("0!"), Ok(Value::Int(1)));
    assert_eq!(run("12!"), Ok(Value::Int(479001600)));
}

#[test]
fn factorial_of_a_real_truncates() {
    assert_eq!(run("3.9!"), Ok(Value::Int(6)));
}

#[test]
fn factorial_of_a_negative_number_is_one() {
    assert_eq!(run("(-3)!"), Ok(Value::Int(1)));
}

#[test]
fn factorial_overflow_is_an_error() {
    assert_eq!(run("13!"), Err(EvalError::Overflow));
}

#[test]
fn integer_arithmetic() {
    assert_eq!(run("7 + 5"), Ok(Value::Int(12)));
    assert_eq!(run("7 - 5"), Ok(Value::Int(2)));
    assert_eq!(run("7 * 5"), Ok(Value::Int(35)));
    assert_eq!(run("7 / 2"), Ok(Value::Int(3)));
    assert_eq!(run("-7 / 2"), Ok(Value::Int(-3)));
    assert_eq!(run("7 % 3"), Ok(Value::Int(1)));
    assert_eq!(run("-7 % 3"), Ok(Value::Int(-1)));
    assert_eq!(run("7 ÷ 2"), Ok(Value::Int(3)));
    assert_eq!(run("7 × 2"), Ok(Value::Int(14)));
    assert_eq!(run("7 ∙ 2"), Ok(Value::Int(14)));
    assert_eq!(run("2^10"), Ok(Value::Int(1024)));
    assert_eq!(run("0^0"), Ok(Value::Int(1)));
    assert_eq!(run("(-1)^2147483647"), Ok(Value::Int(-1)));
}

#[test]
fn division_by_zero_is_an_error() {
    assert_eq!(run("1 / 0"), Err(EvalError::DivideByZero));
    assert_eq!(run("1 % 0"), Err(EvalError::DivideByZero));
}

#[test]
fn integer_overflow_is_an_error() {
    assert_eq!(run("2147483647 + 1"), Err(EvalError::Overflow));
    assert_eq!(run("65536 * 65536"), Err(EvalError::Overflow));
    assert_eq!(run("2^31"), Err(EvalError::Overflow));
    assert_eq!(run("2^31 - 1"), Err(EvalError::Overflow));
    assert_eq!(run("-2147483647 - 2"), Err(EvalError::Overflow));
}

#[test]
fn real_promotes_integer() {
    assert_eq!(run("1 + 2.5"), Ok(float(3.5)));
    assert_eq!(run("2.5 * 2"), Ok(float(5.0)));
    assert_eq!(run("7 / 2.0"), Ok(float(3.5)));
    assert_eq!(run("2.0 ^ 3"), Ok(float(8.0)));
}

#[test]
fn complex_arithmetic_uses_cross_terms() {
    assert_eq!(run("(1 + 2*i) * (3 + 4*i)"), Ok(complex(-5.0, 10.0)));
    assert_eq!(run("(1 + 2*i) - (3 + 4*i)"), Ok(complex(-2.0, -2.0)));
    assert_eq!(run("(4 + 2*i) / (1 + i)"), Ok(complex(3.0, -1.0)));
    assert_eq!(run("(1 + i) % 2"), Err(EvalError::WrongOperandKind));
}

#[test]
fn complex_power_goes_through_polar_form() {
    let (a, b, c, d) = (1.0f64, 2.0f64, 3.0f64, 4.0f64);
    let magnitude = a.hypot(b).powf(c.hypot(d));
    let angle = b.atan2(a.hypot(b)).powf(d.atan2(c.hypot(d)));
    assert_eq!(
        run("(1 + 2*i) ^ (3 + 4*i)"),
        Ok(complex(magnitude * angle.cos(), magnitude * angle.sin()))
    );
}

#[test]
fn comparisons() {
    assert_eq!(run("1 < 2"), Ok(Value::Bool(true)));
    assert_eq!(run("2 <= 2"), Ok(Value::Bool(true)));
    assert_eq!(run("1 > 2"), Ok(Value::Bool(false)));
    assert_eq!(run("1 >= 2"), Ok(Value::Bool(false)));
    assert_eq!(run("1 == 1"), Ok(Value::Bool(true)));
    assert_eq!(run("1 != 1"), Ok(Value::Bool(false)));
    assert_eq!(run("1.5 < 2"), Ok(Value::Bool(true)));
    assert_eq!(run("1.5 == 1.5"), Ok(Value::Bool(true)));
    assert_eq!(run("1.5 != 1.5"), Ok(Value::Bool(false)));
    assert_eq!(run("1 == 1.0"), Ok(Value::Bool(false)));
    assert_eq!(run("i == i"), Ok(Value::Bool(true)));
    assert_eq!(run("i != 2*i"), Ok(Value::Bool(true)));
}

#[test]
fn complex_comparison_compares_squared_magnitudes() {
    assert_eq!(run("(3 + 4*i) < 6"), Ok(Value::Bool(true)));
    assert_eq!(run("(3 + 4*i) > 5"), Ok(Value::Bool(false)));
    assert_eq!(run("(3 + 4*i) >= 5"), Ok(Value::Bool(true)));
    assert_eq!(run("(3 + 4*i) <= (0 - 5)"), Ok(Value::Bool(true)));
}

#[test]
fn functions_equal_nothing() {
    let mut interpreter = Interpreter::new();
    run_in(&mut interpreter, "f(x) = x").unwrap();
    assert_eq!(run_in(&mut interpreter, "f == f"), Ok(Value::Bool(false)));
    assert_eq!(run_in(&mut interpreter, "f != f"), Ok(Value::Bool(true)));
    assert_eq!(run_in(&mut interpreter, "sin == sin"), Ok(Value::Bool(false)));
}

#[test]
fn logical_connectives() {
    assert_eq!(run("1 and 0"), Ok(Value::Bool(false)));
    assert_eq!(run("1 or 0"), Ok(Value::Bool(true)));
    assert_eq!(run("not 0"), Ok(Value::Bool(true)));
    assert_eq!(run("not 1 or 1"), Ok(Value::Bool(true)));
    assert_eq!(run("1 < 2 and 2 < 3"), Ok(Value::Bool(true)));
    assert_eq!(run("sin and 1"), Ok(Value::Bool(true)));
    assert_eq!(run("not sin"), Ok(Value::Bool(false)));
}

#[test]
fn complex_is_true_only_if_both_parts_are_nonzero() {
    assert_eq!(run("if i { 1 } else { 2 }"), Ok(Value::Int(2)));
    assert_eq!(run("if 1 + i { 1 } else { 2 }"), Ok(Value::Int(1)));
    assert_eq!(run("if 2 + 0*i { 1 } else { 2 }"), Ok(Value::Int(2)));
}

#[test]
fn real_truthiness() {
    assert_eq!(run("if 0.0 { 1 } else { 2 }"), Ok(Value::Int(2)));
    assert_eq!(run("if -0.0 { 1 } else { 2 }"), Ok(Value::Int(2)));
    assert_eq!(run("if 0.5 { 1 } else { 2 }"), Ok(Value::Int(1)));
}

#[test]
fn conditional_takes_one_branch() {
    assert_eq!(run("if 1 { 10 } else { 1 / 0 }"), Ok(Value::Int(10)));
    assert_eq!(run("if 0 { 1 / 0 } else { 20 }"), Ok(Value::Int(20)));
    assert_eq!(run("if 0 { 10 }"), Ok(Value::Int(0)));
    assert_eq!(run("if 0 { 1 } else if 1 { 2 } else { 3 }"), Ok(Value::Int(2)));
    assert_eq!(run("if 0 { 1 } else if 0 { 2 } else { 3 }"), Ok(Value::Int(3)));
}

#[test]
fn block_gives_its_last_value() {
    assert_eq!(run("1\n2\n3"), Ok(Value::Int(3)));
    assert_eq!(run(""), Ok(Value::Int(0)));
    assert_eq!(run("x = 4; x * x"), Ok(Value::Int(16)));
}

#[test]
fn assignment_gives_its_value_and_binds() {
    let mut interpreter = Interpreter::new();
    assert_eq!(run_in(&mut interpreter, "x = 2 + 3"), Ok(Value::Int(5)));
    assert_eq!(run_in(&mut interpreter, "x"), Ok(Value::Int(5)));
    assert_eq!(run_in(&mut interpreter, "x = x + 1"), Ok(Value::Int(6)));
    assert_eq!(run_in(&mut interpreter, "x"), Ok(Value::Int(6)));
}

#[test]
fn undefined_name_is_an_error() {
    assert_eq!(run("nope"), Err(EvalError::UndefinedName("nope".to_string())));
    assert_eq!(run("nope(1)"), Err(EvalError::UndefinedName("nope".to_string())));
}

#[test]
fn calling_a_number_is_an_error() {
    assert_eq!(run("x = 1; x(2)"), Err(EvalError::NotAFunction("x".to_string())));
}

#[test]
fn scope_survives_a_failed_call() {
    let mut interpreter = Interpreter::new();
    run_in(&mut interpreter, "a = 7").unwrap();
    run_in(&mut interpreter, "f(x) = x + nope").unwrap();
    assert!(run_in(&mut interpreter, "f(1)").is_err());
    assert_eq!(run_in(&mut interpreter, "a"), Ok(Value::Int(7)));
    assert_eq!(run_in(&mut interpreter, "x"), Err(EvalError::UndefinedName("x".to_string())));
}

#[test]
fn arguments_are_bound_in_order() {
    let mut interpreter = Interpreter::new();
    run_in(&mut interpreter, "f(a, b) = a - b").unwrap();
    assert_eq!(run_in(&mut interpreter, "f(10, 3)"), Ok(Value::Int(7)));
    assert_eq!(run_in(&mut interpreter, "f(3, 10)"), Ok(Value::Int(-7)));
    assert_eq!(run_in(&mut interpreter, "f(10, 3, 99)"), Ok(Value::Int(7)));
    assert_eq!(
        run_in(&mut interpreter, "f(10)"),
        Err(EvalError::UndefinedName("b".to_string()))
    );
}

#[test]
fn unary_operators_on_integers() {
    assert_eq!(run("|0 - 5|"), Ok(Value::Int(5)));
    assert_eq!(run("⌊7⌋"), Ok(Value::Int(7)));
    assert_eq!(run("⌈7⌉"), Ok(Value::Int(7)));
    assert_eq!(run("+7"), Ok(Value::Int(7)));
    assert_eq!(run("∛27"), Ok(Value::Int(3)));
    assert_eq!(run("∜16"), Ok(Value::Int(2)));
    assert_eq!(run("√9"), Ok(float(3.0)));
}

#[test]
fn unary_operators_on_reals() {
    assert_eq!(run("|0 - 2.5|"), Ok(float(2.5)));
    assert_eq!(run("⌊2.5⌋"), Ok(float(2.0)));
    assert_eq!(run("⌈2.5⌉"), Ok(float(3.0)));
    assert_eq!(run("-2.5"), Ok(float(-2.5)));
    assert_eq!(run("∛8.0"), Ok(float(2.0)));
    assert_eq!(run("∜16.0"), Ok(float(2.0)));
    assert_eq!(run("√6.25"), Ok(float(2.5)));
}

#[test]
fn floor_bracket_with_ceiling_closer_is_absolute_value() {
    assert_eq!(run("⌊0 - 2.5⌉"), Ok(float(2.5)));
    assert_eq!(run("⌊0 - 3⌉"), Ok(Value::Int(3)));
}

#[test]
fn absolute_value_of_complex_is_its_magnitude() {
    assert_eq!(run("|3 + 4*i|"), Ok(float(5.0)));
    assert_eq!(run("-(3 + 4*i)"), Ok(complex(-3.0, -4.0)));
}

#[test]
fn superscript_is_an_exponent() {
    assert_eq!(run("3²"), Ok(Value::Int(9)));
    assert_eq!(run("2³⁺¹"), Ok(Value::Int(16)));
    let mut interpreter = Interpreter::new();
    interpreter.add_var("x", Value::Int(3));
    assert_eq!(run_in(&mut interpreter, "2ˣ"), Ok(Value::Int(8)));
}

#[test]
fn native_integer_functions() {
    assert_eq!(run("gcd(12, 18)"), Ok(Value::Int(6)));
    assert_eq!(run("gcd(0, 5)"), Ok(Value::Int(5)));
    assert_eq!(run("lcm(4, 6)"), Ok(Value::Int(12)));
    assert_eq!(run("lcm(0, 0)"), Err(EvalError::DivideByZero));
    assert_eq!(run("min(3, 8)"), Ok(Value::Int(3)));
    assert_eq!(run("max(3, 8)"), Ok(Value::Int(8)));
    assert_eq!(run("clamp(5, 7, 10)"), Ok(Value::Int(7)));
    assert_eq!(run("clamp(15, 7, 10)"), Ok(Value::Int(10)));
    assert_eq!(run("clamp(8, 7, 10)"), Ok(Value::Int(8)));
    assert_eq!(run("abs(0 - 4)"), Ok(Value::Int(4)));
    assert_eq!(run("floor(4)"), Ok(Value::Int(4)));
    assert_eq!(run("trunc(4)"), Ok(Value::Int(4)));
}

#[test]
fn native_real_functions() {
    assert_eq!(run("floor(2.5)"), Ok(float(2.0)));
    assert_eq!(run("ceil(2.5)"), Ok(float(3.0)));
    assert_eq!(run("round(2.5)"), Ok(float(3.0)));
    assert_eq!(run("trunc(2.5)"), Ok(float(2.0)));
    assert_eq!(run("fract(2.5)"), Ok(float(0.5)));
    assert_eq!(run("abs(0 - 2.5)"), Ok(float(2.5)));
    assert_eq!(run("sqrt(16)"), Ok(float(4.0)));
    assert_eq!(run("cbrt(27.0)"), Ok(float(3.0)));
    assert_eq!(run("ln(1)"), Ok(float(0.0)));
    assert_eq!(run("sin(0)"), Ok(float(0.0)));
    assert_eq!(run("cos(0)"), Ok(float(1.0)));
    assert_eq!(run("tan(0)"), Ok(float(0.0)));
    assert_eq!(run("min(1.5, 2.5)"), Ok(float(1.5)));
    assert_eq!(run("max(1.5, 2.5)"), Ok(float(2.5)));
    assert_eq!(run("clamp(0.5, 1.5, 2.5)"), Ok(float(1.5)));
}

#[test]
fn native_complex_functions() {
    assert_eq!(run("Re(3 + 4*i)"), Ok(float(3.0)));
    assert_eq!(run("Im(3 + 4*i)"), Ok(float(4.0)));
    assert_eq!(run("conj(3 + 4*i)"), Ok(complex(3.0, -4.0)));
    assert_eq!(run("arg(i)"), Ok(float(std::f64::consts::FRAC_PI_2)));
    assert_eq!(run("phase(i)"), Ok(float(std::f64::consts::FRAC_PI_2)));
    assert_eq!(run("cis(0.0)"), Ok(complex(1.0, 0.0)));
}

#[test]
fn native_arity_and_kind_errors() {
    assert_eq!(run("gcd(1)"), Err(EvalError::WrongArity));
    assert_eq!(run("abs(1, 2)"), Err(EvalError::WrongArity));
    assert_eq!(run("clamp(1, 2)"), Err(EvalError::WrongArity));
    assert_eq!(run("print()"), Err(EvalError::WrongArity));
    assert_eq!(run("gcd(1.5, 2)"), Err(EvalError::WrongOperandKind));
    assert_eq!(run("min(1, 2.5)"), Err(EvalError::WrongOperandKind));
    assert_eq!(run("Re(1)"), Err(EvalError::WrongOperandKind));
    assert_eq!(run("cis(1)"), Err(EvalError::WrongOperandKind));
    assert_eq!(run("abs(sin)"), Err(EvalError::WrongOperandKind));
    assert_eq!(run("abs(i)"), Err(EvalError::WrongOperandKind));
}

#[test]
fn print_asks_the_host_and_gives_zero() {
    let mut interpreter = Interpreter::new();
    let mut output = Vec::new();
    assert_eq!(
        run_with_output(&mut interpreter, "print(6 * 7)", &mut output),
        Ok(Value::Int(0))
    );
    assert_eq!(output, vec!["Int(42)".to_string()]);
}

#[test]
fn built_in_constants() {
    assert_eq!(run("π"), Ok(float(std::f64::consts::PI)));
    assert_eq!(run("τ"), Ok(float(std::f64::consts::TAU)));
    assert_eq!(run("e"), Ok(float(std::f64::consts::E)));
    assert_eq!(run("∞"), Ok(float(f64::INFINITY)));
    assert_eq!(run("i"), Ok(complex(0.0, 1.0)));
    assert_eq!(run("sin"), Ok(Value::NativeFunction(Native::Sin)));
    let mut interpreter = Interpreter::new();
    let golden = (1.0 + 5.0f64.sqrt()) / 2.0;
    assert_eq!(interpreter.scope().get("𝜑"), Some(float(golden)));
    assert_eq!(interpreter.scope().get("𝜙"), Some(float(golden)));
    interpreter.add_var("k", Value::Int(1));
    assert_eq!(interpreter.scope().get("k"), Some(Value::Int(1)));
    assert_eq!(interpreter.scope().get("missing"), None);
}

#[test]
fn run_stops_when_the_budget_is_spent() {
    let mut interpreter = Interpreter::new();
    interpreter.load(parse(tokenize("while 1 { 1 }").unwrap()).unwrap());
    interpreter.run(10000);
    assert!(interpreter.is_active());
    interpreter.run(0);
    assert!(interpreter.is_active());
}

#[test]
fn step_begins_and_ends_an_evaluation() {
    let mut interpreter = Interpreter::new();
    interpreter.load(parse(tokenize("7").unwrap()).unwrap());
    assert!(interpreter.is_active());
    interpreter.run(100);
    assert_eq!(interpreter.control(), &Control::Done(Value::Int(7)));
    interpreter.step();
    assert_eq!(interpreter.control(), &Control::Done(Value::Int(7)));
    interpreter.answer(Value::Int(1));
    assert_eq!(interpreter.control(), &Control::Done(Value::Int(7)));
}

#[test]
fn a_literal_asks_the_host_for_its_value() {
    let mut interpreter = Interpreter::new();
    interpreter.load(parse(tokenize("2.5").unwrap()).unwrap());
    interpreter.run(100);
    assert_eq!(interpreter.control(), &Control::Ask(Request::Literal("2.5".to_string())));
    interpreter.answer(float(2.5));
    interpreter.run(100);
    assert_eq!(interpreter.control(), &Control::Done(float(2.5)));
}

#[test]
fn real_sum_asks_for_one_formula() {
    let mut interpreter = Interpreter::new();
    interpreter.add_var("a", float(1.5));
    interpreter.load(parse(tokenize("a + 2").unwrap()).unwrap());
    interpreter.run(100);
    assert_eq!(
        interpreter.control(),
        &Control::Ask(Request::Real(Real::Combine(
            RealOp::Add,
            Box::new(Real::Bits(1.5f64.to_bits())),
            Box::new(Real::Int(2)),
        )))
    );
}

#[test]
fn evaluation_errors_have_records() {
    let e = EvalError::UndefinedName("y".to_string()).report();
    assert_eq!(e.msg, "undefined name");
    assert_eq!(e.reason, "'y' is not defined");
    assert_eq!(e.range, 0..0);
    let e = EvalError::NotAFunction("x".to_string()).report();
    assert_eq!(e.msg, "not a function");
    assert_eq!(e.reason, "'x' is not a function");
    assert_eq!(EvalError::WrongArity.report().msg, "wrong number of arguments");
    assert_eq!(EvalError::WrongOperandKind.report().msg, "wrong operand kind");
    assert_eq!(EvalError::DivideByZero.report().msg, "division by zero");
    assert_eq!(EvalError::Overflow.report().msg, "integer overflow");
}

#[test]
fn math_and_io_fill_a_scope() {
    let mut interpreter = Interpreter::with_scope(spectre::Scope::new());
    assert_eq!(interpreter.scope().get("gcd"), None);
    interpreter.math();
    assert_eq!(interpreter.scope().get("gcd"), Some(Value::NativeFunction(Native::Gcd)));
    assert_eq!(interpreter.scope().get("print"), None);
    interpreter.io();
    assert_eq!(interpreter.scope().get("print"), Some(Value::NativeFunction(Native::Print)));
}

#[test]
fn scope_binds_and_rebinds() {
    let mut scope = spectre::Scope::new();
    assert_eq!(scope.get("x"), None);
    scope.set("x".to_string(), Value::Int(1));
    scope.set("y".to_string(), Value::Int(2));
    scope.set("x".to_string(), Value::Int(3));
    assert_eq!(scope.get("x"), Some(Value::Int(3)));
    assert_eq!(scope.get("y"), Some(Value::Int(2)));
}

#[test]
fn rewritten_function_shows_its_body() {
    let mut interpreter = Interpreter::new();
    run_in(&mut interpreter, "f(x) = x + 1").unwrap();
    match run_in(&mut interpreter, "2 * f") {
        Ok(Value::Function(name, params, body)) => {
            assert_eq!(name, "f");
            assert_eq!(params, vec!["x".to_string()]);
            assert_eq!(body.to_string(), "(2 * (x + 1))");
        }
        other => panic!("{:?}", other),
    }
    match run_in(&mut interpreter, "f / 1.5") {
        Ok(Value::Function(_, _, body)) => {
            assert_eq!(body.to_string(), format!("((x + 1) / #{})", 1.5f64.to_bits()));
        }
        other => panic!("{:?}", other),
    }
}
