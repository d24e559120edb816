use calculator::parser::TokenParser;
use calculator::token::{Function, Number, NumberFormat, Operator, Token};

/// The outcome of reading `s` as an `f64`, as the library takes it.
fn float_bits(s: &str) -> Option<u64> {
    s.parse::<f64>().ok().map(f64::to_bits)
}

fn bits(x: f64) -> u64 {
    x.to_bits()
}

/// Reads the next token, reading the pending word as a number.
fn next(parser: &mut TokenParser) -> Option<Result<Token, String>> {
    let word = parser.pending_word();
    parser.next_token(float_bits(&word))
}

#[test]
fn numbers_from_str() {
    let num1 = Token::number_from_str("3.14", float_bits("3.14")).unwrap();
    let num2 = Token::number_from_str("2e10", float_bits("2e10")).unwrap();
    let num3 = Token::number_from_str("1.5e-5", float_bits("1.5e-5")).unwrap();

    assert_eq!(
        num1,
        Token::Number(Number {
            bits: bits(3.14),
            format: NumberFormat::Decimal
        })
    );
    assert_eq!(
        num2,
        Token::Number(Number {
            bits: bits(2e10),
            format: NumberFormat::Scientific
        })
    );
    assert_eq!(
        num3,
        Token::Number(Number {
            bits: bits(1.5e-5),
            format: NumberFormat::Scientific
        })
    );
}

#[test]
fn tokenizing_from_str() {
    let tokens: Result<Vec<_>, _> = "2 + 3"
        .split_whitespace()
        .map(|w| Token::from_str(w, float_bits(w)))
        .collect();

    assert_eq!(
        tokens,
        Ok(vec![
            Token::number(bits(2.0)),
            Token::operator(Operator::Add),
            Token::number(bits(3.0))
        ])
    );
}

#[test]
fn parsing_tokens() {
    let mut parser = TokenParser::new("2 + 3");
    let token1 = next(&mut parser).unwrap().unwrap();
    let token2 = next(&mut parser).unwrap().unwrap();
    let token3 = next(&mut parser).unwrap().unwrap();

    assert_eq!(token1, Token::number(bits(2.0)));
    assert_eq!(token2, Token::operator(Operator::Add));
    assert_eq!(token3, Token::number(bits(3.0)));
}

#[test]
fn simple_expression() {
    let expr = vec![
        Token::number(bits(2.0)),
        Token::operator(Operator::Add),
        Token::number(bits(3.0)),
    ];

    println!("expr = {expr:?}");
}

#[test]
fn from_str_reads_functions_and_variables() {
    assert_eq!(Token::from_str("sqrt", None), Ok(Token::function(Function::Sqrt)));
    assert_eq!(Token::from_str("sin", None), Ok(Token::Function(Function::Sin)));
    assert_eq!(Token::from_str("cos", None), Ok(Token::Function(Function::Cos)));
    assert_eq!(Token::from_str("tan", None), Ok(Token::Function(Function::Tan)));
    assert_eq!(Token::from_str("x", None), Ok(Token::variable("x")));
    assert_eq!(Token::from_str("x_1", None), Ok(Token::Variable("x_1".to_string())));
    assert_eq!(Token::from_str("été", None), Ok(Token::Variable("été".to_string())));
    assert_eq!(Token::from_str("", None), Ok(Token::Variable(String::new())));
}

#[test]
fn from_str_prefers_numbers() {
    assert_eq!(Token::from_str("42", float_bits("42")), Ok(Token::number(bits(42.0))));
    // "inf" reads as a number before it could be a variable.
    assert_eq!(
        Token::from_str("inf", float_bits("inf")),
        Ok(Token::number(bits(f64::INFINITY)))
    );
}

#[test]
fn from_str_rejects_other_text() {
    assert_eq!(Token::from_str("a-b", None), Err("Invalid token: a-b".to_string()));
    assert_eq!(Token::from_str("^", None), Err("Invalid token: ^".to_string()));
    assert_eq!(Token::from_str("x y", None), Err("Invalid token: x y".to_string()));
}

#[test]
fn basic_operators_read_alike() {
    for s in ["+", "-", "*", "/"] {
        assert_eq!(Token::from_str(s, None), Token::operator_from_str(s));
    }
}

#[test]
fn operator_from_str_reads_every_spelling() {
    let cases = [
        ("+", Operator::Add),
        ("-", Operator::Subtract),
        ("*", Operator::Multiply),
        ("/", Operator::Divide),
        ("**", Operator::Power),
        ("^", Operator::Power),
        ("///", Operator::Root),
        ("!", Operator::Factorial),
    ];
    for (s, op) in cases {
        assert_eq!(Token::operator_from_str(s), Ok(Token::Operator(op)));
    }
    assert_eq!(
        Token::operator_from_str("%"),
        Err("Invalid operator: %".to_string())
    );
    assert_eq!(
        Token::operator_from_str("//"),
        Err("Invalid operator: //".to_string())
    );
}

#[test]
fn number_from_str_errors() {
    assert_eq!(
        Token::number_from_str("1e", float_bits("1e")),
        Err("Invalid scientific number: 1e".to_string())
    );
    assert_eq!(
        Token::number_from_str("1.2.3", float_bits("1.2.3")),
        Err("Invalid decimal number: 1.2.3".to_string())
    );
    assert_eq!(
        Token::number_from_str("abc", float_bits("abc")),
        Err("Invalid number: abc".to_string())
    );
    assert_eq!(
        Token::number_from_str("7", float_bits("7")),
        Ok(Token::number(bits(7.0)))
    );
    assert_eq!(
        Token::number_from_str("1E3", float_bits("1E3")),
        Ok(Token::Number(Number::with_format(bits(1000.0), NumberFormat::Scientific)))
    );
}

#[test]
fn number_constructors() {
    assert_eq!(Number::new(bits(1.5)), Number { bits: bits(1.5), format: NumberFormat::Decimal });
    assert_eq!(
        Number::with_format(bits(1.5), NumberFormat::Engineering).format,
        NumberFormat::Engineering
    );
    assert_eq!(Token::number(bits(1.5)), Token::Number(Number::new(bits(1.5))));
}

#[test]
fn numbers_compare_as_f64_values() {
    assert_eq!(Token::number(bits(0.0)), Token::number(bits(-0.0)));
    assert_ne!(Token::number(bits(f64::NAN)), Token::number(bits(f64::NAN)));
    assert_ne!(Number::new(bits(f64::NAN)), Number::new(bits(f64::NAN)));
    assert_eq!(Number::new(bits(2.5)), Number::new(bits(2.5)));
    assert_ne!(Number::new(bits(2.5)), Number::new(bits(3.5)));
    assert_ne!(
        Number::new(bits(2.5)),
        Number::with_format(bits(2.5), NumberFormat::Scientific)
    );
    assert_eq!(Token::number(bits(f64::INFINITY)), Token::number(bits(f64::INFINITY)));
    assert_ne!(Token::number(bits(f64::INFINITY)), Token::number(bits(f64::NEG_INFINITY)));
}
