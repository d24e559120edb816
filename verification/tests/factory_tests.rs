use calculator::factory::{
    OperatorToken, ScientificFactory, ScientificNumber, ScientificOperator, StandardFactory,
    StandardNumber, StandardOperator, TokenFactory,
};
use calculator::token::{Function, Number, NumberFormat, Operator, Token};

fn float_bits(s: &str) -> Option<u64> {
    s.parse::<f64>().ok().map(f64::to_bits)
}

const OPERATORS: [Operator; 7] = [
    Operator::Add,
    Operator::Subtract,
    Operator::Multiply,
    Operator::Divide,
    Operator::Power,
    Operator::Root,
    Operator::Factorial,
];

const FUNCTIONS: [Function; 4] = [Function::Sqrt, Function::Sin, Function::Cos, Function::Tan];

#[test]
fn standard_precedence_and_symbols() {
    let expected = [
        (1, "+"),
        (1, "-"),
        (2, "*"),
        (2, "/"),
        (3, "^"),
        (4, "///"),
        (4, "!"),
    ];
    for (op, (p, s)) in OPERATORS.iter().zip(expected) {
        let tok = StandardOperator(op.clone());
        assert_eq!(tok.precedence(), p);
        assert_eq!(tok.symbol(), s);
    }
}

#[test]
fn scientific_precedence_and_symbols() {
    for op in OPERATORS {
        let sci = ScientificOperator::Basic(op);
        let std = StandardOperator(op);
        assert_eq!(sci.precedence(), std.precedence());
        assert_eq!(sci.symbol(), std.symbol());
    }
    let names = ["sqrt", "sin", "cos", "tan"];
    for (f, name) in FUNCTIONS.iter().zip(names) {
        let sci = ScientificOperator::Function(f.clone());
        assert_eq!(sci.precedence(), 4);
        assert_eq!(sci.symbol(), name);
    }
}

#[test]
fn standard_symbol_round_trip() {
    let factory = StandardFactory;
    for op in OPERATORS {
        let sym = StandardOperator(op).symbol();
        assert_eq!(factory.create_operator(sym), Ok(StandardOperator(op)));
    }
    assert_eq!(factory.create_operator("**"), Ok(StandardOperator(Operator::Power)));
}

#[test]
fn scientific_symbol_round_trip() {
    let factory = ScientificFactory;
    for op in OPERATORS {
        let sci = ScientificOperator::Basic(op);
        let back = factory.create_operator(sci.symbol());
        if op == Operator::Root || op == Operator::Factorial {
            assert_eq!(back, Err(format!("Invalid operator: {}", sci.symbol())));
        } else {
            assert_eq!(back, Ok(sci));
        }
    }
    for f in FUNCTIONS {
        let sci = ScientificOperator::Function(f);
        assert_eq!(factory.create_operator(sci.symbol()), Ok(sci));
    }
    assert_eq!(factory.create_operator("**"), Err("Invalid operator: **".to_string()));
}

#[test]
fn standard_factory_reads_like_token() {
    let factory = StandardFactory;
    for s in ["+", "-", "*", "/", "**", "^", "///", "!", "%", "sin", ""] {
        let a = factory.create_operator(s).map(|o| Token::Operator(o.0));
        assert_eq!(a, Token::operator_from_str(s));
    }
}

#[test]
fn standard_numbers() {
    let factory = StandardFactory;
    assert_eq!(
        factory.create_number("123", float_bits("123")),
        Ok(StandardNumber(123.0f64.to_bits()))
    );
    assert_eq!(
        factory.create_number("12a", float_bits("12a")),
        Err("Invalid number: 12a".to_string())
    );
}

#[test]
fn scientific_numbers() {
    let factory = ScientificFactory;
    assert_eq!(
        factory.create_number("1.23e-4", float_bits("1.23e-4")),
        Ok(ScientificNumber(Number::with_format(
            1.23e-4f64.to_bits(),
            NumberFormat::Scientific
        )))
    );
    assert_eq!(
        factory.create_number("2.5", float_bits("2.5")),
        Ok(ScientificNumber(Number::new(2.5f64.to_bits())))
    );
    assert_eq!(
        factory.create_number("e", float_bits("e")),
        Err("Invalid number: e".to_string())
    );
}

#[test]
fn scientific_numbers_match_token_numbers() {
    let factory = ScientificFactory;
    for s in ["1e5", "2E-3", "3.5", "42", "1.2.3", "x", "1e"] {
        let a = factory.create_number(s, float_bits(s));
        let b = Token::number_from_str(s, float_bits(s));
        assert_eq!(a.is_ok(), b.is_ok());
        if let Ok(n) = a {
            assert_eq!(b, Ok(Token::Number(n.0)));
        }
    }
}

#[test]
fn precedence_order() {
    let p = |op| StandardOperator(op).precedence();
    assert!(p(Operator::Add) == p(Operator::Subtract));
    assert!(p(Operator::Subtract) < p(Operator::Multiply));
    assert!(p(Operator::Multiply) == p(Operator::Divide));
    assert!(p(Operator::Divide) < p(Operator::Power));
    assert!(p(Operator::Power) < p(Operator::Root));
    assert!(p(Operator::Root) == p(Operator::Factorial));
}
