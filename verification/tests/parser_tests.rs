use calculator::parser::TokenParser;
use calculator::token::{Operator, Token};

fn float_bits(s: &str) -> Option<u64> {
    s.parse::<f64>().ok().map(f64::to_bits)
}

fn read(parser: &mut TokenParser) -> Option<Result<Token, String>> {
    let word = parser.pending_word();
    parser.next_token(float_bits(&word))
}

fn read_all(input: &str) -> Vec<Result<Token, String>> {
    let mut parser = TokenParser::new(input);
    let mut out = Vec::new();
    while let Some(t) = read(&mut parser) {
        let failed = t.is_err();
        out.push(t);
        if failed {
            break;
        }
    }
    out
}

#[test]
fn parser_reads_operators_one_char_at_a_time() {
    // `*` and `/` are tried before `**` and `///`.
    assert_eq!(
        read_all("**"),
        vec![
            Ok(Token::operator(Operator::Multiply)),
            Ok(Token::operator(Operator::Multiply))
        ]
    );
    assert_eq!(
        read_all("///"),
        vec![
            Ok(Token::operator(Operator::Divide)),
            Ok(Token::operator(Operator::Divide)),
            Ok(Token::operator(Operator::Divide))
        ]
    );
    assert_eq!(
        read_all("^!"),
        vec![
            Ok(Token::operator(Operator::Power)),
            Ok(Token::operator(Operator::Factorial))
        ]
    );
}

#[test]
fn parser_skips_all_kinds_of_ascii_whitespace() {
    assert_eq!(
        read_all(" \t1\n-\r\n2 "),
        vec![
            Ok(Token::number(1.0f64.to_bits())),
            Ok(Token::operator(Operator::Subtract)),
            Ok(Token::number(2.0f64.to_bits()))
        ]
    );
}

#[test]
fn parser_ends_with_none_and_stays_there() {
    let mut parser = TokenParser::new("  + ");
    assert_eq!(read(&mut parser), Some(Ok(Token::operator(Operator::Add))));
    assert_eq!(read(&mut parser), None);
    assert_eq!(read(&mut parser), None);
    assert_eq!(parser.next_token(Some(1)), None);
    let mut empty = TokenParser::new("");
    assert_eq!(read(&mut empty), None);
}

#[test]
fn parser_reports_words_that_are_not_numbers() {
    let mut parser = TokenParser::new("  x1 + 2");
    assert_eq!(parser.pending_word(), "x1");
    let err = Err("Incomplete token parsing logic".to_string());
    assert_eq!(read(&mut parser), Some(err.clone()));
    // The cursor stays in front of the word.
    assert_eq!(read(&mut parser), Some(err));
    assert_eq!(parser.pending_word(), "x1");
}

#[test]
fn parser_number_word_runs_to_whitespace() {
    let mut parser = TokenParser::new("1.5e-5 3");
    assert_eq!(parser.pending_word(), "1.5e-5");
    assert_eq!(read(&mut parser), Some(Ok(Token::number(1.5e-5f64.to_bits()))));
    assert_eq!(parser.pending_word(), "3");
    assert_eq!(read(&mut parser), Some(Ok(Token::number(3.0f64.to_bits()))));
    assert_eq!(parser.pending_word(), "");
    assert_eq!(read(&mut parser), None);
}

#[test]
fn match_operator_is_one_char() {
    let parser = TokenParser::new("");
    for s in ["+1", "-", "*", "**", "/", "///", "^", "!x"] {
        assert_eq!(parser.match_operator(s), Some(1));
    }
    assert_eq!(parser.match_operator(""), None);
    assert_eq!(parser.match_operator("1+"), None);
    assert_eq!(parser.match_operator(" +"), None);
}

#[test]
fn skip_whitespace_then_read() {
    let mut parser = TokenParser::new("   !");
    parser.skip_whitespace();
    assert_eq!(parser.pending_word(), "!");
    assert_eq!(parser.next_token(None), Some(Ok(Token::operator(Operator::Factorial))));
}

#[test]
fn checked_read_refuses_wide_whitespace() {
    // U+3000 is whitespace three bytes wide.
    let mut parser = TokenParser::new("\u{3000}+");
    assert_eq!(parser.checked_next_token(None), None);
    assert_eq!(parser.pending_word(), "+");
    let mut fine = TokenParser::new(" +");
    assert_eq!(
        fine.checked_next_token(None),
        Some(Some(Ok(Token::operator(Operator::Add))))
    );
    // A wide character that is not whitespace is no obstacle.
    let mut word = TokenParser::new("é");
    assert_eq!(
        word.checked_next_token(None),
        Some(Some(Err("Incomplete token parsing logic".to_string())))
    );
}

#[test]
fn parser_skips_every_ascii_whitespace_character() {
    // Tab, line feed, vertical tab, form feed, carriage return and space.
    assert_eq!(
        read_all("\t\n\u{b}\u{c}\r +"),
        vec![Ok(Token::operator(Operator::Add))]
    );
}

#[test]
fn checked_read_refuses_two_byte_whitespace() {
    // U+0085 and U+00A0 are whitespace two bytes wide.
    for input in ["\u{85}+", "\u{a0}+", " \u{2028}+"] {
        let mut parser = TokenParser::new(input);
        assert_eq!(parser.checked_next_token(None), None);
    }
}
