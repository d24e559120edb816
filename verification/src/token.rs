//! The tokens of a calculator expression and how they are read from text.
//!
//! A number's value is held as the IEEE-754 bit pattern of an `f64`
//! (`f64::to_bits`). Reading a number from text is the standard library's
//! `str::parse::<f64>`, which stays with the caller: the functions here take
//! its outcome, already turned into bits, as an argument (`None` when the
//! text is not a number) and decide everything else.

use vstd::prelude::*;

use crate::text::{
    all_name_chars, contains_char, is_alphanumeric_char, is_name, is_name_char, joined, same_chars,
};

verus! {

/// How a number is meant to be displayed.
#[derive(Debug, Clone, Copy, PartialEq, Eq, Structural)]
pub enum NumberFormat {
    Decimal,
    Scientific,
    Engineering,
}

/// A binary or postfix operator.
#[derive(Debug, Clone, Copy, PartialEq, Eq, Structural)]
pub enum Operator {
    Add,
    Subtract,
    Multiply,
    Divide,
    Power,
    Root,
    Factorial,
}

/// A named function of one argument.
#[derive(Debug, Clone, Copy, PartialEq, Eq, Structural)]
pub enum Function {
    Sqrt,
    Sin,
    Cos,
    Tan,
}

/// A number together with its display format. `bits` is the bit pattern of
/// the `f64` value. Two numbers are equal when their values are equal as
/// `f64`s (so `0.0` equals `-0.0`, and NaN equals nothing) and their formats
/// are the same.
#[derive(Debug, Clone, Copy)]
pub struct Number {
    pub bits: u64,
    pub format: NumberFormat,
}

/// The bits of an IEEE-754 NaN: all exponent bits set, fraction not zero.
pub open spec fn is_nan_bits(bits: u64) -> bool {
    bits & 0x7ff0_0000_0000_0000 == 0x7ff0_0000_0000_0000 && bits & 0x000f_ffff_ffff_ffff != 0
}

/// The bits of `0.0` or `-0.0`.
pub open spec fn is_zero_bits(bits: u64) -> bool {
    bits & 0x7fff_ffff_ffff_ffff == 0
}

/// Whether the `f64` values with bits `a` and `b` are equal under `==`:
/// neither is NaN, and they are the same value, the two zeros counting as
/// one.
pub open spec fn same_value(a: u64, b: u64) -> bool {
    !is_nan_bits(a) && !is_nan_bits(b) && (a == b || (is_zero_bits(a) && is_zero_bits(b)))
}

/// Whether two numbers are equal: same `f64` value and same format.
pub open spec fn numbers_equal(a: Number, b: Number) -> bool {
    same_value(a.bits, b.bits) && a.format == b.format
}

fn values_equal(a: u64, b: u64) -> (r: bool)
    ensures
        r == same_value(a, b),
{
    let a_nan = a & 0x7ff0_0000_0000_0000 == 0x7ff0_0000_0000_0000 && a & 0x000f_ffff_ffff_ffff
        != 0;
    let b_nan = b & 0x7ff0_0000_0000_0000 == 0x7ff0_0000_0000_0000 && b & 0x000f_ffff_ffff_ffff
        != 0;
    !a_nan && !b_nan && (a == b || (a & 0x7fff_ffff_ffff_ffff == 0 && b & 0x7fff_ffff_ffff_ffff
        == 0))
}

impl PartialEq for Number {
    fn eq(&self, other: &Number) -> (r: bool) {
        values_equal(self.bits, other.bits) && self.format == other.format
    }
}

impl vstd::std_specs::cmp::PartialEqSpecImpl for Number {
    open spec fn obeys_eq_spec() -> bool {
        true
    }

    open spec fn eq_spec(&self, other: &Number) -> bool {
        numbers_equal(*self, *other)
    }
}

/// One token of an expression.
#[derive(Debug, Clone, PartialEq)]
pub enum Token {
    Number(Number),
    Operator(Operator),
    Function(Function),
    Variable(String),
    OpenParen,
    CloseParen,
}

/// The mathematical value of a [`Token`]: a variable's name is its
/// sequence of characters.
pub enum SpecToken {
    Number(Number),
    Operator(Operator),
    Function(Function),
    Variable(Seq<char>),
    OpenParen,
    CloseParen,
}

impl View for Token {
    type V = SpecToken;

    open spec fn view(&self) -> SpecToken {
        match self {
            Token::Number(n) => SpecToken::Number(*n),
            Token::Operator(op) => SpecToken::Operator(*op),
            Token::Function(f) => SpecToken::Function(*f),
            Token::Variable(name) => SpecToken::Variable(name@),
            Token::OpenParen => SpecToken::OpenParen,
            Token::CloseParen => SpecToken::CloseParen,
        }
    }
}

/// The value of a token-or-message result.
pub open spec fn result_view(r: Result<Token, String>) -> Result<SpecToken, Seq<char>> {
    match r {
        Ok(t) => Ok(t@),
        Err(e) => Err(e@),
    }
}

/// A decimal number with the given bits.
pub open spec fn decimal(bits: u64) -> Number {
    Number { bits, format: NumberFormat::Decimal }
}

/// The operator that `s` spells, among the spellings that
/// [`Token::operator_from_str`] accepts.
pub open spec fn spec_operator_named(s: Seq<char>) -> Option<Operator> {
    if s == "+"@ {
        Some(Operator::Add)
    } else if s == "-"@ {
        Some(Operator::Subtract)
    } else if s == "*"@ {
        Some(Operator::Multiply)
    } else if s == "/"@ {
        Some(Operator::Divide)
    } else if s == "**"@ || s == "^"@ {
        Some(Operator::Power)
    } else if s == "///"@ {
        Some(Operator::Root)
    } else if s == "!"@ {
        Some(Operator::Factorial)
    } else {
        None
    }
}

/// The message of an unknown operator.
pub open spec fn invalid_operator(s: Seq<char>) -> Seq<char> {
    "Invalid operator: "@ + s
}

/// What [`Token::operator_from_str`] gives for the text `s`.
pub open spec fn spec_operator_from_str(s: Seq<char>) -> Result<SpecToken, Seq<char>> {
    match spec_operator_named(s) {
        Some(op) => Ok(SpecToken::Operator(op)),
        None => Err(invalid_operator(s)),
    }
}

/// What [`Token::from_str`] gives for the text `s`, where `number` is the
/// outcome of reading `s` as an `f64`.
pub open spec fn spec_from_str(s: Seq<char>, number: Option<u64>) -> Result<SpecToken, Seq<char>> {
    match number {
        Some(bits) => Ok(SpecToken::Number(decimal(bits))),
        None => {
            if s == "+"@ {
                Ok(SpecToken::Operator(Operator::Add))
            } else if s == "-"@ {
                Ok(SpecToken::Operator(Operator::Subtract))
            } else if s == "*"@ {
                Ok(SpecToken::Operator(Operator::Multiply))
            } else if s == "/"@ {
                Ok(SpecToken::Operator(Operator::Divide))
            } else if s == "sqrt"@ {
                Ok(SpecToken::Function(Function::Sqrt))
            } else if s == "sin"@ {
                Ok(SpecToken::Function(Function::Sin))
            } else if s == "cos"@ {
                Ok(SpecToken::Function(Function::Cos))
            } else if s == "tan"@ {
                Ok(SpecToken::Function(Function::Tan))
            } else if is_name(s) {
                Ok(SpecToken::Variable(s))
            } else {
                Err("Invalid token: "@ + s)
            }
        },
    }
}

/// The format that [`Token::number_from_str`] gives to the text `s`.
pub open spec fn spec_number_format(s: Seq<char>) -> NumberFormat {
    if s.contains('e') || s.contains('E') {
        NumberFormat::Scientific
    } else {
        NumberFormat::Decimal
    }
}

/// What [`Token::number_from_str`] gives for the text `s`, where `number`
/// is the outcome of reading `s` as an `f64`.
pub open spec fn spec_number_from_str(s: Seq<char>, number: Option<u64>) -> Result<SpecToken, Seq<char>> {
    match number {
        Some(bits) => Ok(SpecToken::Number(Number { bits, format: spec_number_format(s) })),
        None => {
            if s.contains('e') || s.contains('E') {
                Err("Invalid scientific number: "@ + s)
            } else if s.contains('.') {
                Err("Invalid decimal number: "@ + s)
            } else {
                Err("Invalid number: "@ + s)
            }
        },
    }
}

impl Number {
    /// A decimal number.
    pub fn new(bits: u64) -> (n: Number)
        ensures
            n == decimal(bits),
    {
        Number { bits, format: NumberFormat::Decimal }
    }

    /// A number with the given format.
    pub fn with_format(bits: u64, format: NumberFormat) -> (n: Number)
        ensures
            n.bits == bits,
            n.format == format,
    {
        Number { bits, format }
    }
}

impl Token {
    /// A decimal number token.
    pub fn number(bits: u64) -> (t: Token)
        ensures
            t@ == SpecToken::Number(decimal(bits)),
    {
        Token::Number(Number { bits, format: NumberFormat::Decimal })
    }

    /// An operator token.
    pub fn operator(op: Operator) -> (t: Token)
        ensures
            t@ == SpecToken::Operator(op),
    {
        Token::Operator(op)
    }

    /// A function token.
    pub fn function(func: Function) -> (t: Token)
        ensures
            t@ == SpecToken::Function(func),
    {
        Token::Function(func)
    }

    /// A variable token with the given name.
    pub fn variable(name: &str) -> (t: Token)
        ensures
            t@ == SpecToken::Variable(name@),
    {
        Token::Variable(name.to_owned())
    }

    /// Reads one whitespace-free piece of text: a number when `number` (the
    /// outcome of `s.parse::<f64>()`, as bits) is present, else one of the
    /// four basic operators, one of the four functions, or a variable name
    /// made of alphanumeric characters and `_`.
    pub fn from_str(s: &str, number: Option<u64>) -> (r: Result<Token, String>)
        ensures
            result_view(r) == spec_from_str(s@, number),
    {
        if let Some(bits) = number {
            return Ok(Token::number(bits));
        }
        if same_chars(s, "+") {
            Ok(Token::Operator(Operator::Add))
        } else if same_chars(s, "-") {
            Ok(Token::Operator(Operator::Subtract))
        } else if same_chars(s, "*") {
            Ok(Token::Operator(Operator::Multiply))
        } else if same_chars(s, "/") {
            Ok(Token::Operator(Operator::Divide))
        } else if same_chars(s, "sqrt") {
            Ok(Token::Function(Function::Sqrt))
        } else if same_chars(s, "sin") {
            Ok(Token::Function(Function::Sin))
        } else if same_chars(s, "cos") {
            Ok(Token::Function(Function::Cos))
        } else if same_chars(s, "tan") {
            Ok(Token::Function(Function::Tan))
        } else if all_name_chars(s) {
            Ok(Token::variable(s))
        } else {
            Err(joined("Invalid token: ", s))
        }
    }

    /// Reads an operator: `+`, `-`, `*`, `/`, `**` or `^`, `///`, `!`.
    pub fn operator_from_str(s: &str) -> (r: Result<Token, String>)
        ensures
            result_view(r) == spec_operator_from_str(s@),
    {
        match operator_named(s) {
            Some(op) => Ok(Token::Operator(op)),
            None => Err(joined("Invalid operator: ", s)),
        }
    }

    /// Reads a number, whose format follows its spelling: scientific when
    /// it holds `e` or `E`, decimal otherwise. `number` is the outcome of
    /// `s.parse::<f64>()`, as bits.
    pub fn number_from_str(s: &str, number: Option<u64>) -> (r: Result<Token, String>)
        ensures
            result_view(r) == spec_number_from_str(s@, number),
    {
        if contains_char(s, 'e') || contains_char(s, 'E') {
            Self::scientific_number(s, number)
        } else if contains_char(s, '.') {
            Self::decimal_number(s, number)
        } else {
            match number {
                Some(bits) => Ok(Token::Number(Number { bits, format: NumberFormat::Decimal })),
                None => Err(joined("Invalid number: ", s)),
            }
        }
    }

    fn scientific_number(s: &str, number: Option<u64>) -> (r: Result<Token, String>)
        ensures
            result_view(r) == match number {
                Some(bits) => Ok(SpecToken::Number(Number { bits, format: NumberFormat::Scientific })),
                None => Err("Invalid scientific number: "@ + s@),
            },
    {
        match number {
            Some(bits) => Ok(Token::Number(Number { bits, format: NumberFormat::Scientific })),
            None => Err(joined("Invalid scientific number: ", s)),
        }
    }

    fn decimal_number(s: &str, number: Option<u64>) -> (r: Result<Token, String>)
        ensures
            result_view(r) == match number {
                Some(bits) => Ok(SpecToken::Number(decimal(bits))),
                None => Err("Invalid decimal number: "@ + s@),
            },
    {
        match number {
            Some(bits) => Ok(Token::Number(Number { bits, format: NumberFormat::Decimal })),
            None => Err(joined("Invalid decimal number: ", s)),
        }
    }
}

/// The operator that `s` spells, if any (the spellings of
/// [`Token::operator_from_str`]).
pub(crate) fn operator_named(s: &str) -> (r: Option<Operator>)
    ensures
        r == spec_operator_named(s@),
{
    if same_chars(s, "+") {
        Some(Operator::Add)
    } else if same_chars(s, "-") {
        Some(Operator::Subtract)
    } else if same_chars(s, "*") {
        Some(Operator::Multiply)
    } else if same_chars(s, "/") {
        Some(Operator::Divide)
    } else if same_chars(s, "**") || same_chars(s, "^") {
        Some(Operator::Power)
    } else if same_chars(s, "///") {
        Some(Operator::Root)
    } else if same_chars(s, "!") {
        Some(Operator::Factorial)
    } else {
        None
    }
}

/// The lengths of the spellings that tokens are read from, and enough of
/// their characters to tell them apart.
pub proof fn lemma_spellings()
    ensures
        "+"@.len() == 1 && "+"@[0] == '+',
        "-"@.len() == 1 && "-"@[0] == '-',
        "*"@.len() == 1 && "*"@[0] == '*',
        "/"@.len() == 1 && "/"@[0] == '/',
        "**"@.len() == 2 && "**"@[0] == '*' && "**"@[1] == '*',
        "^"@.len() == 1 && "^"@[0] == '^',
        "///"@.len() == 3 && "///"@[0] == '/',
        "!"@.len() == 1 && "!"@[0] == '!',
        "sin"@.len() == 3 && "sin"@[0] == 's' && "sin"@[1] == 'i',
        "cos"@.len() == 3 && "cos"@[0] == 'c',
        "tan"@.len() == 3 && "tan"@[0] == 't',
        "sqrt"@.len() == 4 && "sqrt"@[0] == 's' && "sqrt"@[1] == 'q',
{
    reveal_strlit("+");
    reveal_strlit("-");
    reveal_strlit("*");
    reveal_strlit("/");
    reveal_strlit("**");
    reveal_strlit("^");
    reveal_strlit("///");
    reveal_strlit("!");
    reveal_strlit("sin");
    reveal_strlit("cos");
    reveal_strlit("tan");
    reveal_strlit("sqrt");
}

/// Law: on the four basic operators, `+`, `-`, `*` and `/`, reading a
/// piece of text that is not a number gives the same token as reading it
/// as an operator.
pub proof fn law_basic_operators_read_alike(s: Seq<char>)
    requires
        s == "+"@ || s == "-"@ || s == "*"@ || s == "/"@,
    ensures
        spec_from_str(s, None) == spec_operator_from_str(s),
{
    lemma_spellings();
}

/// Law: reading a number succeeds exactly when the text reads as an `f64`;
/// the number then holds exactly those bits (sign included) and is
/// scientific when the text holds `e` or `E`, decimal otherwise. A failure
/// names the text, with a message that says which kind of number it looked
/// like.
pub proof fn law_number_reading(s: Seq<char>, number: Option<u64>)
    ensures
        spec_number_from_str(s, number) is Ok <==> number is Some,
        forall|t: SpecToken|
            spec_number_from_str(s, number) == Ok::<SpecToken, Seq<char>>(t) ==> (t matches SpecToken::Number(n)
                && number == Some(n.bits) && (n.format == NumberFormat::Scientific <==> (s.contains(
                'e') || s.contains('E'))) && (n.format == NumberFormat::Decimal <==> !(s.contains(
                'e') || s.contains('E')))),
        number is None && (s.contains('e') || s.contains('E')) ==> spec_number_from_str(s, number)
            == Err::<SpecToken, Seq<char>>("Invalid scientific number: "@ + s),
        number is None && !(s.contains('e') || s.contains('E')) && s.contains('.')
            ==> spec_number_from_str(s, number) == Err::<SpecToken, Seq<char>>(
            "Invalid decimal number: "@ + s,
        ),
        number is None && !(s.contains('e') || s.contains('E')) && !s.contains('.')
            ==> spec_number_from_str(s, number) == Err::<SpecToken, Seq<char>>("Invalid number: "@ + s),
{
}

/// Law: reading a whole piece of text as an operator succeeds exactly on
/// the eight spellings `+ - * / ** ^ /// !`, each giving its own operator;
/// any other text (a signed number, a longer word) is refused with a message
/// that names it.
pub proof fn law_operator_reading(s: Seq<char>)
    ensures
        s == "+"@ ==> spec_operator_from_str(s) == Ok::<SpecToken, Seq<char>>(
            SpecToken::Operator(Operator::Add),
        ),
        s == "-"@ ==> spec_operator_from_str(s) == Ok::<SpecToken, Seq<char>>(
            SpecToken::Operator(Operator::Subtract),
        ),
        s == "*"@ ==> spec_operator_from_str(s) == Ok::<SpecToken, Seq<char>>(
            SpecToken::Operator(Operator::Multiply),
        ),
        s == "/"@ ==> spec_operator_from_str(s) == Ok::<SpecToken, Seq<char>>(
            SpecToken::Operator(Operator::Divide),
        ),
        s == "**"@ || s == "^"@ ==> spec_operator_from_str(s) == Ok::<SpecToken, Seq<char>>(
            SpecToken::Operator(Operator::Power),
        ),
        s == "///"@ ==> spec_operator_from_str(s) == Ok::<SpecToken, Seq<char>>(
            SpecToken::Operator(Operator::Root),
        ),
        s == "!"@ ==> spec_operator_from_str(s) == Ok::<SpecToken, Seq<char>>(
            SpecToken::Operator(Operator::Factorial),
        ),
        !(s == "+"@ || s == "-"@ || s == "*"@ || s == "/"@ || s == "**"@ || s == "^"@ || s
            == "///"@ || s == "!"@) ==> spec_operator_from_str(s) == Err::<SpecToken, Seq<char>>(
            "Invalid operator: "@ + s,
        ),
{
    lemma_spellings();
}

/// Law: reading a word gives the number when the word reads as an `f64`.
/// Otherwise the eight exact words `+ - * / sqrt sin cos tan` give their
/// operator or function; any other word made only of alphanumeric
/// characters and `_` (however it begins, `cost` say) is a variable of that
/// very name, and the rest are refused with a message that names the word.
pub proof fn law_word_reading(s: Seq<char>, number: Option<u64>)
    ensures
        number matches Some(bits) ==> spec_from_str(s, number) == Ok::<SpecToken, Seq<char>>(
            SpecToken::Number(Number { bits, format: NumberFormat::Decimal }),
        ),
        s == "+"@ ==> spec_from_str(s, None) == Ok::<SpecToken, Seq<char>>(
            SpecToken::Operator(Operator::Add),
        ),
        s == "-"@ ==> spec_from_str(s, None) == Ok::<SpecToken, Seq<char>>(
            SpecToken::Operator(Operator::Subtract),
        ),
        s == "*"@ ==> spec_from_str(s, None) == Ok::<SpecToken, Seq<char>>(
            SpecToken::Operator(Operator::Multiply),
        ),
        s == "/"@ ==> spec_from_str(s, None) == Ok::<SpecToken, Seq<char>>(
            SpecToken::Operator(Operator::Divide),
        ),
        s == "sqrt"@ ==> spec_from_str(s, None) == Ok::<SpecToken, Seq<char>>(
            SpecToken::Function(Function::Sqrt),
        ),
        s == "sin"@ ==> spec_from_str(s, None) == Ok::<SpecToken, Seq<char>>(
            SpecToken::Function(Function::Sin),
        ),
        s == "cos"@ ==> spec_from_str(s, None) == Ok::<SpecToken, Seq<char>>(
            SpecToken::Function(Function::Cos),
        ),
        s == "tan"@ ==> spec_from_str(s, None) == Ok::<SpecToken, Seq<char>>(
            SpecToken::Function(Function::Tan),
        ),
        !(s == "+"@ || s == "-"@ || s == "*"@ || s == "/"@ || s == "sqrt"@ || s == "sin"@ || s
            == "cos"@ || s == "tan"@) && (forall|i: int|
            0 <= i < s.len() ==> is_alphanumeric_char(#[trigger] s[i]) || s[i] == '_')
            ==> spec_from_str(s, None) == Ok::<SpecToken, Seq<char>>(SpecToken::Variable(s)),
        !(s == "+"@ || s == "-"@ || s == "*"@ || s == "/"@ || s == "sqrt"@ || s == "sin"@ || s
            == "cos"@ || s == "tan"@) && (exists|i: int|
            0 <= i < s.len() && !is_alphanumeric_char(#[trigger] s[i]) && s[i] != '_')
            ==> spec_from_str(s, None) == Err::<SpecToken, Seq<char>>("Invalid token: "@ + s),
        forall|f: Function|
            spec_from_str(s, None) == Ok::<SpecToken, Seq<char>>(SpecToken::Function(f)) ==> (s
                == "sqrt"@ || s == "sin"@ || s == "cos"@ || s == "tan"@),
{
    lemma_spellings();
    if !(s == "+"@ || s == "-"@ || s == "*"@ || s == "/"@ || s == "sqrt"@ || s == "sin"@ || s
        == "cos"@ || s == "tan"@) {
        if exists|i: int| 0 <= i < s.len() && !is_alphanumeric_char(#[trigger] s[i]) && s[i] != '_' {
            let i = choose|i: int| 0 <= i < s.len() && !is_alphanumeric_char(#[trigger] s[i]) && s[i] != '_';
            assert(!is_name_char(s[i]));
        }
    }
}

/// Law: numbers compare as their `f64` values do: the relation is
/// symmetric, a NaN equals no number (itself included), and `0.0` equals
/// `-0.0`.
pub proof fn law_number_equality(a: Number, b: Number)
    ensures
        numbers_equal(a, b) == numbers_equal(b, a),
        is_nan_bits(a.bits) ==> !numbers_equal(a, b),
        !is_nan_bits(a.bits) ==> numbers_equal(a, a),
        a.format == b.format && is_zero_bits(a.bits) && is_zero_bits(b.bits) ==> numbers_equal(a, b),
        numbers_equal(a, b) ==> a.format == b.format,
        numbers_equal(a, b) ==> a.bits == b.bits || (a.bits == 0 && b.bits
            == 0x8000_0000_0000_0000) || (a.bits == 0x8000_0000_0000_0000 && b.bits == 0),
        a.format == b.format && a.bits == b.bits && a.bits & 0x7ff0_0000_0000_0000
            != 0x7ff0_0000_0000_0000 ==> numbers_equal(a, b),
        a.format == b.format && a.bits == b.bits && a.bits & 0x000f_ffff_ffff_ffff == 0
            ==> numbers_equal(a, b),
        a.bits & 0x7ff0_0000_0000_0000 == 0x7ff0_0000_0000_0000 && a.bits & 0x000f_ffff_ffff_ffff
            != 0 ==> !numbers_equal(a, b),
{
    assert(forall|x: u64| #![trigger is_zero_bits(x)] is_zero_bits(x) ==> (x == 0 || x
        == 0x8000_0000_0000_0000)) by {
        assert forall|x: u64| x & 0x7fff_ffff_ffff_ffff == 0 implies (x == 0 || x
            == 0x8000_0000_0000_0000) by {
            assert(x & 0x7fff_ffff_ffff_ffff == 0 ==> (x == 0 || x == 0x8000_0000_0000_0000))
                by (bit_vector);
        }
    }
    assert(forall|x: u64| #![trigger is_zero_bits(x)] is_zero_bits(x) ==> !is_nan_bits(x)) by {
        assert forall|x: u64| x & 0x7fff_ffff_ffff_ffff == 0 implies !(x & 0x7ff0_0000_0000_0000
            == 0x7ff0_0000_0000_0000) by {
            assert(x & 0x7fff_ffff_ffff_ffff == 0 ==> x & 0x7ff0_0000_0000_0000 == 0)
                by (bit_vector);
        }
    }
}

} // verus!
