//! Two families of tokens built from text: the standard one (the seven
//! operators) and the scientific one (five operators and four functions,
//! numbers that remember whether they were written in scientific notation).

use vstd::prelude::*;

use crate::text::{contains_char, joined, same_chars};
use crate::token::{
    invalid_operator, lemma_spellings, operator_named, spec_number_format, spec_number_from_str,
    spec_operator_from_str, spec_operator_named, Function, Number, NumberFormat, Operator,
    SpecToken,
};

verus! {

/// How tightly an operator binds.
pub open spec fn operator_precedence(op: Operator) -> u8 {
    match op {
        Operator::Add | Operator::Subtract => 1,
        Operator::Multiply | Operator::Divide => 2,
        Operator::Power => 3,
        Operator::Root | Operator::Factorial => 4,
    }
}

/// How an operator is written.
pub open spec fn operator_symbol(op: Operator) -> Seq<char> {
    match op {
        Operator::Add => "+"@,
        Operator::Subtract => "-"@,
        Operator::Multiply => "*"@,
        Operator::Divide => "/"@,
        Operator::Power => "^"@,
        Operator::Factorial => "!"@,
        Operator::Root => "///"@,
    }
}

/// How a function is written.
pub open spec fn function_symbol(f: Function) -> Seq<char> {
    match f {
        Function::Sin => "sin"@,
        Function::Cos => "cos"@,
        Function::Tan => "tan"@,
        Function::Sqrt => "sqrt"@,
    }
}

/// The message of a piece of text that is not a number.
pub open spec fn invalid_number(s: Seq<char>) -> Seq<char> {
    "Invalid number: "@ + s
}

fn operator_precedence_of(op: Operator) -> (p: u8)
    ensures
        p == operator_precedence(op),
{
    match op {
        Operator::Add | Operator::Subtract => 1,
        Operator::Multiply | Operator::Divide => 2,
        Operator::Power => 3,
        Operator::Root | Operator::Factorial => 4,
    }
}

fn operator_symbol_of(op: Operator) -> (s: &'static str)
    ensures
        s@ == operator_symbol(op),
{
    match op {
        Operator::Add => "+",
        Operator::Subtract => "-",
        Operator::Multiply => "*",
        Operator::Divide => "/",
        Operator::Power => "^",
        Operator::Factorial => "!",
        Operator::Root => "///",
    }
}

/// An operator token: how tightly it binds and how it is written.
pub trait OperatorToken {
    spec fn spec_precedence(&self) -> u8;

    spec fn spec_symbol(&self) -> Seq<char>;

    fn precedence(&self) -> (p: u8)
        ensures
            p == self.spec_precedence(),
    ;

    fn symbol(&self) -> (s: &'static str)
        ensures
            s@ == self.spec_symbol(),
    ;
}

/// Builds the tokens of one family from text. `create_number` takes, as
/// `number`, the outcome of reading `s` as an `f64` (its bits).
pub trait TokenFactory {
    type Number;

    type Operator: OperatorToken;

    /// What `create_number` gives for the text `s`: a number, or a message.
    spec fn spec_create_number(&self, s: Seq<char>, number: Option<u64>) -> Result<
        Self::Number,
        Seq<char>,
    >;

    /// What `create_operator` gives for the text `s`: an operator, or a
    /// message.
    spec fn spec_create_operator(&self, s: Seq<char>) -> Result<Self::Operator, Seq<char>>;

    fn create_number(&self, s: &str, number: Option<u64>) -> (r: Result<Self::Number, String>)
        ensures
            match r {
                Ok(n) => self.spec_create_number(s@, number) == Ok::<Self::Number, Seq<char>>(n),
                Err(e) => self.spec_create_number(s@, number) == Err::<Self::Number, Seq<char>>(
                    e@,
                ),
            },
    ;

    fn create_operator(&self, s: &str) -> (r: Result<Self::Operator, String>)
        ensures
            match r {
                Ok(op) => self.spec_create_operator(s@) == Ok::<Self::Operator, Seq<char>>(op),
                Err(e) => self.spec_create_operator(s@) == Err::<Self::Operator, Seq<char>>(e@),
            },
    ;
}

/// A number of the standard family; the field is the bit pattern of its
/// `f64` value.
#[derive(Debug, Clone, Copy, PartialEq, Eq, Structural)]
pub struct StandardNumber(pub u64);

/// An operator of the standard family.
#[derive(Debug, Clone, Copy, PartialEq, Eq, Structural)]
pub struct StandardOperator(pub Operator);

impl OperatorToken for StandardOperator {
    open spec fn spec_precedence(&self) -> u8 {
        operator_precedence(self.0)
    }

    open spec fn spec_symbol(&self) -> Seq<char> {
        operator_symbol(self.0)
    }

    fn precedence(&self) -> (p: u8) {
        operator_precedence_of(self.0)
    }

    fn symbol(&self) -> (s: &'static str) {
        operator_symbol_of(self.0)
    }
}

/// What [`StandardFactory::create_operator`] gives for the text `s`.
pub open spec fn spec_standard_operator(s: Seq<char>) -> Result<Operator, Seq<char>> {
    match spec_operator_named(s) {
        Some(op) => Ok(op),
        None => Err(invalid_operator(s)),
    }
}

/// The factory of the standard family.
pub struct StandardFactory;

impl TokenFactory for StandardFactory {
    type Number = StandardNumber;

    type Operator = StandardOperator;

    /// A number when `number` (the reading of `s` as an `f64`) is present.
    open spec fn spec_create_number(&self, s: Seq<char>, number: Option<u64>) -> Result<
        StandardNumber,
        Seq<char>,
    > {
        match number {
            Some(bits) => Ok(StandardNumber(bits)),
            None => Err(invalid_number(s)),
        }
    }

    /// Reads `+`, `-`, `*`, `/`, `**` or `^`, `///`, `!`.
    open spec fn spec_create_operator(&self, s: Seq<char>) -> Result<StandardOperator, Seq<char>> {
        match spec_standard_operator(s) {
            Ok(op) => Ok(StandardOperator(op)),
            Err(e) => Err(e),
        }
    }

    fn create_number(&self, s: &str, number: Option<u64>) -> (r: Result<StandardNumber, String>) {
        match number {
            Some(bits) => Ok(StandardNumber(bits)),
            None => Err(joined("Invalid number: ", s)),
        }
    }

    fn create_operator(&self, s: &str) -> (r: Result<StandardOperator, String>) {
        match operator_named(s) {
            Some(op) => Ok(StandardOperator(op)),
            None => Err(joined("Invalid operator: ", s)),
        }
    }
}

/// A number of the scientific family.
#[derive(Debug, Clone, Copy, PartialEq)]
pub struct ScientificNumber(pub Number);

/// An operator of the scientific family: a basic operator or a function.
#[derive(Debug, Clone, Copy, PartialEq, Eq, Structural)]
pub enum ScientificOperator {
    Basic(Operator),
    Function(Function),
}

/// How tightly a scientific operator binds.
pub open spec fn scientific_precedence(op: ScientificOperator) -> u8 {
    match op {
        ScientificOperator::Basic(op) => operator_precedence(op),
        ScientificOperator::Function(_) => 4,
    }
}

/// How a scientific operator is written.
pub open spec fn scientific_symbol(op: ScientificOperator) -> Seq<char> {
    match op {
        ScientificOperator::Basic(op) => operator_symbol(op),
        ScientificOperator::Function(f) => function_symbol(f),
    }
}

impl OperatorToken for ScientificOperator {
    open spec fn spec_precedence(&self) -> u8 {
        scientific_precedence(*self)
    }

    open spec fn spec_symbol(&self) -> Seq<char> {
        scientific_symbol(*self)
    }

    fn precedence(&self) -> (p: u8) {
        match self {
            ScientificOperator::Basic(op) => operator_precedence_of(*op),
            ScientificOperator::Function(_) => 4,
        }
    }

    fn symbol(&self) -> (s: &'static str) {
        match self {
            ScientificOperator::Basic(op) => operator_symbol_of(*op),
            ScientificOperator::Function(func) => match func {
                Function::Sin => "sin",
                Function::Cos => "cos",
                Function::Tan => "tan",
                Function::Sqrt => "sqrt",
            },
        }
    }
}

/// The scientific operator that `s` spells, if any.
pub open spec fn spec_scientific_named(s: Seq<char>) -> Option<ScientificOperator> {
    if s == "+"@ {
        Some(ScientificOperator::Basic(Operator::Add))
    } else if s == "-"@ {
        Some(ScientificOperator::Basic(Operator::Subtract))
    } else if s == "*"@ {
        Some(ScientificOperator::Basic(Operator::Multiply))
    } else if s == "/"@ {
        Some(ScientificOperator::Basic(Operator::Divide))
    } else if s == "^"@ {
        Some(ScientificOperator::Basic(Operator::Power))
    } else if s == "sin"@ {
        Some(ScientificOperator::Function(Function::Sin))
    } else if s == "cos"@ {
        Some(ScientificOperator::Function(Function::Cos))
    } else if s == "tan"@ {
        Some(ScientificOperator::Function(Function::Tan))
    } else if s == "sqrt"@ {
        Some(ScientificOperator::Function(Function::Sqrt))
    } else {
        None
    }
}

/// What [`ScientificFactory::create_operator`] gives for the text `s`.
pub open spec fn spec_scientific_operator(s: Seq<char>) -> Result<ScientificOperator, Seq<char>> {
    match spec_scientific_named(s) {
        Some(op) => Ok(op),
        None => Err(invalid_operator(s)),
    }
}

/// What [`ScientificFactory::create_number`] gives for the text `s`, where
/// `number` is the reading of `s` as an `f64`.
pub open spec fn spec_scientific_number(s: Seq<char>, number: Option<u64>) -> Result<Number, Seq<char>> {
    match number {
        Some(bits) => Ok(Number { bits, format: spec_number_format(s) }),
        None => Err(invalid_number(s)),
    }
}

/// The factory of the scientific family.
#[derive(Debug, Clone, Copy)]
pub struct ScientificFactory;

impl TokenFactory for ScientificFactory {
    type Number = ScientificNumber;

    type Operator = ScientificOperator;

    /// A number when `number` (the reading of `s` as an `f64`) is present,
    /// in scientific format when `s` holds `e` or `E`, decimal otherwise.
    open spec fn spec_create_number(&self, s: Seq<char>, number: Option<u64>) -> Result<
        ScientificNumber,
        Seq<char>,
    > {
        match spec_scientific_number(s, number) {
            Ok(n) => Ok(ScientificNumber(n)),
            Err(e) => Err(e),
        }
    }

    /// Reads `+`, `-`, `*`, `/`, `^` and the functions `sin`, `cos`, `tan`,
    /// `sqrt`.
    open spec fn spec_create_operator(&self, s: Seq<char>) -> Result<ScientificOperator, Seq<char>> {
        spec_scientific_operator(s)
    }

    fn create_number(&self, s: &str, number: Option<u64>) -> (r: Result<ScientificNumber, String>) {
        match number {
            Some(bits) => {
                let format = if contains_char(s, 'e') || contains_char(s, 'E') {
                    NumberFormat::Scientific
                } else {
                    NumberFormat::Decimal
                };
                Ok(ScientificNumber(Number::with_format(bits, format)))
            },
            None => Err(joined("Invalid number: ", s)),
        }
    }

    fn create_operator(&self, s: &str) -> (r: Result<ScientificOperator, String>) {
        if same_chars(s, "+") {
            Ok(ScientificOperator::Basic(Operator::Add))
        } else if same_chars(s, "-") {
            Ok(ScientificOperator::Basic(Operator::Subtract))
        } else if same_chars(s, "*") {
            Ok(ScientificOperator::Basic(Operator::Multiply))
        } else if same_chars(s, "/") {
            Ok(ScientificOperator::Basic(Operator::Divide))
        } else if same_chars(s, "^") {
            Ok(ScientificOperator::Basic(Operator::Power))
        } else if same_chars(s, "sin") {
            Ok(ScientificOperator::Function(Function::Sin))
        } else if same_chars(s, "cos") {
            Ok(ScientificOperator::Function(Function::Cos))
        } else if same_chars(s, "tan") {
            Ok(ScientificOperator::Function(Function::Tan))
        } else if same_chars(s, "sqrt") {
            Ok(ScientificOperator::Function(Function::Sqrt))
        } else {
            Err(joined("Invalid operator: ", s))
        }
    }
}

/// Law: the standard factory reads operators exactly as
/// [`crate::token::Token::operator_from_str`] does, with the same message on
/// failure.
pub proof fn law_standard_factory_reads_like_token(s: Seq<char>)
    ensures
        spec_operator_from_str(s) == match spec_standard_operator(s) {
            Ok(op) => Ok::<SpecToken, Seq<char>>(SpecToken::Operator(op)),
            Err(e) => Err(e),
        },
{
}

/// Law: the standard factory reads back the symbol of every operator.
pub proof fn law_standard_symbol_round_trip(op: Operator)
    ensures
        spec_standard_operator(operator_symbol(op)) == Ok::<Operator, Seq<char>>(op),
{
    lemma_spellings();
}

/// Law: the scientific factory reads back the symbol of every scientific
/// operator but the two it does not know, root (`///`) and factorial
/// (`!`).
pub proof fn law_scientific_symbol_round_trip(op: ScientificOperator)
    requires
        op != ScientificOperator::Basic(Operator::Root),
        op != ScientificOperator::Basic(Operator::Factorial),
    ensures
        spec_scientific_operator(scientific_symbol(op)) == Ok::<ScientificOperator, Seq<char>>(op),
{
    lemma_spellings();
}

/// Law: addition and subtraction bind least, then multiplication and
/// division, then power, then root, factorial and the functions.
pub proof fn law_precedence_order(f: Function)
    ensures
        operator_precedence(Operator::Add) == operator_precedence(Operator::Subtract),
        operator_precedence(Operator::Subtract) < operator_precedence(Operator::Multiply),
        operator_precedence(Operator::Multiply) == operator_precedence(Operator::Divide),
        operator_precedence(Operator::Divide) < operator_precedence(Operator::Power),
        operator_precedence(Operator::Power) < operator_precedence(Operator::Root),
        operator_precedence(Operator::Root) == operator_precedence(Operator::Factorial),
        scientific_precedence(ScientificOperator::Function(f)) == operator_precedence(
            Operator::Root,
        ),
{
}

/// Law: a basic operator of the scientific family binds and is written as
/// the same operator of the standard family.
pub proof fn law_scientific_basic_is_standard(op: Operator)
    ensures
        ScientificOperator::Basic(op).spec_precedence() == StandardOperator(op).spec_precedence(),
        ScientificOperator::Basic(op).spec_symbol() == StandardOperator(op).spec_symbol(),
{
}

/// Law: the scientific factory gives a number exactly when
/// [`crate::token::Token::number_from_str`] does, and the same number (bits
/// and format).
pub proof fn law_scientific_numbers_match_token(s: Seq<char>, number: Option<u64>)
    ensures
        spec_scientific_number(s, number) is Ok <==> spec_number_from_str(s, number) is Ok,
        spec_scientific_number(s, number) matches Ok(n) ==> spec_number_from_str(s, number)
            == Ok::<SpecToken, Seq<char>>(SpecToken::Number(n)),
{
}

/// Law: the standard factory gives a number exactly when the text reads as
/// an `f64`, and then holds exactly the bits read (sign included); otherwise
/// it names the text in its message.
pub proof fn law_standard_number_reading(s: Seq<char>, number: Option<u64>)
    ensures
        StandardFactory.spec_create_number(s, number) is Ok <==> number is Some,
        forall|n: StandardNumber|
            StandardFactory.spec_create_number(s, number) == Ok::<StandardNumber, Seq<char>>(n)
                ==> number == Some(n.0),
        number is None ==> StandardFactory.spec_create_number(s, number) == Err::<
            StandardNumber,
            Seq<char>,
        >("Invalid number: "@ + s),
{
}

/// Law: the scientific factory gives a number exactly when the text reads
/// as an `f64`; the number holds exactly the bits read (sign included) and
/// is scientific when the text holds `e` or `E`, decimal otherwise; failures
/// name the text.
pub proof fn law_scientific_number_reading(s: Seq<char>, number: Option<u64>)
    ensures
        ScientificFactory.spec_create_number(s, number) is Ok <==> number is Some,
        forall|n: ScientificNumber|
            ScientificFactory.spec_create_number(s, number) == Ok::<ScientificNumber, Seq<char>>(n)
                ==> number == Some(n.0.bits) && (n.0.format == NumberFormat::Scientific <==> (
                s.contains('e') || s.contains('E'))) && (n.0.format == NumberFormat::Decimal <==> !(
                s.contains('e') || s.contains('E'))),
        number is None ==> ScientificFactory.spec_create_number(s, number) == Err::<
            ScientificNumber,
            Seq<char>,
        >("Invalid number: "@ + s),
{
}

/// Law: the standard factory reads an operator only from one of the eight
/// whole spellings `+ - * / ** ^ /// !`, each giving its own operator; any
/// other text (a signed number, say) is refused with a message naming it.
pub proof fn law_standard_operator_reading(s: Seq<char>)
    ensures
        forall|op: StandardOperator|
            StandardFactory.spec_create_operator(s) == Ok::<StandardOperator, Seq<char>>(op) ==> {
                ||| op.0 == Operator::Add && s == "+"@
                ||| op.0 == Operator::Subtract && s == "-"@
                ||| op.0 == Operator::Multiply && s == "*"@
                ||| op.0 == Operator::Divide && s == "/"@
                ||| op.0 == Operator::Power && (s == "**"@ || s == "^"@)
                ||| op.0 == Operator::Root && s == "///"@
                ||| op.0 == Operator::Factorial && s == "!"@
            },
        (s == "+"@ || s == "-"@ || s == "*"@ || s == "/"@ || s == "**"@ || s == "^"@ || s
            == "///"@ || s == "!"@) ==> StandardFactory.spec_create_operator(s) is Ok,
        !(s == "+"@ || s == "-"@ || s == "*"@ || s == "/"@ || s == "**"@ || s == "^"@ || s
            == "///"@ || s == "!"@) ==> StandardFactory.spec_create_operator(s) == Err::<
            StandardOperator,
            Seq<char>,
        >("Invalid operator: "@ + s),
{
    lemma_spellings();
}

/// Law: the scientific factory reads an operator only from one of the nine
/// whole words `+ - * / ^ sin cos tan sqrt`, each giving its own operator or
/// function; any other text (a signed number such as `-5`, `**`, `///`,
/// `!`) is refused with a message naming it.
pub proof fn law_scientific_operator_reading(s: Seq<char>)
    ensures
        forall|op: ScientificOperator|
            ScientificFactory.spec_create_operator(s) == Ok::<ScientificOperator, Seq<char>>(op)
                ==> {
                ||| op == ScientificOperator::Basic(Operator::Add) && s == "+"@
                ||| op == ScientificOperator::Basic(Operator::Subtract) && s == "-"@
                ||| op == ScientificOperator::Basic(Operator::Multiply) && s == "*"@
                ||| op == ScientificOperator::Basic(Operator::Divide) && s == "/"@
                ||| op == ScientificOperator::Basic(Operator::Power) && s == "^"@
                ||| op == ScientificOperator::Function(Function::Sin) && s == "sin"@
                ||| op == ScientificOperator::Function(Function::Cos) && s == "cos"@
                ||| op == ScientificOperator::Function(Function::Tan) && s == "tan"@
                ||| op == ScientificOperator::Function(Function::Sqrt) && s == "sqrt"@
            },
        (s == "+"@ || s == "-"@ || s == "*"@ || s == "/"@ || s == "^"@ || s == "sin"@ || s
            == "cos"@ || s == "tan"@ || s == "sqrt"@) ==> ScientificFactory.spec_create_operator(s) is Ok,
        !(s == "+"@ || s == "-"@ || s == "*"@ || s == "/"@ || s == "^"@ || s == "sin"@ || s
            == "cos"@ || s == "tan"@ || s == "sqrt"@) ==> ScientificFactory.spec_create_operator(s)
            == Err::<ScientificOperator, Seq<char>>("Invalid operator: "@ + s),
{
    lemma_spellings();
}

/// Law: the precedence and symbol of every operator of both families:
/// `+` and `-` bind at 1, `*` and `/` at 2, `^` at 3, `///`, `!` and the
/// four functions at 4.
pub proof fn law_operator_table(f: Function)
    ensures
        StandardOperator(Operator::Add).spec_precedence() == 1 && StandardOperator(
            Operator::Add,
        ).spec_symbol() == "+"@,
        StandardOperator(Operator::Subtract).spec_precedence() == 1 && StandardOperator(
            Operator::Subtract,
        ).spec_symbol() == "-"@,
        StandardOperator(Operator::Multiply).spec_precedence() == 2 && StandardOperator(
            Operator::Multiply,
        ).spec_symbol() == "*"@,
        StandardOperator(Operator::Divide).spec_precedence() == 2 && StandardOperator(
            Operator::Divide,
        ).spec_symbol() == "/"@,
        StandardOperator(Operator::Power).spec_precedence() == 3 && StandardOperator(
            Operator::Power,
        ).spec_symbol() == "^"@,
        StandardOperator(Operator::Root).spec_precedence() == 4 && StandardOperator(
            Operator::Root,
        ).spec_symbol() == "///"@,
        StandardOperator(Operator::Factorial).spec_precedence() == 4 && StandardOperator(
            Operator::Factorial,
        ).spec_symbol() == "!"@,
        ScientificOperator::Function(f).spec_precedence() == 4,
        ScientificOperator::Function(Function::Sin).spec_symbol() == "sin"@,
        ScientificOperator::Function(Function::Cos).spec_symbol() == "cos"@,
        ScientificOperator::Function(Function::Tan).spec_symbol() == "tan"@,
        ScientificOperator::Function(Function::Sqrt).spec_symbol() == "sqrt"@,
{
}

} // verus!
