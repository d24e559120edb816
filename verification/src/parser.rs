//! A cursor over a line of input that hands out one token at a time.
//!
//! Operators are recognised by the cursor itself. Any other piece of text
//! (up to the next whitespace) is a number when reading it as an `f64`
//! succeeds; that reading is the caller's (see [`TokenParser::pending_word`]
//! and the `word_number` argument of [`TokenParser::next_token`]).

use vstd::prelude::*;

use crate::text::{char_is_whitespace, is_whitespace_char, starts_with};
use crate::token::{
    decimal, lemma_spellings, spec_from_str, spec_operator_from_str, Number, NumberFormat, Operator,
    SpecToken, Token,
};

verus! {

/// The position of the first character at or after `p` that is not
/// whitespace (the length of `s` when there is none).
pub open spec fn whitespace_end(s: Seq<char>, p: int) -> int
    decreases s.len() - p,
{
    if 0 <= p < s.len() && is_whitespace_char(s[p]) {
        whitespace_end(s, p + 1)
    } else {
        p
    }
}

/// The position of the first whitespace character at or after `p` (the
/// length of `s` when there is none).
pub open spec fn word_end(s: Seq<char>, p: int) -> int
    decreases s.len() - p,
{
    if 0 <= p < s.len() && !is_whitespace_char(s[p]) {
        word_end(s, p + 1)
    } else {
        p
    }
}

/// Every whitespace character of the run that starts at `p` is encoded in
/// a single byte. The cursor steps over whitespace one byte at a time, so
/// skipping is defined only on such runs (always so in ASCII text); a wider
/// whitespace character would be cut in two.
pub open spec fn narrow_whitespace(s: Seq<char>, p: int) -> bool
    decreases s.len() - p,
{
    if 0 <= p < s.len() && is_whitespace_char(s[p]) {
        (s[p] as u32) < 0x80 && narrow_whitespace(s, p + 1)
    } else {
        true
    }
}

/// The length of the first of `+`, `-`, `*`, `/`, `**`, `^`, `///`, `!`
/// (tried in that order) that `s` starts with.
pub open spec fn spec_match_operator(s: Seq<char>) -> Option<nat> {
    if "+"@.is_prefix_of(s) {
        Some("+"@.len())
    } else if "-"@.is_prefix_of(s) {
        Some("-"@.len())
    } else if "*"@.is_prefix_of(s) {
        Some("*"@.len())
    } else if "/"@.is_prefix_of(s) {
        Some("/"@.len())
    } else if "**"@.is_prefix_of(s) {
        Some("**"@.len())
    } else if "^"@.is_prefix_of(s) {
        Some("^"@.len())
    } else if "///"@.is_prefix_of(s) {
        Some("///"@.len())
    } else if "!"@.is_prefix_of(s) {
        Some("!"@.len())
    } else {
        None
    }
}

/// The word that follows the whitespace at `p`: its characters up to the
/// next whitespace.
pub open spec fn spec_pending_word(s: Seq<char>, p: int) -> Seq<char> {
    s.subrange(whitespace_end(s, p), word_end(s, whitespace_end(s, p)))
}

/// The message of a piece of text that is neither an operator nor a number.
pub open spec fn incomplete_message() -> Seq<char> {
    "Incomplete token parsing logic"@
}

/// The value of what [`TokenParser::next_token`] returns.
pub open spec fn step_view(r: Option<Result<Token, String>>) -> Option<Result<SpecToken, Seq<char>>> {
    match r {
        Some(Ok(t)) => Some(Ok(t@)),
        Some(Err(e)) => Some(Err(e@)),
        None => None,
    }
}

/// What [`TokenParser::next_token`] returns on the text `s` with the cursor
/// at `p`, and where it leaves the cursor; `word_number` is the outcome of
/// reading the pending word as an `f64`.
pub open spec fn spec_next_token(s: Seq<char>, p: int, word_number: Option<u64>) -> (
    Option<Result<SpecToken, Seq<char>>>,
    int,
) {
    let q = whitespace_end(s, p);
    if q >= s.len() {
        (None, q)
    } else {
        match spec_match_operator(s.subrange(q, s.len() as int)) {
            Some(n) => (Some(spec_operator_from_str(s.subrange(q, q + n))), q + n),
            None => match word_number {
                Some(bits) => (Some(Ok(SpecToken::Number(decimal(bits)))), word_end(s, q)),
                None => (Some(Err(incomplete_message())), q),
            },
        }
    }
}

proof fn lemma_whitespace_end_bounds(s: Seq<char>, p: int)
    requires
        0 <= p <= s.len(),
    ensures
        p <= whitespace_end(s, p) <= s.len(),
        whitespace_end(s, p) < s.len() ==> !is_whitespace_char(s[whitespace_end(s, p)]),
    decreases s.len() - p,
{
    if p < s.len() && is_whitespace_char(s[p]) {
        lemma_whitespace_end_bounds(s, p + 1);
    }
}

proof fn lemma_word_end_bounds(s: Seq<char>, p: int)
    requires
        0 <= p <= s.len(),
    ensures
        p <= word_end(s, p) <= s.len(),
    decreases s.len() - p,
{
    if p < s.len() && !is_whitespace_char(s[p]) {
        lemma_word_end_bounds(s, p + 1);
    }
}

/// Text made only of ASCII characters never holds wide whitespace, so
/// [`TokenParser::next_token`] may always be called on it.
pub proof fn lemma_ascii_whitespace_is_narrow(s: Seq<char>, p: int)
    requires
        forall|i: int| 0 <= i < s.len() ==> (#[trigger] s[i] as u32) < 0x80,
    ensures
        narrow_whitespace(s, p),
    decreases s.len() - p,
{
    if 0 <= p < s.len() && is_whitespace_char(s[p]) {
        lemma_ascii_whitespace_is_narrow(s, p + 1);
    }
}

/// Reads tokens from a line of input, left to right.
pub struct TokenParser {
    input: String,
    position: usize,
}

impl TokenParser {
    #[verifier::type_invariant]
    spec fn cursor_in_text(self) -> bool {
        self.position <= self.input@.len()
    }

    /// The text being read.
    pub closed spec fn text(self) -> Seq<char> {
        self.input@
    }

    /// How many characters of the text have been consumed.
    pub closed spec fn cursor(self) -> int {
        self.position as int
    }

    /// A cursor at the start of `input`.
    pub fn new(input: &str) -> (p: TokenParser)
        ensures
            p.text() == input@,
            p.cursor() == 0,
    {
        TokenParser { input: input.to_owned(), position: 0 }
    }

    fn whitespace_end_from(&self, from: usize) -> (e: usize)
        requires
            from <= self.input@.len(),
        ensures
            e == whitespace_end(self.input@, from as int),
    {
        let n = self.input.as_str().unicode_len();
        let mut i = from;
        while i < n && char_is_whitespace(self.input.as_str().get_char(i))
            invariant
                n == self.input@.len(),
                from <= i <= n,
                whitespace_end(self.input@, from as int) == whitespace_end(self.input@, i as int),
            decreases n - i,
        {
            i = i + 1;
        }
        i
    }

    fn word_end_from(&self, from: usize) -> (e: usize)
        requires
            from <= self.input@.len(),
        ensures
            e == word_end(self.input@, from as int),
            from <= e <= self.input@.len(),
    {
        let n = self.input.as_str().unicode_len();
        let mut i = from;
        while i < n && !char_is_whitespace(self.input.as_str().get_char(i))
            invariant
                n == self.input@.len(),
                from <= i <= n,
                word_end(self.input@, from as int) == word_end(self.input@, i as int),
            decreases n - i,
        {
            i = i + 1;
        }
        i
    }

    /// Moves the cursor past the whitespace in front of it.
    pub fn skip_whitespace(&mut self)
        requires
            narrow_whitespace(old(self).text(), old(self).cursor()),
        ensures
            final(self).text() == old(self).text(),
            final(self).cursor() == whitespace_end(old(self).text(), old(self).cursor()),
            0 <= final(self).cursor() <= final(self).text().len(),
    {
        proof {
            use_type_invariant(&*self);
            lemma_whitespace_end_bounds(self.input@, self.position as int);
        }
        let e = self.whitespace_end_from(self.position);
        self.position = e;
    }

    /// The length of the first of `+`, `-`, `*`, `/`, `**`, `^`, `///`, `!`
    /// (tried in that order) that `input` starts with. Since `*` and `/`
    /// come first, the answer is always one character.
    pub fn match_operator(&self, input: &str) -> (r: Option<usize>)
        ensures
            match r {
                Some(n) => spec_match_operator(input@) == Some(n as nat),
                None => spec_match_operator(input@).is_none(),
            },
    {
        if starts_with(input, "+") {
            Some("+".unicode_len())
        } else if starts_with(input, "-") {
            Some("-".unicode_len())
        } else if starts_with(input, "*") {
            Some("*".unicode_len())
        } else if starts_with(input, "/") {
            Some("/".unicode_len())
        } else if starts_with(input, "**") {
            Some("**".unicode_len())
        } else if starts_with(input, "^") {
            Some("^".unicode_len())
        } else if starts_with(input, "///") {
            Some("///".unicode_len())
        } else if starts_with(input, "!") {
            Some("!".unicode_len())
        } else {
            None
        }
    }

    /// The piece of text that the next call of [`Self::next_token`] reads
    /// as a number when no operator stands at the cursor: the characters
    /// after the pending whitespace, up to the next whitespace.
    pub fn pending_word(&self) -> (w: String)
        ensures
            w@ == spec_pending_word(self.text(), self.cursor()),
    {
        proof {
            use_type_invariant(self);
            lemma_whitespace_end_bounds(self.input@, self.position as int);
        }
        let start = self.whitespace_end_from(self.position);
        let end = self.word_end_from(start);
        self.input.as_str().substring_char(start, end).to_owned()
    }

    /// Skips whitespace and reads the next token: `None` at the end of the
    /// input; an operator when one starts at the cursor; otherwise the
    /// number `word_number`, which is the caller's reading of
    /// [`Self::pending_word`] as an `f64` (its bits), or, when that reading
    /// failed, an error that leaves the cursor in front of the word.
    pub fn next_token(&mut self, word_number: Option<u64>) -> (r: Option<Result<Token, String>>)
        requires
            narrow_whitespace(old(self).text(), old(self).cursor()),
        ensures
            final(self).text() == old(self).text(),
            0 <= final(self).cursor() <= final(self).text().len(),
            (step_view(r), final(self).cursor()) == spec_next_token(
                old(self).text(),
                old(self).cursor(),
                word_number,
            ),
    {
        self.skip_whitespace();
        proof {
            use_type_invariant(&*self);
        }
        let n = self.input.as_str().unicode_len();
        if self.position >= n {
            return None;
        }
        let remaining = self.input.as_str().substring_char(self.position, n);
        if let Some(len) = self.match_operator(remaining) {
            proof {
                lemma_spellings();
            }
            assert(len <= remaining@.len());
            let op_str = remaining.substring_char(0, len);
            assert(op_str@ =~= self.input@.subrange(self.position as int, self.position + len));
            self.position = self.position + len;
            return Some(Token::operator_from_str(op_str));
        }
        match word_number {
            Some(bits) => {
                let end = self.word_end_from(self.position);
                self.position = end;
                Some(Ok(Token::number(bits)))
            },
            None => Some(Err("Incomplete token parsing logic".to_owned())),
        }
    }

    /// [`Self::next_token`] where its `requires` holds; `None`, with the
    /// cursor left where it was, where the whitespace in front of the
    /// cursor holds a character wider than one byte.
    pub fn checked_next_token(&mut self, word_number: Option<u64>) -> (r: Option<
        Option<Result<Token, String>>,
    >)
        ensures
            final(self).text() == old(self).text(),
            0 <= final(self).cursor() <= final(self).text().len(),
            narrow_whitespace(old(self).text(), old(self).cursor()) ==> r.is_some() && (
            step_view(r.unwrap()), final(self).cursor()) == spec_next_token(
                old(self).text(),
                old(self).cursor(),
                word_number,
            ),
            !narrow_whitespace(old(self).text(), old(self).cursor()) ==> r.is_none()
                && final(self).cursor() == old(self).cursor(),
    {
        if self.whitespace_ahead_is_narrow() {
            Some(self.next_token(word_number))
        } else {
            None
        }
    }

    fn whitespace_ahead_is_narrow(&self) -> (b: bool)
        ensures
            b == narrow_whitespace(self.text(), self.cursor()),
    {
        proof {
            use_type_invariant(self);
        }
        let n = self.input.as_str().unicode_len();
        let mut i = self.position;
        while i < n
            invariant
                n == self.input@.len(),
                i <= n,
                narrow_whitespace(self.input@, self.position as int) == narrow_whitespace(
                    self.input@,
                    i as int,
                ),
            decreases n - i,
        {
            let c = self.input.as_str().get_char(i);
            if !char_is_whitespace(c) {
                return true;
            }
            if (c as u32) >= 0x80 {
                return false;
            }
            i = i + 1;
        }
        true
    }
}

/// Law: an operator at the cursor is always a single character, one of
/// `+`, `-`, `*`, `/`, `^`, `!`: the two-character `**` and the
/// three-character `///` are never matched whole, since `*` and `/` are
/// tried first.
pub proof fn law_operators_are_one_char(s: Seq<char>)
    ensures
        spec_match_operator(s) is Some <==> (s.len() > 0 && (s[0] == '+' || s[0] == '-' || s[0]
            == '*' || s[0] == '/' || s[0] == '^' || s[0] == '!')),
        spec_match_operator(s) is Some ==> spec_match_operator(s) == Some(1nat),
{
    lemma_spellings();
    if s.len() > 0 {
        assert("+"@.is_prefix_of(s) <==> s[0] == '+') by {
            if s[0] == '+' {
                assert("+"@ =~= s.subrange(0, 1));
            }
        }
        assert("-"@.is_prefix_of(s) <==> s[0] == '-') by {
            if s[0] == '-' {
                assert("-"@ =~= s.subrange(0, 1));
            }
        }
        assert("*"@.is_prefix_of(s) <==> s[0] == '*') by {
            if s[0] == '*' {
                assert("*"@ =~= s.subrange(0, 1));
            }
        }
        assert("/"@.is_prefix_of(s) <==> s[0] == '/') by {
            if s[0] == '/' {
                assert("/"@ =~= s.subrange(0, 1));
            }
        }
        assert("^"@.is_prefix_of(s) <==> s[0] == '^') by {
            if s[0] == '^' {
                assert("^"@ =~= s.subrange(0, 1));
            }
        }
        assert("!"@.is_prefix_of(s) <==> s[0] == '!') by {
            if s[0] == '!' {
                assert("!"@ =~= s.subrange(0, 1));
            }
        }
        assert("**"@.is_prefix_of(s) ==> s[0] == '*');
        assert("///"@.is_prefix_of(s) ==> s[0] == '/');
    }
}

/// Law: reading a token never moves the cursor back or past the end; it
/// gives `None` exactly when only whitespace is left; and every token it
/// gives consumes at least one character, so reading until `None`
/// terminates.
pub proof fn law_next_token_progress(s: Seq<char>, p: int, word_number: Option<u64>)
    requires
        0 <= p <= s.len(),
    ensures
        p <= spec_next_token(s, p, word_number).1 <= s.len(),
        spec_next_token(s, p, word_number).0 is None <==> whitespace_end(s, p) == s.len(),
        spec_next_token(s, p, word_number).0 matches Some(Ok(_)) ==> p < spec_next_token(
            s,
            p,
            word_number,
        ).1,
{
    lemma_whitespace_end_bounds(s, p);
    let q = whitespace_end(s, p);
    if q < s.len() {
        lemma_word_end_bounds(s, q);
        lemma_spellings();
        let rest = s.subrange(q, s.len() as int);
        law_operators_are_one_char(rest);
        assert(word_end(s, q) == word_end(s, q + 1));
        lemma_word_end_bounds(s, q + 1);
    }
}

/// Law: once the input is used up it stays used up: after a `None`, every
/// further read gives `None` again.
pub proof fn law_end_of_input_is_final(s: Seq<char>, p: int, first: Option<u64>, then: Option<u64>)
    requires
        0 <= p <= s.len(),
        spec_next_token(s, p, first).0 is None,
    ensures
        spec_next_token(s, spec_next_token(s, p, first).1, then).0 is None,
        spec_next_token(s, spec_next_token(s, p, first).1, then).1 == s.len(),
{
    lemma_whitespace_end_bounds(s, p);
}

/// Law: where no operator stands at the cursor, the number the cursor
/// hands out is the token that [`Token::from_str`] reads from the pending
/// word with the same reading as an `f64`.
pub proof fn law_cursor_numbers_match_from_str(s: Seq<char>, p: int, bits: u64)
    requires
        0 <= p <= s.len(),
        whitespace_end(s, p) < s.len(),
        spec_match_operator(s.subrange(whitespace_end(s, p), s.len() as int)) is None,
    ensures
        spec_next_token(s, p, Some(bits)).0 == Some(
            spec_from_str(s.subrange(whitespace_end(s, p), word_end(s, whitespace_end(s, p))), Some(bits)),
        ),
{
}

/// Law: skipping whitespace from `p` stops at `q` exactly when everything
/// from `p` up to `q` is whitespace and `q` is the end or holds a character
/// that is not.
pub proof fn law_whitespace_end(s: Seq<char>, p: int, q: int)
    requires
        0 <= p <= q <= s.len(),
        forall|i: int| p <= i < q ==> is_whitespace_char(#[trigger] s[i]),
        q == s.len() || !is_whitespace_char(s[q]),
    ensures
        whitespace_end(s, p) == q,
    decreases q - p,
{
    if p < q {
        law_whitespace_end(s, p + 1, q);
    }
}

proof fn lemma_word_end_at(s: Seq<char>, q: int, e: int)
    requires
        0 <= q <= e <= s.len(),
        forall|i: int| q <= i < e ==> !is_whitespace_char(#[trigger] s[i]),
        e == s.len() || is_whitespace_char(s[e]),
    ensures
        word_end(s, q) == e,
    decreases e - q,
{
    if q < e {
        lemma_word_end_at(s, q + 1, e);
    }
}

/// Law: with only whitespace between the cursor `p` and a position `q`
/// holding one of `+ - * / ^ !`, the next read gives that operator and
/// leaves the cursor at exactly `q + 1`, whatever follows it (so in `-3`
/// the `3` is left for the next read), whatever the caller's reading of the
/// pending word.
pub proof fn law_operator_step(s: Seq<char>, p: int, q: int, word_number: Option<u64>)
    requires
        0 <= p <= q < s.len(),
        forall|i: int| p <= i < q ==> is_whitespace_char(#[trigger] s[i]),
    ensures
        s[q] == '+' ==> spec_next_token(s, p, word_number) == (
            Some(Ok::<SpecToken, Seq<char>>(SpecToken::Operator(Operator::Add))),
            q + 1,
        ),
        s[q] == '-' ==> spec_next_token(s, p, word_number) == (
            Some(Ok::<SpecToken, Seq<char>>(SpecToken::Operator(Operator::Subtract))),
            q + 1,
        ),
        s[q] == '*' ==> spec_next_token(s, p, word_number) == (
            Some(Ok::<SpecToken, Seq<char>>(SpecToken::Operator(Operator::Multiply))),
            q + 1,
        ),
        s[q] == '/' ==> spec_next_token(s, p, word_number) == (
            Some(Ok::<SpecToken, Seq<char>>(SpecToken::Operator(Operator::Divide))),
            q + 1,
        ),
        s[q] == '^' ==> spec_next_token(s, p, word_number) == (
            Some(Ok::<SpecToken, Seq<char>>(SpecToken::Operator(Operator::Power))),
            q + 1,
        ),
        s[q] == '!' ==> spec_next_token(s, p, word_number) == (
            Some(Ok::<SpecToken, Seq<char>>(SpecToken::Operator(Operator::Factorial))),
            q + 1,
        ),
{
    lemma_spellings();
    if s[q] == '+' || s[q] == '-' || s[q] == '*' || s[q] == '/' || s[q] == '^' || s[q] == '!' {
        law_whitespace_end(s, p, q);
        let rest = s.subrange(q, s.len() as int);
        law_operators_are_one_char(rest);
        assert(rest[0] == s[q]);
        let sym = s.subrange(q, q + 1);
        assert(sym.len() == 1 && sym[0] == s[q]);
        if s[q] == '+' {
            assert(sym =~= "+"@);
        } else if s[q] == '-' {
            assert(sym =~= "-"@);
        } else if s[q] == '*' {
            assert(sym =~= "*"@);
        } else if s[q] == '/' {
            assert(sym =~= "/"@);
        } else if s[q] == '^' {
            assert(sym =~= "^"@);
        } else {
            assert(sym =~= "!"@);
        }
    }
}

/// Law: with only whitespace between the cursor `p` and a position `q`
/// whose character is neither whitespace nor one of `+ - * / ^ !`, and the
/// word there running up to `e` (the next whitespace or the end), the next
/// read gives the caller's number with exactly its bits, as a decimal, and
/// leaves the cursor at `e`; without a number it gives the fixed message
/// and leaves the cursor at `q`.
pub proof fn law_word_step(s: Seq<char>, p: int, q: int, e: int, word_number: Option<u64>)
    requires
        0 <= p <= q < e <= s.len(),
        forall|i: int| p <= i < q ==> is_whitespace_char(#[trigger] s[i]),
        forall|i: int| q <= i < e ==> !is_whitespace_char(#[trigger] s[i]),
        e == s.len() || is_whitespace_char(s[e]),
        !(s[q] == '+' || s[q] == '-' || s[q] == '*' || s[q] == '/' || s[q] == '^' || s[q] == '!'),
    ensures
        word_number matches Some(bits) ==> spec_next_token(s, p, word_number) == (
            Some(
                Ok::<SpecToken, Seq<char>>(
                    SpecToken::Number(Number { bits, format: NumberFormat::Decimal }),
                ),
            ),
            e,
        ),
        word_number is None ==> spec_next_token(s, p, word_number) == (
            Some(Err::<SpecToken, Seq<char>>("Incomplete token parsing logic"@)),
            q,
        ),
{
    law_whitespace_end(s, p, q);
    lemma_word_end_at(s, q, e);
    let rest = s.subrange(q, s.len() as int);
    law_operators_are_one_char(rest);
    assert(rest[0] == s[q]);
}

/// Law: when only whitespace lies between the cursor `p` and the end, the
/// next read gives `None` and leaves the cursor at the end.
pub proof fn law_end_step(s: Seq<char>, p: int, word_number: Option<u64>)
    requires
        0 <= p <= s.len(),
        forall|i: int| p <= i < s.len() ==> is_whitespace_char(#[trigger] s[i]),
    ensures
        spec_next_token(s, p, word_number) == (None::<Result<SpecToken, Seq<char>>>, s.len() as int),
{
    law_whitespace_end(s, p, s.len() as int);
}

/// Law: when only whitespace lies between the cursor `p` and `q`, and from
/// `q` the characters up to `e` are not whitespace while `e` is the end or
/// is whitespace, the pending word is exactly the characters from `q` up to
/// `e`; when only whitespace is left, it is empty.
pub proof fn law_pending_word(s: Seq<char>, p: int, q: int, e: int)
    requires
        0 <= p <= q <= e <= s.len(),
        forall|i: int| p <= i < q ==> is_whitespace_char(#[trigger] s[i]),
        q == s.len() || !is_whitespace_char(s[q]),
        forall|i: int| q <= i < e ==> !is_whitespace_char(#[trigger] s[i]),
        e == s.len() || is_whitespace_char(s[e]),
    ensures
        spec_pending_word(s, p) == s.subrange(q, e),
        q == s.len() ==> spec_pending_word(s, p).len() == 0,
{
    law_whitespace_end(s, p, q);
    lemma_word_end_at(s, q, e);
}

/// Law: a read may go ahead (the whitespace in front of the cursor is
/// narrow) exactly when no whitespace character of the run that starts at
/// `p` and ends at `q` lies outside ASCII.
pub proof fn law_narrow_whitespace(s: Seq<char>, p: int, q: int)
    requires
        0 <= p <= q <= s.len(),
        forall|i: int| p <= i < q ==> is_whitespace_char(#[trigger] s[i]),
        q == s.len() || !is_whitespace_char(s[q]),
    ensures
        narrow_whitespace(s, p) <==> (forall|i: int| p <= i < q ==> (#[trigger] s[i] as u32) < 0x80),
    decreases q - p,
{
    if p < q {
        law_narrow_whitespace(s, p + 1, q);
        if narrow_whitespace(s, p) {
            assert forall|i: int| p <= i < q implies (#[trigger] s[i] as u32) < 0x80 by {
                if i > p {
                    assert(p + 1 <= i < q);
                }
            }
        }
        if forall|i: int| p <= i < q ==> (#[trigger] s[i] as u32) < 0x80 {
            assert((s[p] as u32) < 0x80);
            assert forall|i: int| p + 1 <= i < q implies (#[trigger] s[i] as u32) < 0x80 by {
                assert(p <= i < q);
            }
        }
    }
}

} // verus!
