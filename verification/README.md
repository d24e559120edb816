# calculator

Tokens of a small calculator, verified with Verus.

- `src/token.rs`: `Token`, `Number`, `Operator`, `Function`, `NumberFormat`,
  and reading tokens from text (`from_str`, `operator_from_str`,
  `number_from_str`).
- `src/factory.rs`: the `OperatorToken` and `TokenFactory` traits and the
  standard and scientific token families.
- `src/parser.rs`: `TokenParser`, a cursor that hands out one token at a time.
- `src/text.rs`: character-level helpers and the two Unicode character
  classes of the standard library that the tokenizer uses.
- `app/main.rs`: the demonstration program, and everything that handles an
  `f64` (reading a number, displaying one).

A number's value is carried as the bit pattern of its `f64`. Functions that
read numbers take the outcome of `str::parse::<f64>` (as bits, `None` on
failure) as an argument.
