//! Calculator tokens: operators, functions, numbers and variables, the
//! factories that build them from text, and a cursor that reads tokens from
//! a line of input.

pub mod text;
pub mod token;
pub mod parser;
pub mod factory;
