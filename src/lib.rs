//! A small filter language over build records: a lexer, a recursive-descent
//! parser and an evaluator, each proved against a mathematical model.
pub mod ast;
pub mod evaluator;
pub mod lexer;
pub mod parser;
pub mod query;
pub mod record;
pub mod slack;
