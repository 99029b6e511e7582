//! A sans-I/O interpreter for Lox: scanner, parser, resolver and a resumable
//! evaluator whose host supplies floating-point arithmetic, the clock and the
//! output sink.

pub mod builtin_funcs;
pub mod class;
pub mod environment;
pub mod error;
pub mod expr;
pub mod function;
pub mod grammar;
pub mod interpreter;
pub mod laws;
pub mod list;
pub mod machine;
pub mod object;
pub mod parser;
pub mod progress;
pub mod resolver;
pub mod round_trip;
pub mod scanner;
pub mod scoping;
pub mod semantics;
pub mod stmt;
pub mod table;
pub mod text;
pub mod token;
