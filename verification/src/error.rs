//! Diagnostics of the parser, the resolver and the evaluator.

use vstd::prelude::*;
use crate::object::Object;
use crate::token::{diagnostic, diagnostic_text, Token, TokenView};

verus! {

/// What a diagnostic says: the token it points at and its message.
pub struct Fault {
    pub token: TokenView,
    pub message: Seq<char>,
}

/// An error found while parsing.
#[derive(Debug)]
pub struct ParsingError {
    pub message: String,
    pub token: Token,
}

impl View for ParsingError {
    type V = Fault;

    open spec fn view(&self) -> Fault {
        Fault { token: self.token@, message: self.message@ }
    }
}

impl ParsingError {
    pub fn new(token: Token, message: &str) -> (e: Self)
        ensures
            e@ == (Fault { token: token@, message: message@ }),
    {
        ParsingError { message: String::from_str(message), token }
    }

    /// The diagnostic as one line: `[line L:C] Parsing error at ...`.
    pub fn to_text(&self) -> (s: String)
        ensures
            s@ == diagnostic("Parsing"@, self.token@, self.message@),
    {
        diagnostic_text("Parsing", &self.token, &self.message)
    }
}

/// An error found while resolving or evaluating.
#[derive(Debug)]
pub struct RuntimeError {
    pub message: String,
    pub token: Token,
}

impl View for RuntimeError {
    type V = Fault;

    open spec fn view(&self) -> Fault {
        Fault { token: self.token@, message: self.message@ }
    }
}

impl RuntimeError {
    pub fn new(token: Token, message: &str) -> (e: Self)
        ensures
            e@ == (Fault { token: token@, message: message@ }),
    {
        RuntimeError { message: String::from_str(message), token }
    }

    /// A copy of the error.
    pub fn share(&self) -> (r: Self)
        ensures
            r == *self,
    {
        RuntimeError { message: self.message.clone(), token: self.token.clone() }
    }

    /// The diagnostic as one line: `[line L:C] Runtime error at ...`.
    pub fn to_text(&self) -> (s: String)
        ensures
            s@ == diagnostic("Runtime"@, self.token@, self.message@),
    {
        diagnostic_text("Runtime", &self.token, &self.message)
    }
}

/// The value that a `return` carries.
#[derive(Debug)]
pub struct RuntimeReturn {
    pub value: Object,
}

impl RuntimeReturn {
    pub fn new(value: Object) -> (r: Self)
        ensures
            r == (RuntimeReturn { value }),
    {
        Self { value }
    }
}

/// What ends an evaluation early: an error, or one of the control-flow
/// signals, which the enclosing loop or call takes up.
#[derive(Debug)]
pub enum RuntimeException {
    Break,
    Continue,
    Error(RuntimeError),
    Return(RuntimeReturn),
}

impl RuntimeException {
    /// A copy of the signal.
    pub fn share(&self) -> (r: Self)
        ensures
            r == *self,
    {
        match self {
            RuntimeException::Break => RuntimeException::Break,
            RuntimeException::Continue => RuntimeException::Continue,
            RuntimeException::Error(error) => RuntimeException::Error(error.share()),
            RuntimeException::Return(returned) => RuntimeException::Return(
                RuntimeReturn { value: returned.value.share() },
            ),
        }
    }
}

/// Whether `r` is the runtime error that points at `token` with `message`.
pub open spec fn fails_with<T>(
    r: Result<T, RuntimeException>,
    token: TokenView,
    message: Seq<char>,
) -> bool {
    r matches Err(RuntimeException::Error(error)) && error@ == (Fault { token, message })
}

/// The runtime error that points at `token` with `message`.
pub fn runtime_error<T>(token: &Token, message: &str) -> (r: Result<T, RuntimeException>)
    ensures
        fails_with(r, token@, message@),
{
    Err(RuntimeException::Error(RuntimeError::new(token.clone(), message)))
}

} // verus!
