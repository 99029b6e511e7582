//! Callable values: the native clock, user functions and lambdas.

use vstd::prelude::*;
use crate::function::{LambdaFunction, LoxFunction};
use crate::text::push_text;

verus! {

/// The native function `clock`: it takes no arguments and gives the time in
/// whole seconds, which the host reads.
#[derive(Clone, Copy, Debug, PartialEq, Eq, Structural)]
pub struct ClockFunction;

/// Whatever can be called besides a class.
#[derive(Debug)]
pub enum LoxCallable {
    Clock(ClockFunction),
    Function(LoxFunction),
    Lambda(LambdaFunction),
}

impl LoxCallable {
    /// Another handle on the same callable.
    pub fn share(&self) -> (r: Self)
        ensures
            r == *self,
    {
        match self {
            LoxCallable::Clock(c) => LoxCallable::Clock(*c),
            LoxCallable::Function(f) => LoxCallable::Function(f.share()),
            LoxCallable::Lambda(l) => LoxCallable::Lambda(l.share()),
        }
    }

    /// How the callable is written out.
    pub open spec fn text(self) -> Seq<char> {
        match self {
            LoxCallable::Clock(_) => "<fn native clock>"@,
            LoxCallable::Function(f) => "<fn "@ + f.declaration.name.value@.text() + ">"@,
            LoxCallable::Lambda(_) => "<fn lambda>"@,
        }
    }

    pub fn to_text(&self) -> (s: String)
        ensures
            s@ == self.text(),
    {
        match self {
            LoxCallable::Clock(_) => String::from_str("<fn native clock>"),
            LoxCallable::Function(f) => {
                let mut s = String::from_str("<fn ");
                let name = f.declaration.name.value.to_text();
                push_text(&mut s, name.as_str());
                push_text(&mut s, ">");
                s
            },
            LoxCallable::Lambda(_) => String::from_str("<fn lambda>"),
        }
    }
}

} // verus!
