//! The kinds of functions.

use vstd::prelude::*;
use std::rc::Rc;
use crate::environment::Environment;
use crate::expr::LambdaExpr;
use crate::object::Object;
use crate::stmt::FunctionStmt;

verus! {

/// What kind of function a declaration is, or `NoFunction` outside any function.
#[derive(Clone, Copy, Debug, PartialEq, Eq, Structural)]
pub enum FunctionType {
    NoFunction,
    Function,
    Initializer,
    Method,
    StaticMethod,
    GetterMethod,
}

impl Default for FunctionType {
    fn default() -> (r: Self)
        ensures
            r == FunctionType::NoFunction,
    {
        FunctionType::NoFunction
    }
}

impl FunctionType {
    /// The kind in words, as diagnostics name it.
    pub open spec fn text(self) -> Seq<char> {
        match self {
            FunctionType::Function => "function"@,
            FunctionType::Initializer => "initializer"@,
            FunctionType::Method => "method"@,
            FunctionType::StaticMethod => "static method"@,
            FunctionType::GetterMethod => "getter method"@,
            FunctionType::NoFunction => "none"@,
        }
    }

    pub fn to_text(&self) -> (s: String)
        ensures
            s@ == self.text(),
    {
        match self {
            FunctionType::Function => String::from_str("function"),
            FunctionType::Initializer => String::from_str("initializer"),
            FunctionType::Method => String::from_str("method"),
            FunctionType::StaticMethod => String::from_str("static method"),
            FunctionType::GetterMethod => String::from_str("getter method"),
            FunctionType::NoFunction => String::from_str("none"),
        }
    }
}

/// A user function or method: its declaration, the environment that it
/// closes over, by number, and its kind.
#[derive(Debug)]
pub struct LoxFunction {
    pub declaration: Rc<FunctionStmt>,
    pub closure: usize,
    pub kind: FunctionType,
}

impl LoxFunction {
    pub fn new(declaration: Rc<FunctionStmt>, closure: usize, kind: FunctionType) -> (f: Self)
        ensures
            f == (LoxFunction { declaration, closure, kind }),
    {
        LoxFunction { declaration, closure, kind }
    }

    /// Another handle on the same function.
    pub fn share(&self) -> (r: Self)
        ensures
            r == *self,
    {
        LoxFunction {
            declaration: self.declaration.clone(),
            closure: self.closure,
            kind: self.kind,
        }
    }

    /// The method bound to an instance: the same declaration and kind, over
    /// a new environment that encloses the closure and binds `this` to the
    /// instance.
    pub fn bind(&self, environments: &mut Vec<Environment>, instance: usize) -> (bound: LoxFunction)
        requires
            crate::environment::tables_wf(old(environments)@),
        ensures
            crate::environment::tables_wf(final(environments)@),
            bound == (LoxFunction {
                declaration: self.declaration,
                closure: old(environments)@.len() as usize,
                kind: self.kind,
            }),
            final(environments)@.len() == old(environments)@.len() + 1,
            final(environments)@.take(old(environments)@.len() as int) == old(environments)@,
            final(environments)@.last().enclosing == Some(self.closure),
            final(environments)@.last().values@ == Map::<Seq<char>, Object>::empty().insert(
                "this"@,
                Object::Instance(instance),
            ),
    {
        let mut environment = Environment::new(Some(self.closure));
        environment.define("this", Object::Instance(instance));
        let closure = environments.len();
        environments.push(environment);
        proof {
            assert(environments@.take(closure as int) =~= old(environments)@);
        }
        LoxFunction { declaration: self.declaration.clone(), closure, kind: self.kind }
    }
}

/// An anonymous function. It closes over the global environment.
#[derive(Debug)]
pub struct LambdaFunction {
    pub declaration: Rc<LambdaExpr>,
}

impl LambdaFunction {
    pub fn new(declaration: Rc<LambdaExpr>) -> (f: Self)
        ensures
            f == (LambdaFunction { declaration }),
    {
        LambdaFunction { declaration }
    }

    /// Another handle on the same lambda.
    pub fn share(&self) -> (r: Self)
        ensures
            r == *self,
    {
        LambdaFunction { declaration: self.declaration.clone() }
    }
}

} // verus!
