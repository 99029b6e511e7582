//! Statements of the syntax tree.

use vstd::prelude::*;
use std::rc::Rc;
use crate::expr::{Expr, VariableExpr};
use crate::function::FunctionType;
use crate::list::List;
use crate::token::Token;

verus! {

#[derive(Debug)]
pub enum Stmt {
    Block(Rc<BlockStmt>),
    Break,
    Continue,
    Class(Rc<ClassStmt>),
    Expression(Rc<ExpressionStmt>),
    Function(Rc<FunctionStmt>),
    If(Rc<IfStmt>),
    Print(Rc<PrintStmt>),
    Return(Rc<ReturnStmt>),
    Var(Rc<VarStmt>),
    While(Rc<WhileStmt>),
}

impl Stmt {
    /// Another handle on the same node.
    pub fn share(&self) -> (r: Self)
        ensures
            r == *self,
    {
        match self {
            Stmt::Block(s) => Stmt::Block(s.clone()),
            Stmt::Break => Stmt::Break,
            Stmt::Continue => Stmt::Continue,
            Stmt::Class(s) => Stmt::Class(s.clone()),
            Stmt::Expression(s) => Stmt::Expression(s.clone()),
            Stmt::Function(s) => Stmt::Function(s.clone()),
            Stmt::If(s) => Stmt::If(s.clone()),
            Stmt::Print(s) => Stmt::Print(s.clone()),
            Stmt::Return(s) => Stmt::Return(s.clone()),
            Stmt::Var(s) => Stmt::Var(s.clone()),
            Stmt::While(s) => Stmt::While(s.clone()),
        }
    }
}

/// A sequence of statements that opens a scope.
#[derive(Debug)]
pub struct BlockStmt {
    pub statements: List<Stmt>,
}

impl BlockStmt {
    pub fn new(statements: List<Stmt>) -> (r: Self)
        ensures
            r == (BlockStmt { statements }),
    {
        BlockStmt { statements }
    }

    /// Another handle on the same statements.
    pub fn share(&self) -> (r: Self)
        ensures
            r == *self,
    {
        BlockStmt { statements: self.statements.share() }
    }
}

/// A class declaration.
#[derive(Debug)]
pub struct ClassStmt {
    pub name: Token,
    pub superclass: Option<Rc<VariableExpr>>,
    pub methods: List<Rc<FunctionStmt>>,
    pub static_methods: List<Rc<FunctionStmt>>,
    pub getter_methods: List<Rc<FunctionStmt>>,
}

impl ClassStmt {
    pub fn new(name: Token, superclass: Option<Rc<VariableExpr>>, methods: List<Rc<FunctionStmt>>, static_methods: List<Rc<FunctionStmt>>, getter_methods: List<Rc<FunctionStmt>>) -> (r: Self)
        ensures
            r == (ClassStmt { name, superclass, methods, static_methods, getter_methods }),
    {
        ClassStmt { name, superclass, methods, static_methods, getter_methods }
    }
}

/// An expression evaluated for its effect.
#[derive(Debug)]
pub struct ExpressionStmt {
    pub expr: Expr,
}

impl ExpressionStmt {
    pub fn new(expr: Expr) -> (r: Self)
        ensures
            r == (ExpressionStmt { expr }),
    {
        ExpressionStmt { expr }
    }
}

/// A function or method declaration.
#[derive(Debug)]
pub struct FunctionStmt {
    pub name: Token,
    pub params: List<Token>,
    pub body: BlockStmt,
    pub kind: FunctionType,
}

impl FunctionStmt {
    pub fn new(name: Token, params: List<Token>, body: BlockStmt, kind: FunctionType) -> (r: Self)
        ensures
            r == (FunctionStmt { name, params, body, kind }),
    {
        FunctionStmt { name, params, body, kind }
    }
}

/// A conditional statement.
#[derive(Debug)]
pub struct IfStmt {
    pub condition: Expr,
    pub then_branch: BlockStmt,
    pub else_branch: Option<BlockStmt>,
}

impl IfStmt {
    pub fn new(condition: Expr, then_branch: BlockStmt, else_branch: Option<BlockStmt>) -> (r: Self)
        ensures
            r == (IfStmt { condition, then_branch, else_branch }),
    {
        IfStmt { condition, then_branch, else_branch }
    }
}

/// A print statement.
#[derive(Debug)]
pub struct PrintStmt {
    pub expr: Expr,
}

impl PrintStmt {
    pub fn new(expr: Expr) -> (r: Self)
        ensures
            r == (PrintStmt { expr }),
    {
        PrintStmt { expr }
    }
}

/// A return statement.
#[derive(Debug)]
pub struct ReturnStmt {
    pub keyword: Token,
    pub value: Option<Expr>,
}

impl ReturnStmt {
    pub fn new(keyword: Token, value: Option<Expr>) -> (r: Self)
        ensures
            r == (ReturnStmt { keyword, value }),
    {
        ReturnStmt { keyword, value }
    }
}

/// A variable declaration.
#[derive(Debug)]
pub struct VarStmt {
    pub name: Token,
    pub initializer: Option<Expr>,
}

impl VarStmt {
    pub fn new(name: Token, initializer: Option<Expr>) -> (r: Self)
        ensures
            r == (VarStmt { name, initializer }),
    {
        VarStmt { name, initializer }
    }
}

/// A loop.
#[derive(Debug)]
pub struct WhileStmt {
    pub condition: Expr,
    pub body: BlockStmt,
}

impl WhileStmt {
    pub fn new(condition: Expr, body: BlockStmt) -> (r: Self)
        ensures
            r == (WhileStmt { condition, body }),
    {
        WhileStmt { condition, body }
    }
}

} // verus!
