//! Expressions of the syntax tree.
//!
//! Nodes are shared, not copied: a handle on a node is cheap to duplicate.
//! Nodes that name a variable carry an `id`, unique within what one parser
//! produced, under which the resolver files the scope distance.

use vstd::prelude::*;
use std::rc::Rc;
use crate::list::List;
use crate::stmt::BlockStmt;
use crate::token::{Token, TokenValue};

verus! {

#[derive(Debug)]
pub enum Expr {
    Assign(Rc<AssignExpr>),
    Binary(Rc<BinaryExpr>),
    Call(Rc<CallExpr>),
    Get(Rc<GetExpr>),
    Grouping(Rc<GroupingExpr>),
    Lambda(Rc<LambdaExpr>),
    Literal(Rc<LiteralExpr>),
    Logical(Rc<LogicalExpr>),
    SetProperty(Rc<SetExpr>),
    Super(Rc<SuperExpr>),
    This(Rc<ThisExpr>),
    Ternary(Rc<TernaryExpr>),
    Unary(Rc<UnaryExpr>),
    Variable(Rc<VariableExpr>),
}

impl Expr {
    /// Another handle on the same node.
    pub fn share(&self) -> (r: Self)
        ensures
            r == *self,
    {
        match self {
            Expr::Assign(e) => Expr::Assign(e.clone()),
            Expr::Binary(e) => Expr::Binary(e.clone()),
            Expr::Call(e) => Expr::Call(e.clone()),
            Expr::Get(e) => Expr::Get(e.clone()),
            Expr::Grouping(e) => Expr::Grouping(e.clone()),
            Expr::Lambda(e) => Expr::Lambda(e.clone()),
            Expr::Literal(e) => Expr::Literal(e.clone()),
            Expr::Logical(e) => Expr::Logical(e.clone()),
            Expr::SetProperty(e) => Expr::SetProperty(e.clone()),
            Expr::Super(e) => Expr::Super(e.clone()),
            Expr::This(e) => Expr::This(e.clone()),
            Expr::Ternary(e) => Expr::Ternary(e.clone()),
            Expr::Unary(e) => Expr::Unary(e.clone()),
            Expr::Variable(e) => Expr::Variable(e.clone()),
        }
    }
}

/// An assignment to a variable.
#[derive(Debug)]
pub struct AssignExpr {
    pub id: u64,
    pub name: Token,
    pub value: Expr,
}

impl AssignExpr {
    pub fn new(id: u64, name: Token, value: Expr) -> (r: Self)
        ensures
            r == (AssignExpr { id, name, value }),
    {
        AssignExpr { id, name, value }
    }
}

/// An arithmetic, comparison or equality operation.
#[derive(Debug)]
pub struct BinaryExpr {
    pub left: Expr,
    pub operator: Token,
    pub right: Expr,
}

impl BinaryExpr {
    pub fn new(left: Expr, operator: Token, right: Expr) -> (r: Self)
        ensures
            r == (BinaryExpr { left, operator, right }),
    {
        BinaryExpr { left, operator, right }
    }
}

/// A call; `paren` is the closing parenthesis.
#[derive(Debug)]
pub struct CallExpr {
    pub callee: Expr,
    pub paren: Token,
    pub arguments: List<Expr>,
}

impl CallExpr {
    pub fn new(callee: Expr, paren: Token, arguments: List<Expr>) -> (r: Self)
        ensures
            r == (CallExpr { callee, paren, arguments }),
    {
        CallExpr { callee, paren, arguments }
    }
}

/// A property read.
#[derive(Debug)]
pub struct GetExpr {
    pub object: Expr,
    pub name: Token,
}

impl GetExpr {
    pub fn new(object: Expr, name: Token) -> (r: Self)
        ensures
            r == (GetExpr { object, name }),
    {
        GetExpr { object, name }
    }
}

/// A parenthesised expression.
#[derive(Debug)]
pub struct GroupingExpr {
    pub expression: Expr,
}

impl GroupingExpr {
    pub fn new(expression: Expr) -> (r: Self)
        ensures
            r == (GroupingExpr { expression }),
    {
        GroupingExpr { expression }
    }
}

/// An anonymous function.
#[derive(Debug)]
pub struct LambdaExpr {
    pub params: List<Token>,
    pub body: BlockStmt,
}

impl LambdaExpr {
    pub fn new(params: List<Token>, body: BlockStmt) -> (r: Self)
        ensures
            r == (LambdaExpr { params, body }),
    {
        LambdaExpr { params, body }
    }
}

/// A literal: `nil`, a boolean, a string, or a number as written.
#[derive(Debug)]
pub struct LiteralExpr {
    pub value: TokenValue,
}

impl LiteralExpr {
    pub fn new(value: TokenValue) -> (r: Self)
        ensures
            r == (LiteralExpr { value }),
    {
        LiteralExpr { value }
    }
}

/// A short-circuit `and` or `or`.
#[derive(Debug)]
pub struct LogicalExpr {
    pub left: Expr,
    pub operator: Token,
    pub right: Expr,
}

impl LogicalExpr {
    pub fn new(left: Expr, operator: Token, right: Expr) -> (r: Self)
        ensures
            r == (LogicalExpr { left, operator, right }),
    {
        LogicalExpr { left, operator, right }
    }
}

/// A property write.
#[derive(Debug)]
pub struct SetExpr {
    pub object: Expr,
    pub name: Token,
    pub value: Expr,
}

impl SetExpr {
    pub fn new(object: Expr, name: Token, value: Expr) -> (r: Self)
        ensures
            r == (SetExpr { object, name, value }),
    {
        SetExpr { object, name, value }
    }
}

/// A method looked up on the superclass.
#[derive(Debug)]
pub struct SuperExpr {
    pub id: u64,
    pub keyword: Token,
    pub method: Token,
}

impl SuperExpr {
    pub fn new(id: u64, keyword: Token, method: Token) -> (r: Self)
        ensures
            r == (SuperExpr { id, keyword, method }),
    {
        SuperExpr { id, keyword, method }
    }
}

/// The receiver of the current method.
#[derive(Debug)]
pub struct ThisExpr {
    pub id: u64,
    pub keyword: Token,
}

impl ThisExpr {
    pub fn new(id: u64, keyword: Token) -> (r: Self)
        ensures
            r == (ThisExpr { id, keyword }),
    {
        ThisExpr { id, keyword }
    }
}

/// A conditional expression.
#[derive(Debug)]
pub struct TernaryExpr {
    pub condition: Expr,
    pub then_branch: Expr,
    pub else_branch: Expr,
}

impl TernaryExpr {
    pub fn new(condition: Expr, then_branch: Expr, else_branch: Expr) -> (r: Self)
        ensures
            r == (TernaryExpr { condition, then_branch, else_branch }),
    {
        TernaryExpr { condition, then_branch, else_branch }
    }
}

/// A negation.
#[derive(Debug)]
pub struct UnaryExpr {
    pub operator: Token,
    pub right: Expr,
}

impl UnaryExpr {
    pub fn new(operator: Token, right: Expr) -> (r: Self)
        ensures
            r == (UnaryExpr { operator, right }),
    {
        UnaryExpr { operator, right }
    }
}

/// A variable read.
#[derive(Debug)]
pub struct VariableExpr {
    pub id: u64,
    pub name: Token,
}

impl VariableExpr {
    pub fn new(id: u64, name: Token) -> (r: Self)
        ensures
            r == (VariableExpr { id, name }),
    {
        VariableExpr { id, name }
    }
}

} // verus!
