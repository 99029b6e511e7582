//! The state of the evaluator and what it exchanges with its host.
//!
//! The evaluator is resumable: it runs until it needs something that only
//! the host can do (floating-point arithmetic, the clock, the output sink),
//! says so, and goes on when it is handed the answer.

use vstd::prelude::*;
use std::rc::Rc;
use crate::class::{classes_wf, instances_wf, LoxClass, LoxInstance};
use crate::environment::{tables_wf, Environment};
use crate::error::{Fault, RuntimeException};
use crate::expr::{
    AssignExpr, BinaryExpr, CallExpr, Expr, GetExpr, LogicalExpr, SetExpr, TernaryExpr, UnaryExpr,
};
use crate::function::FunctionType;
use crate::list::List;
use crate::object::Object;
use crate::resolver::Locals;
use crate::stmt::{IfStmt, Stmt, VarStmt, WhileStmt};
use crate::token::{Token, TokenView};

verus! {

/// The operations on two numbers that the host performs.
#[derive(Clone, Copy, Debug, PartialEq, Eq, Structural)]
pub enum NumberOperator {
    Add,
    Subtract,
    Multiply,
    Divide,
    Greater,
    GreaterEqual,
    Less,
    LessEqual,
    Equal,
}

/// What the evaluator asks of its host. Numbers are bit patterns of
/// doubles.
#[derive(Debug)]
pub enum Request {
    /// The number that a numeral denotes; answered by `Event::Number`.
    Parse(String),
    /// An arithmetic operation, answered by `Event::Number`, or a
    /// comparison, answered by `Event::Boolean`.
    Binary { operator: NumberOperator, left: u64, right: u64 },
    /// The negated number; answered by `Event::Number`.
    Negate(u64),
    /// Whether the number equals zero; answered by `Event::Boolean`.
    IsZero(u64),
    /// The number written out; answered by `Event::Text`.
    Format(u64),
    /// The time in whole seconds since the epoch, as a number; answered by
    /// `Event::Number`.
    Clock,
}

impl Request {
    pub fn share(&self) -> (r: Self)
        ensures
            r == *self,
    {
        match self {
            Request::Parse(text) => Request::Parse(text.clone()),
            Request::Binary { operator, left, right } => Request::Binary {
                operator: *operator,
                left: *left,
                right: *right,
            },
            Request::Negate(n) => Request::Negate(*n),
            Request::IsZero(n) => Request::IsZero(*n),
            Request::Format(n) => Request::Format(*n),
            Request::Clock => Request::Clock,
        }
    }
}

/// What the host hands to the evaluator.
#[derive(Debug)]
pub enum Event {
    /// Nothing: the evaluator asked for nothing.
    Nothing,
    Number(u64),
    Boolean(bool),
    Text(String),
}

/// What the evaluator tells its host after a step.
#[derive(Debug)]
pub enum Action {
    /// Nothing is needed: step again.
    Continue,
    /// Write this line to the output, then step again.
    Print(String),
    /// Do this and step again with the answer.
    Ask(Request),
    /// The program ended, with the value of its last statement or with what
    /// ended it early.
    Finished(Result<Object, RuntimeException>),
}

/// What becomes of the host's answer to a request.
#[derive(Debug)]
pub enum Pending {
    /// The number is the value.
    Number,
    /// The boolean, negated where `negate` is set, is the value.
    Boolean { negate: bool },
    /// The answer says whether the divisor `right` is zero.
    Divisor { operator: Token, left: u64, right: u64 },
    /// The text, appended to `left`, is the value.
    Concat { left: String },
    /// The text is printed.
    Print,
    /// The text is the left operand of a `+` that has no meaning; `right`
    /// is the other operand.
    InvalidLeft { operator: Token, right: Object },
    /// The text is the right operand of a `+` that has no meaning; `left`
    /// is the other operand, written out.
    InvalidRight { operator: Token, left: String },
}

impl Pending {
    pub fn share(&self) -> (r: Self)
        ensures
            r == *self,
    {
        match self {
            Pending::Number => Pending::Number,
            Pending::Boolean { negate } => Pending::Boolean { negate: *negate },
            Pending::Divisor { operator, left, right } => Pending::Divisor {
                operator: operator.clone(),
                left: *left,
                right: *right,
            },
            Pending::Concat { left } => Pending::Concat { left: left.clone() },
            Pending::Print => Pending::Print,
            Pending::InvalidLeft { operator, right } => Pending::InvalidLeft {
                operator: operator.clone(),
                right: right.share(),
            },
            Pending::InvalidRight { operator, left } => Pending::InvalidRight {
                operator: operator.clone(),
                left: left.clone(),
            },
        }
    }
}

/// What the evaluator does next.
#[derive(Debug)]
pub enum Mode {
    /// Nothing: no program is running.
    Idle,
    /// Evaluate the expression.
    Eval(Expr),
    /// Execute the statement.
    Exec(Stmt),
    /// Hand the value to the frame on top.
    Value(Object),
    /// Take the frames down until one takes the signal up.
    Unwind(RuntimeException),
    /// Wait for the host's answer to `request`.
    Await { request: Request, pending: Pending },
}

impl Mode {
    /// A copy of the mode.
    pub fn share(&self) -> (r: Self)
        ensures
            r == *self,
    {
        match self {
            Mode::Idle => Mode::Idle,
            Mode::Eval(e) => Mode::Eval(e.share()),
            Mode::Exec(statement) => Mode::Exec(statement.share()),
            Mode::Value(value) => Mode::Value(value.share()),
            Mode::Unwind(signal) => Mode::Unwind(signal.share()),
            Mode::Await { request, pending } => Mode::Await {
                request: request.share(),
                pending: pending.share(),
            },
        }
    }
}

/// What is left to do once the value of a subexpression, or the end of a
/// statement, is there.
#[derive(Debug)]
pub enum Frame {
    /// Assign the value.
    Assign(Rc<AssignExpr>),
    /// The value is the left operand: evaluate the right one.
    BinaryLeft(Rc<BinaryExpr>),
    /// The value is the right operand: apply the operator.
    BinaryRight { node: Rc<BinaryExpr>, left: Object },
    /// The value is the callee: evaluate the arguments.
    Callee(Rc<CallExpr>),
    /// The value is an argument; `done` holds the ones before it, the latest
    /// first, `rest` the expressions of the ones behind it.
    Argument { paren: Token, callee: Object, done: List<Object>, rest: List<Expr> },
    /// Read the property from the value.
    Get(Rc<GetExpr>),
    /// The value is the left operand of `and` or `or`.
    Logical(Rc<LogicalExpr>),
    /// The value is the object of a property write: evaluate what is
    /// written.
    SetObject(Rc<SetExpr>),
    /// Write the value to the field of the instance.
    SetValue { node: Rc<SetExpr>, instance: usize },
    /// The value is the condition: evaluate one branch.
    Ternary(Rc<TernaryExpr>),
    /// Apply the operator to the value.
    Unary(Rc<UnaryExpr>),
    /// Execute the statements, one after the other.
    Sequence(List<Stmt>),
    /// Leave the scope: go back to the environment `restore`.
    Scope { restore: usize },
    /// The boundary of a call: it takes up `return`, goes back to the
    /// environment `restore`, and gives the call's value.
    Call { kind: FunctionType, closure: usize, restore: usize },
    /// The initializer has run: the instance is the value.
    Construct { instance: usize },
    /// The value is the condition: execute one branch.
    If(Rc<IfStmt>),
    /// Print the value.
    Print,
    /// Return the value.
    Return,
    /// Define the variable with the value.
    Var(Rc<VarStmt>),
    /// The value is the condition of the loop.
    WhileCondition(Rc<WhileStmt>),
    /// The body has run: evaluate the condition again. Takes up `break` and
    /// `continue`.
    WhileBody(Rc<WhileStmt>),
}

/// The evaluator: the stores of environments, classes and instances, the
/// current environment, the scope distances that the resolver found, and
/// the work in progress.
pub struct Interpreter {
    pub global: usize,
    pub environment: usize,
    pub locals: Locals,
    pub environments: Vec<Environment>,
    pub classes: Vec<LoxClass>,
    pub instances: Vec<LoxInstance>,
    pub frames: Vec<Frame>,
    pub mode: Mode,
}

/// The token that a lookup of `this` points at where it fails.
pub open spec fn this_token() -> TokenView {
    TokenView {
        id: crate::token::TokenIdentity::This,
        value: crate::token::TokenValueView::String("this"@),
        line: 0,
        column: 0,
    }
}

/// The runtime error that points at `token` with `message`.
pub open spec fn is_error(x: RuntimeException, token: TokenView, message: Seq<char>) -> bool {
    x matches RuntimeException::Error(error) && error@ == (Fault { token, message })
}

impl Interpreter {
    /// Every table of the stores is well formed.
    pub open spec fn wf(self) -> bool {
        &&& tables_wf(self.environments@)
        &&& classes_wf(self.classes@)
        &&& instances_wf(self.instances@)
    }

    /// `post` has the stores, the distances and the global environment of
    /// `self`.
    pub open spec fn keeps_store(self, post: Interpreter) -> bool {
        &&& post.global == self.global
        &&& post.locals == self.locals
        &&& post.environments == self.environments
        &&& post.classes == self.classes
        &&& post.instances == self.instances
    }

    /// Only the work in progress changed: the frames are `frames`, in the
    /// same environment.
    pub open spec fn keeps_all(self, post: Interpreter, frames: Seq<Frame>) -> bool {
        &&& self.keeps_store(post)
        &&& post.environment == self.environment
        &&& post.frames@ == frames
    }

    /// The evaluator goes on in `mode`, on the frames `frames`.
    pub open spec fn goes(self, post: Interpreter, frames: Seq<Frame>, mode: Mode) -> bool {
        self.keeps_all(post, frames) && post.mode == mode
    }

    /// The evaluator stops with an error, on the frames `frames`.
    pub open spec fn raises(
        self,
        post: Interpreter,
        frames: Seq<Frame>,
        token: TokenView,
        message: Seq<char>,
    ) -> bool {
        &&& self.keeps_all(post, frames)
        &&& post.mode matches Mode::Unwind(x)
        &&& is_error(x, token, message)
    }

    /// The evaluator asks its host for `request` and waits, on the frames
    /// `frames`.
    pub open spec fn asks(
        self,
        post: Interpreter,
        frames: Seq<Frame>,
        action: Action,
        request: Request,
        pending: Pending,
    ) -> bool {
        &&& self.keeps_all(post, frames)
        &&& post.mode == (Mode::Await { request, pending })
        &&& action == Action::Ask(request)
    }

    /// The value or the signal that a result stands for is what the
    /// evaluator goes on with.
    pub open spec fn settles(mode: Mode, r: Result<Object, RuntimeException>) -> bool {
        match r {
            Ok(value) => mode == Mode::Value(value),
            Err(x) => mode == Mode::Unwind(x),
        }
    }

    /// The result that a mode stands for, where it is a value or a signal.
    pub open spec fn outcome(mode: Mode) -> Result<Object, RuntimeException> {
        match mode {
            Mode::Value(value) => Ok(value),
            Mode::Unwind(x) => Err(x),
            _ => Ok(Object::Undefined),
        }
    }

    /// The mode is a value or a signal.
    pub open spec fn settled(mode: Mode) -> bool {
        mode is Value || mode is Unwind
    }
}

} // verus!
