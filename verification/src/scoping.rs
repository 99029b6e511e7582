//! The scope rules as a function on syntax trees: what the resolver
//! computes.

use vstd::prelude::*;
use std::rc::Rc;
use crate::error::Fault;
use crate::expr::{Expr, VariableExpr};
use crate::function::FunctionType;
use crate::list::List;
use crate::stmt::{BlockStmt, ClassStmt, FunctionStmt, Stmt};
use crate::token::Token;

verus! {

/// Whether the code being resolved is inside a class, and one with a
/// superclass.
#[derive(Clone, Copy, Debug, PartialEq, Eq, Structural)]
pub enum ClassType {
    NoClass,
    Class,
    Subclass,
}

/// The name under which a token is declared and looked up.
pub open spec fn key(name: Token) -> Seq<char> {
    name.value@.text()
}

/// How many scopes lie between the innermost one and the innermost one that
/// holds `name`; `None` where no scope holds it.
pub open spec fn distance(scopes: Seq<Map<Seq<char>, bool>>, name: Seq<char>) -> Option<nat>
    decreases scopes.len(),
{
    if scopes.len() == 0 {
        None
    } else if scopes.last().contains_key(name) {
        Some(0)
    } else {
        match distance(scopes.drop_last(), name) {
            Some(d) => Some(d + 1),
            None => None,
        }
    }
}

/// The state of the resolver: the stack of scopes, innermost last, where
/// `false` marks a name that is declared and not yet defined; the kind of
/// the enclosing function and class; and the scope distances found so far,
/// by node.
pub struct Scoping {
    pub scopes: Seq<Map<Seq<char>, bool>>,
    pub function: FunctionType,
    pub class: ClassType,
    pub locals: Map<u64, usize>,
}

impl Scoping {
    pub open spec fn begin(self) -> Scoping {
        Scoping { scopes: self.scopes.push(Map::empty()), ..self }
    }

    pub open spec fn end(self) -> Scoping {
        if self.scopes.len() > 0 {
            Scoping { scopes: self.scopes.drop_last(), ..self }
        } else {
            self
        }
    }

    /// Enters `name` into the innermost scope.
    pub open spec fn bind(self, name: Seq<char>, defined: bool) -> Scoping {
        if self.scopes.len() > 0 {
            Scoping {
                scopes: self.scopes.update(
                    self.scopes.len() - 1,
                    self.scopes.last().insert(name, defined),
                ),
                ..self
            }
        } else {
            self
        }
    }

    /// Declares a name; declaring it twice in one scope is an error.
    pub open spec fn declare(self, name: Token) -> Result<Scoping, Fault> {
        if self.scopes.len() > 0 && self.scopes.last().contains_key(key(name)) {
            Err(
                Fault {
                    token: name@,
                    message: "Already a variable with this name in this scope."@,
                },
            )
        } else {
            Ok(self.bind(key(name), false))
        }
    }

    pub open spec fn define(self, name: Token) -> Scoping {
        self.bind(key(name), true)
    }

    /// Files the scope distance of `name` under `id`, where a scope holds
    /// the name.
    pub open spec fn resolve_local(self, id: u64, name: Token) -> Scoping {
        match distance(self.scopes, key(name)) {
            Some(d) => Scoping { locals: self.locals.insert(id, d as usize), ..self },
            None => self,
        }
    }

    pub open spec fn with_function(self, function: FunctionType) -> Scoping {
        Scoping { function, ..self }
    }

    pub open spec fn with_class(self, class: ClassType) -> Scoping {
        Scoping { class, ..self }
    }

    /// Declares and defines each parameter in turn.
    pub open spec fn parameters(self, params: List<Token>) -> Result<Scoping, Fault>
        decreases params,
    {
        match params {
            List::Nil => Ok(self),
            List::Cons(node) => match self.declare(node.head) {
                Ok(s) => s.define(node.head).parameters(node.tail),
                Err(f) => Err(f),
            },
        }
    }

    /// A variable read: an error where the innermost scope holds the name
    /// as declared and not yet defined.
    pub open spec fn variable(self, variable: VariableExpr) -> Result<Scoping, Fault> {
        if self.scopes.len() > 0 && self.scopes.last().contains_key(key(variable.name))
            && !self.scopes.last()[key(variable.name)] {
            Err(
                Fault {
                    token: variable.name@,
                    message: "Can't read local variable in its own initializer."@,
                },
            )
        } else {
            Ok(self.resolve_local(variable.id, variable.name))
        }
    }

    pub open spec fn expr(self, e: Expr) -> Result<Scoping, Fault>
        decreases e,
    {
        match e {
            Expr::Assign(a) => match self.expr(a.value) {
                Ok(s) => Ok(s.resolve_local(a.id, a.name)),
                Err(f) => Err(f),
            },
            Expr::Binary(b) => match self.expr(b.left) {
                Ok(s) => s.expr(b.right),
                Err(f) => Err(f),
            },
            Expr::Call(c) => match self.expr(c.callee) {
                Ok(s) => s.exprs(c.arguments),
                Err(f) => Err(f),
            },
            Expr::Get(g) => self.expr(g.object),
            Expr::Grouping(g) => self.expr(g.expression),
            Expr::Lambda(l) => self.callable(FunctionType::Function, l.params, l.body),
            Expr::Literal(_) => Ok(self),
            Expr::Logical(l) => match self.expr(l.left) {
                Ok(s) => s.expr(l.right),
                Err(f) => Err(f),
            },
            Expr::SetProperty(p) => match self.expr(p.value) {
                Ok(s) => s.expr(p.object),
                Err(f) => Err(f),
            },
            Expr::Super(s) => if self.class == ClassType::NoClass {
                Err(Fault { token: s.keyword@, message: "Can't use 'super' outside of a class."@ })
            } else if self.class != ClassType::Subclass {
                Err(
                    Fault {
                        token: s.keyword@,
                        message: "Can't use 'super' in a class with no superclass."@,
                    },
                )
            } else {
                Ok(self.resolve_local(s.id, s.keyword))
            },
            Expr::This(t) => if self.class == ClassType::NoClass {
                Err(Fault { token: t.keyword@, message: "Can't use 'this' outside of a class."@ })
            } else {
                Ok(self.resolve_local(t.id, t.keyword))
            },
            Expr::Ternary(t) => match self.expr(t.condition) {
                Ok(s) => match s.expr(t.then_branch) {
                    Ok(s) => s.expr(t.else_branch),
                    Err(f) => Err(f),
                },
                Err(f) => Err(f),
            },
            Expr::Unary(u) => self.expr(u.right),
            Expr::Variable(v) => self.variable(*v),
        }
    }

    pub open spec fn exprs(self, es: List<Expr>) -> Result<Scoping, Fault>
        decreases es,
    {
        match es {
            List::Nil => Ok(self),
            List::Cons(node) => match self.expr(node.head) {
                Ok(s) => s.exprs(node.tail),
                Err(f) => Err(f),
            },
        }
    }

    /// A function or lambda: its parameters and body share one new scope.
    pub open spec fn callable(self, kind: FunctionType, params: List<Token>, body: BlockStmt) -> Result<
        Scoping,
        Fault,
    >
        decreases body,
    {
        match self.with_function(kind).begin().parameters(params) {
            Ok(s) => match s.stmts(body.statements) {
                Ok(s) => Ok(s.end().with_function(self.function)),
                Err(f) => Err(f),
            },
            Err(f) => Err(f),
        }
    }

    pub open spec fn functions(self, fs: List<Rc<FunctionStmt>>) -> Result<Scoping, Fault>
        decreases fs,
    {
        match fs {
            List::Nil => Ok(self),
            List::Cons(node) => match self.callable(node.head.kind, node.head.params, node.head.body) {
                Ok(s) => s.functions(node.tail),
                Err(f) => Err(f),
            },
        }
    }

    /// A block: its statements in a new scope.
    pub open spec fn block(self, b: BlockStmt) -> Result<Scoping, Fault>
        decreases b,
    {
        match self.begin().stmts(b.statements) {
            Ok(s) => Ok(s.end()),
            Err(f) => Err(f),
        }
    }

    /// A class: the name is declared and defined; a superclass opens a
    /// scope that holds `super`; methods and getters see a scope that holds
    /// `this`, static methods an empty one.
    pub open spec fn class(self, c: ClassStmt) -> Result<Scoping, Fault>
        decreases c,
    {
        match self.with_class(ClassType::Class).declare(c.name) {
            Err(f) => Err(f),
            Ok(s) => {
                let s = s.define(c.name);
                let named: Result<Scoping, Fault> = match c.superclass {
                    Some(superclass) => if c.name.value@ == superclass.name.value@ {
                        Err(
                            Fault {
                                token: superclass.name@,
                                message: "A class cannot inherit from itself."@,
                            },
                        )
                    } else {
                        match s.with_class(ClassType::Subclass).variable(*superclass) {
                            Ok(s) => Ok(s.begin().bind("super"@, true)),
                            Err(f) => Err(f),
                        }
                    },
                    None => Ok(s),
                };
                match named {
                    Err(f) => Err(f),
                    Ok(s) => match s.begin().bind("this"@, true).functions(c.methods) {
                        Err(f) => Err(f),
                        Ok(s) => match s.functions(c.getter_methods) {
                            Err(f) => Err(f),
                            Ok(s) => match s.end().begin().functions(c.static_methods) {
                                Err(f) => Err(f),
                                Ok(s) => {
                                    let s = s.end();
                                    let s = if c.superclass is Some {
                                        s.end()
                                    } else {
                                        s
                                    };
                                    Ok(s.with_class(self.class))
                                },
                            },
                        },
                    },
                }
            },
        }
    }

    pub open spec fn stmt(self, statement: Stmt) -> Result<Scoping, Fault>
        decreases statement,
    {
        match statement {
            Stmt::Block(b) => self.block(*b),
            Stmt::Break => Ok(self),
            Stmt::Continue => Ok(self),
            Stmt::Class(c) => self.class(*c),
            Stmt::Expression(e) => self.expr(e.expr),
            Stmt::Function(f) => match self.declare(f.name) {
                Ok(s) => s.define(f.name).callable(f.kind, f.params, f.body),
                Err(e) => Err(e),
            },
            Stmt::If(i) => match self.expr(i.condition) {
                Err(f) => Err(f),
                Ok(s) => match s.block(i.then_branch) {
                    Err(f) => Err(f),
                    Ok(s) => match i.else_branch {
                        Some(else_branch) => s.block(else_branch),
                        None => Ok(s),
                    },
                },
            },
            Stmt::Print(p) => self.expr(p.expr),
            Stmt::Return(r) => if self.function == FunctionType::NoFunction {
                Err(Fault { token: r.keyword@, message: "Cannot return from top-level code."@ })
            } else {
                match r.value {
                    Some(value) => if self.function == FunctionType::Initializer {
                        Err(
                            Fault {
                                token: r.keyword@,
                                message: "Cannot return a value from an initializer."@,
                            },
                        )
                    } else {
                        self.expr(value)
                    },
                    None => Ok(self),
                }
            },
            Stmt::Var(v) => match self.declare(v.name) {
                Err(f) => Err(f),
                Ok(s) => match v.initializer {
                    Some(initializer) => match s.expr(initializer) {
                        Ok(s) => Ok(s.define(v.name)),
                        Err(f) => Err(f),
                    },
                    None => Ok(s.define(v.name)),
                },
            },
            Stmt::While(w) => match self.expr(w.condition) {
                Ok(s) => s.block(w.body),
                Err(f) => Err(f),
            },
        }
    }

    pub open spec fn stmts(self, statements: List<Stmt>) -> Result<Scoping, Fault>
        decreases statements,
    {
        match statements {
            List::Nil => Ok(self),
            List::Cons(node) => match self.stmt(node.head) {
                Ok(s) => s.stmts(node.tail),
                Err(f) => Err(f),
            },
        }
    }
}

} // verus!
