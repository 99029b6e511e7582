//! The grammar as a function from token sequences to syntax trees.
//!
//! Every function takes the offset at which its phrase starts and yields
//! either the tree with the offset behind the phrase, or the first error.
//! The result of a sub-phrase counts only where it ends behind its start
//! and within the tokens (see [`Grammar::step`]), which makes it plain that
//! the functions end; that every phrase does so is shown in
//! [`crate::progress`].

use vstd::prelude::*;
use std::rc::Rc;
use crate::error::Fault;
use crate::expr::{
    AssignExpr, BinaryExpr, CallExpr, Expr, GetExpr, GroupingExpr, LambdaExpr, LiteralExpr,
    LogicalExpr, SetExpr, SuperExpr, TernaryExpr, ThisExpr, UnaryExpr, VariableExpr,
};
use crate::function::FunctionType;
use crate::list::{List, Node};
use crate::stmt::{
    BlockStmt, ClassStmt, ExpressionStmt, FunctionStmt, IfStmt, PrintStmt, ReturnStmt, Stmt,
    VarStmt, WhileStmt,
};
use crate::token::{Token, TokenIdentity, TokenValue, TokenValueView};

verus! {

/// The outcome of parsing one phrase.
pub enum Parsed<T> {
    /// The tree, and the offset behind the phrase.
    Done { value: T, end: int },
    /// The first error.
    Failed(Fault),
}

/// The three method lists of a class body.
pub struct Members {
    pub methods: List<Rc<FunctionStmt>>,
    pub static_methods: List<Rc<FunctionStmt>>,
    pub getter_methods: List<Rc<FunctionStmt>>,
}

/// The levels of left-associative binary operators, loosest first.
#[derive(Clone, Copy, Debug, PartialEq, Eq, Structural)]
pub enum Level {
    Or,
    And,
    Equality,
    Comparison,
    Term,
    Factor,
}

impl Level {
    /// How tightly the level binds; also its place in the order of descent.
    pub open spec fn rank(self) -> int {
        match self {
            Level::Or => 32,
            Level::And => 30,
            Level::Equality => 28,
            Level::Comparison => 26,
            Level::Term => 24,
            Level::Factor => 22,
        }
    }

    /// Whether `id` is an operator of the level.
    pub open spec fn has(self, id: TokenIdentity) -> bool {
        match self {
            Level::Or => id == TokenIdentity::Or,
            Level::And => id == TokenIdentity::And,
            Level::Equality => id == TokenIdentity::BangEqual || id == TokenIdentity::EqualEqual,
            Level::Comparison => id == TokenIdentity::Greater || id == TokenIdentity::GreaterEqual
                || id == TokenIdentity::Less || id == TokenIdentity::LessEqual,
            Level::Term => id == TokenIdentity::Minus || id == TokenIdentity::Plus,
            Level::Factor => id == TokenIdentity::Slash || id == TokenIdentity::Star,
        }
    }

    /// The node that joins two operands at the level.
    pub open spec fn join(self, left: Expr, operator: Token, right: Expr) -> Expr {
        match self {
            Level::Or | Level::And => Expr::Logical(
                Rc::new(LogicalExpr { left, operator, right }),
            ),
            _ => Expr::Binary(Rc::new(BinaryExpr { left, operator, right })),
        }
    }
}

/// `head` in front of the list that `rest` holds.
pub open spec fn cons_onto<T>(head: T, rest: Parsed<List<T>>) -> Parsed<List<T>> {
    match rest {
        Parsed::Done { value, end } => Parsed::Done {
            value: List::Cons(Rc::new(Node { head, tail: value })),
            end,
        },
        Parsed::Failed(f) => Parsed::Failed(f),
    }
}

/// The elements of `front` in front of the list that `rest` holds.
pub open spec fn graft<T>(front: Seq<T>, rest: Parsed<List<T>>) -> Parsed<List<T>> {
    match rest {
        Parsed::Done { value, end } => Parsed::Done { value: List::of(front + value@), end },
        Parsed::Failed(f) => Parsed::Failed(f),
    }
}

/// Grafting onto a list with a head is grafting one element more onto its
/// tail.
pub proof fn lemma_graft_step<T>(front: Seq<T>, head: T, rest: Parsed<List<T>>)
    ensures
        graft(front, cons_onto(head, rest)) == graft(front.push(head), rest),
{
    match rest {
        Parsed::Done { value, end } => {
            let whole = List::Cons(Rc::new(Node { head, tail: value }));
            assert(whole@ =~= seq![head] + value@);
            assert(front + whole@ =~= front.push(head) + value@);
        },
        Parsed::Failed(_) => {},
    }
}

/// Grafting nothing changes nothing.
pub proof fn lemma_graft_nothing<T>(rest: Parsed<List<T>>)
    ensures
        graft(Seq::empty(), rest) == rest,
{
    match rest {
        Parsed::Done { value, end } => {
            assert(Seq::<T>::empty() + value@ =~= value@);
            List::lemma_view_of(&value);
        },
        Parsed::Failed(_) => {},
    }
}

/// The list of the elements of `list` followed by `last`.
pub open spec fn with_last<T>(list: List<T>, last: T) -> List<T> {
    List::of(list@.push(last))
}

/// A `for` loop written with `while`: the increment ends the body, the
/// condition defaults to `true`, and the initializer opens a block of its own.
pub open spec fn desugared_for(
    initializer: Option<Stmt>,
    condition: Option<Expr>,
    increment: Option<Expr>,
    body: BlockStmt,
) -> Stmt {
    let body = match increment {
        Some(increment) => BlockStmt {
            statements: with_last(
                body.statements,
                Stmt::Expression(Rc::new(ExpressionStmt { expr: increment })),
            ),
        },
        None => body,
    };
    let condition = match condition {
        Some(condition) => condition,
        None => Expr::Literal(Rc::new(LiteralExpr { value: TokenValue::Bool(true) })),
    };
    let looping = Stmt::While(Rc::new(WhileStmt { condition, body }));
    match initializer {
        Some(initializer) => Stmt::Block(
            Rc::new(
                BlockStmt {
                    statements: List::Cons(
                        Rc::new(
                            Node {
                                head: initializer,
                                tail: List::Cons(Rc::new(Node { head: looping, tail: List::Nil })),
                            },
                        ),
                    ),
                },
            ),
        ),
        None => looping,
    }
}

/// The tokens that a parser works on, and the number of its first node.
pub struct Grammar {
    pub tokens: Seq<Token>,
    pub first: u64,
}

impl Grammar {
    /// The tokens end with the end-of-input token, and node numbers fit.
    pub open spec fn wf(self) -> bool {
        &&& self.tokens.len() > 0
        &&& self.tokens.last().id == TokenIdentity::Eof
        &&& self.first + self.tokens.len() <= u64::MAX
    }

    pub open spec fn valid(self, p: int) -> bool {
        0 <= p < self.tokens.len()
    }

    pub open spec fn at_end(self, p: int) -> bool {
        self.tokens[p].id == TokenIdentity::Eof
    }

    /// Whether the token at `p` is an `id`; never so at the end of input.
    pub open spec fn check(self, p: int, id: TokenIdentity) -> bool {
        !self.at_end(p) && self.tokens[p].id == id
    }

    /// Whether a token stands before `p` and is an `id`.
    pub open spec fn previous_is(self, p: int, id: TokenIdentity) -> bool {
        p > 0 && self.tokens[p - 1].id == id
    }

    /// The number of the node whose naming token stands at `index`.
    pub open spec fn node(self, index: int) -> u64 {
        (self.first + index) as u64
    }

    pub open spec fn fail<T>(self, p: int, message: Seq<char>) -> Parsed<T> {
        Parsed::Failed(Fault { token: self.tokens[p]@, message })
    }

    /// The token at `p` where it is an `id`, else an error that points at it.
    pub open spec fn consume(self, p: int, id: TokenIdentity, message: Seq<char>) -> Parsed<Token> {
        if self.check(p, id) {
            Parsed::Done { value: self.tokens[p], end: p + 1 }
        } else {
            self.fail(p, message)
        }
    }

    /// `r` where it made progress from `from` and ended within the tokens.
    pub open spec fn step<T>(self, from: int, r: Parsed<T>) -> Parsed<T> {
        match r {
            Parsed::Done { value, end } => if from < end < self.tokens.len() {
                r
            } else {
                Parsed::Failed(Fault { token: self.tokens[from]@, message: Seq::empty() })
            },
            Parsed::Failed(_) => r,
        }
    }

    /// Parameter names up to and including the closing parenthesis, at most
    /// 255 of them; `count` names came before.
    pub open spec fn more_parameters(self, p: int, count: nat) -> Parsed<List<Token>>
        decreases self.tokens.len() - p,
        when self.wf() && self.valid(p)
    {
        if count >= 255 {
            self.fail(p, "Can't have more than 255 parameters."@)
        } else {
            match self.consume(p, TokenIdentity::Identifier, "Expect parameter name."@) {
                Parsed::Failed(f) => Parsed::Failed(f),
                Parsed::Done { value: name, end: e1 } => if self.check(e1, TokenIdentity::Comma) {
                    match self.more_parameters(e1 + 1, count + 1) {
                        Parsed::Failed(f) => Parsed::Failed(f),
                        Parsed::Done { value: rest, end } => Parsed::Done {
                            value: List::Cons(Rc::new(Node { head: name, tail: rest })),
                            end,
                        },
                    }
                } else {
                    match self.consume(
                        e1,
                        TokenIdentity::RightParen,
                        "Expect ')' after parameters."@,
                    ) {
                        Parsed::Failed(f) => Parsed::Failed(f),
                        Parsed::Done { end, .. } => Parsed::Done {
                            value: List::Cons(Rc::new(Node { head: name, tail: List::Nil })),
                            end,
                        },
                    }
                },
            }
        }
    }

    /// A parameter list behind its opening parenthesis.
    pub open spec fn parameters(self, p: int) -> Parsed<List<Token>> {
        if self.check(p, TokenIdentity::RightParen) {
            Parsed::Done { value: List::Nil, end: p + 1 }
        } else {
            self.more_parameters(p, 0)
        }
    }

    /// `declaration*` up to the end of input.
    pub open spec fn program(self, p: int) -> Parsed<List<Stmt>>
        decreases self.tokens.len() - p, 73int,
        when self.wf() && self.valid(p)
    {
        if self.at_end(p) {
            Parsed::Done { value: List::Nil, end: p }
        } else {
            match self.step(p, self.declaration(p, false)) {
                Parsed::Failed(f) => Parsed::Failed(f),
                Parsed::Done { value: first, end: e1 } => cons_onto(first, self.program(e1)),
            }
        }
    }

    /// `declaration*` up to a closing brace or the end of input.
    pub open spec fn items(self, p: int, in_loop: bool) -> Parsed<List<Stmt>>
        decreases self.tokens.len() - p, 71int,
        when self.wf() && self.valid(p)
    {
        if self.check(p, TokenIdentity::RightBrace) || self.at_end(p) {
            Parsed::Done { value: List::Nil, end: p }
        } else {
            match self.step(p, self.declaration(p, in_loop)) {
                Parsed::Failed(f) => Parsed::Failed(f),
                Parsed::Done { value: first, end: e1 } => cons_onto(
                    first,
                    self.items(e1, in_loop),
                ),
            }
        }
    }

    /// A block behind its opening brace.
    pub open spec fn block(self, p: int, in_loop: bool) -> Parsed<BlockStmt>
        decreases self.tokens.len() - p, 72int,
        when self.wf() && self.valid(p)
    {
        match self.items(p, in_loop) {
            Parsed::Failed(f) => Parsed::Failed(f),
            Parsed::Done { value: statements, end: e1 } => match self.consume(
                e1,
                TokenIdentity::RightBrace,
                "Expect '}' after block."@,
            ) {
                Parsed::Failed(f) => Parsed::Failed(f),
                Parsed::Done { end, .. } => Parsed::Done { value: BlockStmt { statements }, end },
            },
        }
    }

    /// `classDecl | funDecl | varDecl | statement`. A `fun` that no name
    /// follows is passed over: what follows is a declaration or a statement,
    /// or the lambda that the `fun` opens.
    pub open spec fn declaration(self, p: int, in_loop: bool) -> Parsed<Stmt>
        decreases self.tokens.len() - p, 70int,
        when self.wf() && self.valid(p)
    {
        if self.check(p, TokenIdentity::Class) {
            match self.class_declaration(p + 1) {
                Parsed::Failed(f) => Parsed::Failed(f),
                Parsed::Done { value, end } => Parsed::Done {
                    value: Stmt::Class(Rc::new(value)),
                    end,
                },
            }
        } else if self.check(p, TokenIdentity::Fun) && self.check(
            p + 1,
            TokenIdentity::Identifier,
        ) {
            match self.function(p + 1, FunctionType::Function) {
                Parsed::Failed(f) => Parsed::Failed(f),
                Parsed::Done { value, end } => Parsed::Done {
                    value: Stmt::Function(Rc::new(value)),
                    end,
                },
            }
        } else {
            let e1 = if self.check(p, TokenIdentity::Fun) {
                p + 1
            } else {
                p
            };
            if self.check(e1, TokenIdentity::Var) {
                match self.var_declaration(e1 + 1) {
                    Parsed::Failed(f) => Parsed::Failed(f),
                    Parsed::Done { value, end } => Parsed::Done {
                        value: Stmt::Var(Rc::new(value)),
                        end,
                    },
                }
            } else {
                self.statement(e1, in_loop)
            }
        }
    }

    /// A class behind the keyword `class`.
    pub open spec fn class_declaration(self, p: int) -> Parsed<ClassStmt>
        decreases self.tokens.len() - p, 68int,
        when self.wf() && self.valid(p)
    {
        match self.consume(p, TokenIdentity::Identifier, "Expect class name."@) {
            Parsed::Failed(f) => Parsed::Failed(f),
            Parsed::Done { value: name, end: e1 } => {
                let superclass: Parsed<Option<Rc<VariableExpr>>> = if self.check(
                    e1,
                    TokenIdentity::Less,
                ) {
                    match self.consume(
                        e1 + 1,
                        TokenIdentity::Identifier,
                        "Expect superclass name."@,
                    ) {
                        Parsed::Failed(f) => Parsed::Failed(f),
                        Parsed::Done { value, end } => Parsed::Done {
                            value: Some(
                                Rc::new(VariableExpr { id: self.node(e1 + 1), name: value }),
                            ),
                            end,
                        },
                    }
                } else {
                    Parsed::Done { value: None, end: e1 }
                };
                match superclass {
                    Parsed::Failed(f) => Parsed::Failed(f),
                    Parsed::Done { value: superclass, end: e2 } => match self.consume(
                        e2,
                        TokenIdentity::LeftBrace,
                        "Expect '{' before class body."@,
                    ) {
                        Parsed::Failed(f) => Parsed::Failed(f),
                        Parsed::Done { end: e3, .. } => match self.members(e3) {
                            Parsed::Failed(f) => Parsed::Failed(f),
                            Parsed::Done { value: members, end: e4 } => match self.consume(
                                e4,
                                TokenIdentity::RightBrace,
                                "Expect '}' after class body."@,
                            ) {
                                Parsed::Failed(f) => Parsed::Failed(f),
                                Parsed::Done { end, .. } => Parsed::Done {
                                    value: ClassStmt {
                                        name,
                                        superclass,
                                        methods: members.methods,
                                        static_methods: members.static_methods,
                                        getter_methods: members.getter_methods,
                                    },
                                    end,
                                },
                            },
                        },
                    },
                }
            },
        }
    }

    /// The members of a class body, up to its closing brace: a member behind
    /// `class` is static; one without a parameter list is a getter.
    pub open spec fn members(self, p: int) -> Parsed<Members>
        decreases self.tokens.len() - p, 67int,
        when self.wf() && self.valid(p)
    {
        if self.check(p, TokenIdentity::RightBrace) || self.at_end(p) {
            Parsed::Done {
                value: Members {
                    methods: List::Nil,
                    static_methods: List::Nil,
                    getter_methods: List::Nil,
                },
                end: p,
            }
        } else if self.check(p, TokenIdentity::Class) {
            match self.step(p, self.function(p + 1, FunctionType::StaticMethod)) {
                Parsed::Failed(f) => Parsed::Failed(f),
                Parsed::Done { value: member, end: e1 } => match self.members(e1) {
                    Parsed::Failed(f) => Parsed::Failed(f),
                    Parsed::Done { value: rest, end } => Parsed::Done {
                        value: Members {
                            methods: rest.methods,
                            static_methods: List::Cons(
                                Rc::new(Node { head: Rc::new(member), tail: rest.static_methods }),
                            ),
                            getter_methods: rest.getter_methods,
                        },
                        end,
                    },
                },
            }
        } else {
            match self.step(p, self.function(p, FunctionType::Method)) {
                Parsed::Failed(f) => Parsed::Failed(f),
                Parsed::Done { value: member, end: e1 } => match self.members(e1) {
                    Parsed::Failed(f) => Parsed::Failed(f),
                    Parsed::Done { value: rest, end } => Parsed::Done {
                        value: if member.kind == FunctionType::GetterMethod {
                            Members {
                                methods: rest.methods,
                                static_methods: rest.static_methods,
                                getter_methods: List::Cons(
                                    Rc::new(
                                        Node { head: Rc::new(member), tail: rest.getter_methods },
                                    ),
                                ),
                            }
                        } else {
                            Members {
                                methods: List::Cons(
                                    Rc::new(Node { head: Rc::new(member), tail: rest.methods }),
                                ),
                                static_methods: rest.static_methods,
                                getter_methods: rest.getter_methods,
                            }
                        },
                        end,
                    },
                },
            }
        }
    }

    /// The kind that a function of declared kind `kind` gets: a getter where
    /// it has no parameter list, else an initializer where it is named
    /// `init`.
    pub open spec fn kind_of(name: Token, getter: bool, kind: FunctionType) -> FunctionType {
        if getter {
            FunctionType::GetterMethod
        } else if name.value@ == TokenValueView::String("init"@) {
            FunctionType::Initializer
        } else {
            kind
        }
    }

    /// A function from its name on.
    pub open spec fn function(self, p: int, kind: FunctionType) -> Parsed<FunctionStmt>
        decreases self.tokens.len() - p, 66int,
        when self.wf() && self.valid(p)
    {
        match self.consume(
            p,
            TokenIdentity::Identifier,
            "Expect "@ + kind.text() + " name."@,
        ) {
            Parsed::Failed(f) => Parsed::Failed(f),
            Parsed::Done { value: name, end: e1 } => {
                let getter = kind == FunctionType::Method && self.check(
                    e1,
                    TokenIdentity::LeftBrace,
                );
                let kind = Self::kind_of(name, getter, kind);
                let params: Parsed<List<Token>> = if getter {
                    Parsed::Done { value: List::Nil, end: e1 }
                } else {
                    match self.consume(
                        e1,
                        TokenIdentity::LeftParen,
                        "Expect '(' after "@ + kind.text() + " name."@,
                    ) {
                        Parsed::Failed(f) => Parsed::Failed(f),
                        Parsed::Done { end, .. } => self.step(e1, self.parameters(end)),
                    }
                };
                match params {
                    Parsed::Failed(f) => Parsed::Failed(f),
                    Parsed::Done { value: params, end: e2 } => match self.consume(
                        e2,
                        TokenIdentity::LeftBrace,
                        "Expect '{' before "@ + kind.text() + " body."@,
                    ) {
                        Parsed::Failed(f) => Parsed::Failed(f),
                        Parsed::Done { end: e3, .. } => match self.block(e3, false) {
                            Parsed::Failed(f) => Parsed::Failed(f),
                            Parsed::Done { value: body, end } => Parsed::Done {
                                value: FunctionStmt { name, params, body, kind },
                                end,
                            },
                        },
                    },
                }
            },
        }
    }

    /// A variable declaration behind the keyword `var`.
    pub open spec fn var_declaration(self, p: int) -> Parsed<VarStmt>
        decreases self.tokens.len() - p, 65int,
        when self.wf() && self.valid(p)
    {
        match self.consume(p, TokenIdentity::Identifier, "Expect variable name."@) {
            Parsed::Failed(f) => Parsed::Failed(f),
            Parsed::Done { value: name, end: e1 } => {
                let initializer: Parsed<Option<Expr>> = if self.check(e1, TokenIdentity::Equal) {
                    match self.step(e1, self.expression(e1 + 1)) {
                        Parsed::Failed(f) => Parsed::Failed(f),
                        Parsed::Done { value, end } => Parsed::Done { value: Some(value), end },
                    }
                } else {
                    Parsed::Done { value: None, end: e1 }
                };
                match initializer {
                    Parsed::Failed(f) => Parsed::Failed(f),
                    Parsed::Done { value: initializer, end: e2 } => match self.consume(
                        e2,
                        TokenIdentity::Semicolon,
                        "Expect ';' after variable declaration."@,
                    ) {
                        Parsed::Failed(f) => Parsed::Failed(f),
                        Parsed::Done { end, .. } => Parsed::Done {
                            value: VarStmt { name, initializer },
                            end,
                        },
                    },
                }
            },
        }
    }

    /// A statement. `break` and `continue` are errors outside a loop body.
    pub open spec fn statement(self, p: int, in_loop: bool) -> Parsed<Stmt>
        decreases self.tokens.len() - p, 69int,
        when self.wf() && self.valid(p)
    {
        if self.check(p, TokenIdentity::For) {
            self.for_statement(p + 1)
        } else if self.check(p, TokenIdentity::Print) {
            self.print_statement(p + 1)
        } else if self.check(p, TokenIdentity::Return) {
            self.return_statement(p + 1)
        } else if self.check(p, TokenIdentity::While) {
            self.while_statement(p + 1)
        } else if self.check(p, TokenIdentity::If) {
            self.if_statement(p + 1, in_loop)
        } else if self.check(p, TokenIdentity::LeftBrace) {
            match self.block(p + 1, in_loop) {
                Parsed::Failed(f) => Parsed::Failed(f),
                Parsed::Done { value, end } => Parsed::Done {
                    value: Stmt::Block(Rc::new(value)),
                    end,
                },
            }
        } else if self.check(p, TokenIdentity::Break) {
            if !in_loop {
                self.fail(p, "Can only use 'break' inside loops."@)
            } else {
                match self.consume(p + 1, TokenIdentity::Semicolon, "Expect ';' after break."@) {
                    Parsed::Failed(f) => Parsed::Failed(f),
                    Parsed::Done { end, .. } => Parsed::Done { value: Stmt::Break, end },
                }
            }
        } else if self.check(p, TokenIdentity::Continue) {
            if !in_loop {
                self.fail(p, "Can only use 'continue' inside loops."@)
            } else {
                match self.consume(
                    p + 1,
                    TokenIdentity::Semicolon,
                    "Expect ';' after continue."@,
                ) {
                    Parsed::Failed(f) => Parsed::Failed(f),
                    Parsed::Done { end, .. } => Parsed::Done { value: Stmt::Continue, end },
                }
            }
        } else {
            self.expression_statement(p)
        }
    }

    /// The first clause of a `for`: nothing, a declaration, or an
    /// expression statement.
    pub open spec fn for_initializer(self, p: int) -> Parsed<Option<Stmt>>
        decreases self.tokens.len() - p, 64int,
        when self.wf() && self.valid(p)
    {
        if self.check(p, TokenIdentity::Semicolon) {
            Parsed::Done { value: None, end: p + 1 }
        } else if self.check(p, TokenIdentity::Var) {
            match self.var_declaration(p + 1) {
                Parsed::Failed(f) => Parsed::Failed(f),
                Parsed::Done { value, end } => Parsed::Done {
                    value: Some(Stmt::Var(Rc::new(value))),
                    end,
                },
            }
        } else {
            match self.expression_statement(p) {
                Parsed::Failed(f) => Parsed::Failed(f),
                Parsed::Done { value, end } => Parsed::Done { value: Some(value), end },
            }
        }
    }

    /// An expression that may be left out before the token `closing`, which
    /// must follow.
    pub open spec fn optional_expression(
        self,
        p: int,
        closing: TokenIdentity,
        message: Seq<char>,
    ) -> Parsed<Option<Expr>>
        decreases self.tokens.len() - p, 63int,
        when self.wf() && self.valid(p)
    {
        let inner: Parsed<Option<Expr>> = if self.check(p, closing) {
            Parsed::Done { value: None, end: p }
        } else {
            match self.step(p, self.expression(p)) {
                Parsed::Failed(f) => Parsed::Failed(f),
                Parsed::Done { value, end } => Parsed::Done { value: Some(value), end },
            }
        };
        match inner {
            Parsed::Failed(f) => Parsed::Failed(f),
            Parsed::Done { value, end: e1 } => match self.consume(e1, closing, message) {
                Parsed::Failed(f) => Parsed::Failed(f),
                Parsed::Done { end, .. } => Parsed::Done { value, end },
            },
        }
    }

    /// A `for` loop behind its keyword, as the `while` loop it stands for.
    pub open spec fn for_statement(self, p: int) -> Parsed<Stmt>
        decreases self.tokens.len() - p, 65int,
        when self.wf() && self.valid(p)
    {
        match self.consume(p, TokenIdentity::LeftParen, "Expect '(' after 'for'."@) {
            Parsed::Failed(f) => Parsed::Failed(f),
            Parsed::Done { end: e1, .. } => match self.step(p, self.for_initializer(e1)) {
                Parsed::Failed(f) => Parsed::Failed(f),
                Parsed::Done { value: initializer, end: e2 } => match self.step(
                    p,
                    self.optional_expression(
                        e2,
                        TokenIdentity::Semicolon,
                        "Expect ';' after for condition."@,
                    ),
                ) {
                    Parsed::Failed(f) => Parsed::Failed(f),
                    Parsed::Done { value: condition, end: e3 } => match self.step(
                        p,
                        self.optional_expression(
                            e3,
                            TokenIdentity::RightParen,
                            "Expect ')' after for clauses."@,
                        ),
                    ) {
                        Parsed::Failed(f) => Parsed::Failed(f),
                        Parsed::Done { value: increment, end: e4 } => match self.consume(
                            e4,
                            TokenIdentity::LeftBrace,
                            "Expect '{' before for body."@,
                        ) {
                            Parsed::Failed(f) => Parsed::Failed(f),
                            Parsed::Done { end: e5, .. } => match self.block(e5, true) {
                                Parsed::Failed(f) => Parsed::Failed(f),
                                Parsed::Done { value: body, end } => Parsed::Done {
                                    value: desugared_for(initializer, condition, increment, body),
                                    end,
                                },
                            },
                        },
                    },
                },
            },
        }
    }

    /// A condition in parentheses and the block behind it, as `if` and
    /// `while` have them.
    pub open spec fn guarded_block(
        self,
        p: int,
        in_loop: bool,
        open: Seq<char>,
        close: Seq<char>,
        brace: Seq<char>,
    ) -> Parsed<(Expr, BlockStmt)>
        decreases self.tokens.len() - p, 63int,
        when self.wf() && self.valid(p)
    {
        match self.consume(p, TokenIdentity::LeftParen, open) {
            Parsed::Failed(f) => Parsed::Failed(f),
            Parsed::Done { end: e1, .. } => match self.step(p, self.expression(e1)) {
                Parsed::Failed(f) => Parsed::Failed(f),
                Parsed::Done { value: condition, end: e2 } => match self.consume(
                    e2,
                    TokenIdentity::RightParen,
                    close,
                ) {
                    Parsed::Failed(f) => Parsed::Failed(f),
                    Parsed::Done { end: e3, .. } => match self.consume(
                        e3,
                        TokenIdentity::LeftBrace,
                        brace,
                    ) {
                        Parsed::Failed(f) => Parsed::Failed(f),
                        Parsed::Done { end: e4, .. } => match self.block(e4, in_loop) {
                            Parsed::Failed(f) => Parsed::Failed(f),
                            Parsed::Done { value: body, end } => Parsed::Done {
                                value: (condition, body),
                                end,
                            },
                        },
                    },
                },
            },
        }
    }

    /// An `if` behind its keyword.
    pub open spec fn if_statement(self, p: int, in_loop: bool) -> Parsed<Stmt>
        decreases self.tokens.len() - p, 64int,
        when self.wf() && self.valid(p)
    {
        match self.step(
            p,
            self.guarded_block(
                p,
                in_loop,
                "Expect '(' after 'if'."@,
                "Expect ')' after if condition."@,
                "Expect '{' before if body."@,
            ),
        ) {
            Parsed::Failed(f) => Parsed::Failed(f),
            Parsed::Done { value: (condition, then_branch), end: e1 } => {
                if self.check(e1, TokenIdentity::Else) {
                    match self.consume(
                        e1 + 1,
                        TokenIdentity::LeftBrace,
                        "Expect '{' before else body."@,
                    ) {
                        Parsed::Failed(f) => Parsed::Failed(f),
                        Parsed::Done { end: e2, .. } => match self.block(e2, in_loop) {
                            Parsed::Failed(f) => Parsed::Failed(f),
                            Parsed::Done { value: else_branch, end } => Parsed::Done {
                                value: Stmt::If(
                                    Rc::new(
                                        IfStmt {
                                            condition,
                                            then_branch,
                                            else_branch: Some(else_branch),
                                        },
                                    ),
                                ),
                                end,
                            },
                        },
                    }
                } else {
                    Parsed::Done {
                        value: Stmt::If(
                            Rc::new(IfStmt { condition, then_branch, else_branch: None }),
                        ),
                        end: e1,
                    }
                }
            },
        }
    }

    /// A `while` behind its keyword.
    pub open spec fn while_statement(self, p: int) -> Parsed<Stmt>
        decreases self.tokens.len() - p, 64int,
        when self.wf() && self.valid(p)
    {
        match self.guarded_block(
            p,
            true,
            "Expect '(' after 'while'."@,
            "Expect ')' after while condition."@,
            "Expect '{' before while body."@,
        ) {
            Parsed::Failed(f) => Parsed::Failed(f),
            Parsed::Done { value: (condition, body), end } => Parsed::Done {
                value: Stmt::While(Rc::new(WhileStmt { condition, body })),
                end,
            },
        }
    }

    /// A `print` behind its keyword.
    pub open spec fn print_statement(self, p: int) -> Parsed<Stmt>
        decreases self.tokens.len() - p, 64int,
        when self.wf() && self.valid(p)
    {
        match self.consume(p, TokenIdentity::LeftParen, "Expect '(' after 'print'."@) {
            Parsed::Failed(f) => Parsed::Failed(f),
            Parsed::Done { end: e1, .. } => match self.expression(e1) {
                Parsed::Failed(f) => Parsed::Failed(f),
                Parsed::Done { value: expr, end: e2 } => match self.consume(
                    e2,
                    TokenIdentity::RightParen,
                    "Expect ')' after arguments."@,
                ) {
                    Parsed::Failed(f) => Parsed::Failed(f),
                    Parsed::Done { end: e3, .. } => match self.consume(
                        e3,
                        TokenIdentity::Semicolon,
                        "Expect ';' after print statement."@,
                    ) {
                        Parsed::Failed(f) => Parsed::Failed(f),
                        Parsed::Done { end, .. } => Parsed::Done {
                            value: Stmt::Print(Rc::new(PrintStmt { expr })),
                            end,
                        },
                    },
                },
            },
        }
    }

    /// A `return` behind its keyword.
    pub open spec fn return_statement(self, p: int) -> Parsed<Stmt>
        decreases self.tokens.len() - p, 64int,
        when self.wf() && self.valid(p)
    {
        let keyword = self.tokens[p - 1];
        let value: Parsed<Option<Expr>> = if !self.check(p, TokenIdentity::Semicolon) {
            match self.expression(p) {
                Parsed::Failed(f) => Parsed::Failed(f),
                Parsed::Done { value, end } => Parsed::Done { value: Some(value), end },
            }
        } else {
            Parsed::Done { value: None, end: p }
        };
        match value {
            Parsed::Failed(f) => Parsed::Failed(f),
            Parsed::Done { value, end: e1 } => match self.consume(
                e1,
                TokenIdentity::Semicolon,
                "Expect ';' after return value."@,
            ) {
                Parsed::Failed(f) => Parsed::Failed(f),
                Parsed::Done { end, .. } => Parsed::Done {
                    value: Stmt::Return(Rc::new(ReturnStmt { keyword, value })),
                    end,
                },
            },
        }
    }

    /// An expression statement; a lambda needs no semicolon behind it.
    pub open spec fn expression_statement(self, p: int) -> Parsed<Stmt>
        decreases self.tokens.len() - p, 58int,
        when self.wf() && self.valid(p)
    {
        match self.expression(p) {
            Parsed::Failed(f) => Parsed::Failed(f),
            Parsed::Done { value: expr, end: e1 } => {
                let value = Stmt::Expression(Rc::new(ExpressionStmt { expr }));
                if expr is Lambda {
                    Parsed::Done { value, end: e1 }
                } else {
                    match self.consume(
                        e1,
                        TokenIdentity::Semicolon,
                        "Expect ';' after expression."@,
                    ) {
                        Parsed::Failed(f) => Parsed::Failed(f),
                        Parsed::Done { end, .. } => Parsed::Done { value, end },
                    }
                }
            },
        }
    }

    pub open spec fn expression(self, p: int) -> Parsed<Expr>
        decreases self.tokens.len() - p, 57int,
        when self.wf() && self.valid(p)
    {
        self.lambda(p)
    }

    /// A lambda, where `fun` stands at `p` or just before it; else a
    /// ternary.
    pub open spec fn lambda(self, p: int) -> Parsed<Expr>
        decreases self.tokens.len() - p, 56int,
        when self.wf() && self.valid(p)
    {
        if self.previous_is(p, TokenIdentity::Fun) || self.check(p, TokenIdentity::Fun) {
            let e1 = if self.previous_is(p, TokenIdentity::Fun) {
                p
            } else {
                p + 1
            };
            match self.consume(
                e1,
                TokenIdentity::LeftParen,
                "Expect '(' after 'fun' for lambda."@,
            ) {
                Parsed::Failed(f) => Parsed::Failed(f),
                Parsed::Done { end: e2, .. } => match self.step(p, self.parameters(e2)) {
                    Parsed::Failed(f) => Parsed::Failed(f),
                    Parsed::Done { value: params, end: e3 } => match self.consume(
                        e3,
                        TokenIdentity::LeftBrace,
                        "Expect '{' before function body."@,
                    ) {
                        Parsed::Failed(f) => Parsed::Failed(f),
                        Parsed::Done { end: e4, .. } => match self.block(e4, false) {
                            Parsed::Failed(f) => Parsed::Failed(f),
                            Parsed::Done { value: body, end } => Parsed::Done {
                                value: Expr::Lambda(Rc::new(LambdaExpr { params, body })),
                                end,
                            },
                        },
                    },
                },
            }
        } else {
            self.ternary(p)
        }
    }

    pub open spec fn ternary(self, p: int) -> Parsed<Expr>
        decreases self.tokens.len() - p, 55int,
        when self.wf() && self.valid(p)
    {
        match self.step(p, self.assignment(p)) {
            Parsed::Failed(f) => Parsed::Failed(f),
            Parsed::Done { value: condition, end: e1 } => {
                if self.check(e1, TokenIdentity::Question) {
                    match self.step(p, self.expression(e1 + 1)) {
                        Parsed::Failed(f) => Parsed::Failed(f),
                        Parsed::Done { value: then_branch, end: e2 } => match self.consume(
                            e2,
                            TokenIdentity::Colon,
                            "Expect ':' after then branch."@,
                        ) {
                            Parsed::Failed(f) => Parsed::Failed(f),
                            Parsed::Done { end: e3, .. } => match self.expression(e3) {
                                Parsed::Failed(f) => Parsed::Failed(f),
                                Parsed::Done { value: else_branch, end } => Parsed::Done {
                                    value: Expr::Ternary(
                                        Rc::new(
                                            TernaryExpr { condition, then_branch, else_branch },
                                        ),
                                    ),
                                    end,
                                },
                            },
                        },
                    }
                } else {
                    Parsed::Done { value: condition, end: e1 }
                }
            },
        }
    }

    /// What an assignment of `value` to `target` is: a variable is assigned,
    /// a property read becomes a property write, nothing else is a target.
    pub open spec fn assign_to(target: Expr, equals: Token, value: Expr) -> Result<Expr, Fault> {
        match target {
            Expr::Variable(variable) => Ok(
                Expr::Assign(
                    Rc::new(AssignExpr { id: variable.id, name: variable.name, value }),
                ),
            ),
            Expr::Get(get) => Ok(
                Expr::SetProperty(
                    Rc::new(SetExpr { object: get.object, name: get.name, value }),
                ),
            ),
            _ => Err(Fault { token: equals@, message: "Invalid assignment target."@ }),
        }
    }

    pub open spec fn assignment(self, p: int) -> Parsed<Expr>
        decreases self.tokens.len() - p, 54int,
        when self.wf() && self.valid(p)
    {
        match self.step(p, self.chain(p, Level::Or)) {
            Parsed::Failed(f) => Parsed::Failed(f),
            Parsed::Done { value: target, end: e1 } => {
                if self.check(e1, TokenIdentity::Equal) {
                    match self.assignment(e1 + 1) {
                        Parsed::Failed(f) => Parsed::Failed(f),
                        Parsed::Done { value, end } => match Self::assign_to(
                            target,
                            self.tokens[e1],
                            value,
                        ) {
                            Ok(value) => Parsed::Done { value, end },
                            Err(f) => Parsed::Failed(f),
                        },
                    }
                } else {
                    Parsed::Done { value: target, end: e1 }
                }
            },
        }
    }

    /// An operand of a level: a chain of the next tighter level, or a unary
    /// expression.
    pub open spec fn operand(self, p: int, level: Level) -> Parsed<Expr>
        decreases self.tokens.len() - p, level.rank() - 1,
        when self.wf() && self.valid(p)
    {
        match level {
            Level::Or => self.chain(p, Level::And),
            Level::And => self.chain(p, Level::Equality),
            Level::Equality => self.chain(p, Level::Comparison),
            Level::Comparison => self.chain(p, Level::Term),
            Level::Term => self.chain(p, Level::Factor),
            Level::Factor => self.unary(p),
        }
    }

    /// Operands of a level joined by its operators, grouped to the left.
    pub open spec fn chain(self, p: int, level: Level) -> Parsed<Expr>
        decreases self.tokens.len() - p, level.rank(),
        when self.wf() && self.valid(p)
    {
        match self.step(p, self.operand(p, level)) {
            Parsed::Failed(f) => Parsed::Failed(f),
            Parsed::Done { value: left, end: e1 } => self.chain_rest(e1, level, left),
        }
    }

    /// What follows the operand `left` in a chain.
    pub open spec fn chain_rest(self, p: int, level: Level, left: Expr) -> Parsed<Expr>
        decreases self.tokens.len() - p, 0int,
        when self.wf() && self.valid(p)
    {
        if !self.at_end(p) && level.has(self.tokens[p].id) {
            match self.step(p, self.operand(p + 1, level)) {
                Parsed::Failed(f) => Parsed::Failed(f),
                Parsed::Done { value: right, end: e1 } => self.chain_rest(
                    e1,
                    level,
                    level.join(left, self.tokens[p], right),
                ),
            }
        } else {
            Parsed::Done { value: left, end: p }
        }
    }

    pub open spec fn unary(self, p: int) -> Parsed<Expr>
        decreases self.tokens.len() - p, 17int,
        when self.wf() && self.valid(p)
    {
        if self.check(p, TokenIdentity::Bang) || self.check(p, TokenIdentity::Minus) {
            match self.unary(p + 1) {
                Parsed::Failed(f) => Parsed::Failed(f),
                Parsed::Done { value: right, end } => Parsed::Done {
                    value: Expr::Unary(Rc::new(UnaryExpr { operator: self.tokens[p], right })),
                    end,
                },
            }
        } else {
            self.call(p)
        }
    }

    pub open spec fn call(self, p: int) -> Parsed<Expr>
        decreases self.tokens.len() - p, 16int,
        when self.wf() && self.valid(p)
    {
        match self.step(p, self.primary(p)) {
            Parsed::Failed(f) => Parsed::Failed(f),
            Parsed::Done { value, end } => self.call_rest(end, value),
        }
    }

    /// The calls and property reads that follow `callee`.
    pub open spec fn call_rest(self, p: int, callee: Expr) -> Parsed<Expr>
        decreases self.tokens.len() - p, 1int,
        when self.wf() && self.valid(p)
    {
        if self.check(p, TokenIdentity::LeftParen) {
            match self.step(p, self.finish_call(p + 1, callee)) {
                Parsed::Failed(f) => Parsed::Failed(f),
                Parsed::Done { value, end } => self.call_rest(end, value),
            }
        } else if self.check(p, TokenIdentity::Dot) {
            match self.consume(
                p + 1,
                TokenIdentity::Identifier,
                "Expect property name after '.'."@,
            ) {
                Parsed::Failed(f) => Parsed::Failed(f),
                Parsed::Done { value: name, end } => self.call_rest(
                    end,
                    Expr::Get(Rc::new(GetExpr { object: callee, name })),
                ),
            }
        } else {
            Parsed::Done { value: callee, end: p }
        }
    }

    /// Arguments up to the closing parenthesis, at most 255 of them; `count`
    /// arguments came before.
    pub open spec fn arguments(self, p: int, count: nat) -> Parsed<List<Expr>>
        decreases self.tokens.len() - p, 59int,
        when self.wf() && self.valid(p)
    {
        if count >= 255 {
            self.fail(p, "Can't have more than 255 arguments."@)
        } else {
            match self.step(p, self.expression(p)) {
                Parsed::Failed(f) => Parsed::Failed(f),
                Parsed::Done { value: first, end: e1 } => if self.check(
                    e1,
                    TokenIdentity::Comma,
                ) {
                    match self.arguments(e1 + 1, count + 1) {
                        Parsed::Failed(f) => Parsed::Failed(f),
                        Parsed::Done { value: rest, end } => Parsed::Done {
                            value: List::Cons(Rc::new(Node { head: first, tail: rest })),
                            end,
                        },
                    }
                } else {
                    Parsed::Done {
                        value: List::Cons(Rc::new(Node { head: first, tail: List::Nil })),
                        end: e1,
                    }
                },
            }
        }
    }

    /// A call behind its opening parenthesis.
    pub open spec fn finish_call(self, p: int, callee: Expr) -> Parsed<Expr>
        decreases self.tokens.len() - p, 60int,
        when self.wf() && self.valid(p)
    {
        let arguments: Parsed<List<Expr>> = if self.check(p, TokenIdentity::RightParen) {
            Parsed::Done { value: List::Nil, end: p }
        } else {
            self.arguments(p, 0)
        };
        match arguments {
            Parsed::Failed(f) => Parsed::Failed(f),
            Parsed::Done { value: arguments, end: e1 } => match self.consume(
                e1,
                TokenIdentity::RightParen,
                "Expect ')' after arguments."@,
            ) {
                Parsed::Failed(f) => Parsed::Failed(f),
                Parsed::Done { value: paren, end } => Parsed::Done {
                    value: Expr::Call(Rc::new(CallExpr { callee, paren, arguments })),
                    end,
                },
            },
        }
    }

    /// A literal, `super.name`, `this`, a variable, or an expression in
    /// parentheses. The error for anything else points at the token behind
    /// the one that starts no expression.
    pub open spec fn primary(self, p: int) -> Parsed<Expr>
        decreases self.tokens.len() - p, 15int,
        when self.wf() && self.valid(p)
    {
        let token = self.tokens[p];
        if self.at_end(p) {
            self.fail(p, "Unexpected expression"@)
        } else if token.id == TokenIdentity::False {
            Parsed::Done {
                value: Expr::Literal(Rc::new(LiteralExpr { value: TokenValue::Bool(false) })),
                end: p + 1,
            }
        } else if token.id == TokenIdentity::True {
            Parsed::Done {
                value: Expr::Literal(Rc::new(LiteralExpr { value: TokenValue::Bool(true) })),
                end: p + 1,
            }
        } else if token.id == TokenIdentity::Nil {
            Parsed::Done {
                value: Expr::Literal(Rc::new(LiteralExpr { value: TokenValue::Nil })),
                end: p + 1,
            }
        } else if token.id == TokenIdentity::Number || token.id == TokenIdentity::String {
            Parsed::Done {
                value: Expr::Literal(Rc::new(LiteralExpr { value: token.value })),
                end: p + 1,
            }
        } else if token.id == TokenIdentity::Super {
            match self.consume(p + 1, TokenIdentity::Dot, "Expect '.' after 'super'."@) {
                Parsed::Failed(f) => Parsed::Failed(f),
                Parsed::Done { end: e1, .. } => match self.consume(
                    e1,
                    TokenIdentity::Identifier,
                    "Expect superclass method name."@,
                ) {
                    Parsed::Failed(f) => Parsed::Failed(f),
                    Parsed::Done { value: method, end } => Parsed::Done {
                        value: Expr::Super(
                            Rc::new(SuperExpr { id: self.node(p), keyword: token, method }),
                        ),
                        end,
                    },
                },
            }
        } else if token.id == TokenIdentity::This {
            Parsed::Done {
                value: Expr::This(Rc::new(ThisExpr { id: self.node(p), keyword: token })),
                end: p + 1,
            }
        } else if token.id == TokenIdentity::Identifier {
            Parsed::Done {
                value: Expr::Variable(Rc::new(VariableExpr { id: self.node(p), name: token })),
                end: p + 1,
            }
        } else if token.id == TokenIdentity::LeftParen {
            match self.step(p, self.expression(p + 1)) {
                Parsed::Failed(f) => Parsed::Failed(f),
                Parsed::Done { value: expression, end: e1 } => match self.consume(
                    e1,
                    TokenIdentity::RightParen,
                    "Expect ')' after expression."@,
                ) {
                    Parsed::Failed(f) => Parsed::Failed(f),
                    Parsed::Done { end, .. } => Parsed::Done {
                        value: Expr::Grouping(Rc::new(GroupingExpr { expression })),
                        end,
                    },
                },
            }
        } else {
            self.fail(p + 1, "Unexpected expression"@)
        }
    }
}

} // verus!
