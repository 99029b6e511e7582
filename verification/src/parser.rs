//! The parser: tokens to syntax trees, by recursive descent.

use vstd::prelude::*;
use std::rc::Rc;
use crate::error::ParsingError;
use crate::expr::{
    AssignExpr, BinaryExpr, CallExpr, Expr, GetExpr, GroupingExpr, LambdaExpr, LiteralExpr,
    LogicalExpr, SetExpr, SuperExpr, TernaryExpr, ThisExpr, UnaryExpr, VariableExpr,
};
use crate::function::FunctionType;
use crate::grammar::{
    graft, lemma_graft_nothing, lemma_graft_step, Grammar, Level, Members, Parsed,
};
use crate::list::List;
use crate::stmt::{
    BlockStmt, ClassStmt, ExpressionStmt, FunctionStmt, IfStmt, PrintStmt, ReturnStmt, Stmt,
    VarStmt, WhileStmt,
};
use crate::text::push_text;
use crate::token::{Token, TokenIdentity, TokenValue};

verus! {

/// The tokens without the comments, in order.
pub open spec fn without_comments(tokens: Seq<Token>) -> Seq<Token>
    decreases tokens.len(),
{
    if tokens.len() == 0 {
        Seq::empty()
    } else if tokens.last().id == TokenIdentity::Comment {
        without_comments(tokens.drop_last())
    } else {
        without_comments(tokens.drop_last()).push(tokens.last())
    }
}

/// Whether a result is the one that the grammar gives.
pub open spec fn agrees<T>(r: Result<T, ParsingError>, expected: Parsed<T>) -> bool {
    match expected {
        Parsed::Done { value, .. } => r == Ok::<T, ParsingError>(value),
        Parsed::Failed(fault) => r matches Err(error) && error@ == fault,
    }
}

/// Whether a result holds the statements that the grammar gives.
pub open spec fn agrees_on_items(
    r: Result<Vec<Stmt>, ParsingError>,
    expected: Parsed<List<Stmt>>,
) -> bool {
    match expected {
        Parsed::Done { value, .. } => r matches Ok(items) && List::of(items@) == value,
        Parsed::Failed(fault) => r matches Err(error) && error@ == fault,
    }
}

impl Level {
    fn holds(self, id: TokenIdentity) -> (b: bool)
        ensures
            b == self.has(id),
    {
        match self {
            Level::Or => id == TokenIdentity::Or,
            Level::And => id == TokenIdentity::And,
            Level::Equality => id == TokenIdentity::BangEqual || id == TokenIdentity::EqualEqual,
            Level::Comparison => id == TokenIdentity::Greater || id == TokenIdentity::GreaterEqual
                || id == TokenIdentity::Less || id == TokenIdentity::LessEqual,
            Level::Term => id == TokenIdentity::Minus || id == TokenIdentity::Plus,
            Level::Factor => id == TokenIdentity::Slash || id == TokenIdentity::Star,
        }
    }

    fn joined(self, left: Expr, operator: Token, right: Expr) -> (e: Expr)
        ensures
            e == self.join(left, operator, right),
    {
        match self {
            Level::Or | Level::And => Expr::Logical(
                Rc::new(LogicalExpr::new(left, operator, right)),
            ),
            _ => Expr::Binary(Rc::new(BinaryExpr::new(left, operator, right))),
        }
    }
}

fn framed(before: &str, kind: FunctionType, after: &str) -> (s: String)
    ensures
        s@ == before@ + kind.text() + after@,
{
    let mut s = String::from_str(before);
    let word = kind.to_text();
    push_text(&mut s, word.as_str());
    push_text(&mut s, after);
    s
}

/// A parser over one token sequence.
pub struct Parser {
    tokens: Vec<Token>,
    current: usize,
    first_id: u64,
}

impl Parser {
    /// The tokens that the parser works on and the number of its first node.
    pub closed spec fn grammar(&self) -> Grammar {
        Grammar { tokens: self.tokens@, first: self.first_id }
    }

    /// The offset of the next token.
    pub closed spec fn position(&self) -> int {
        self.current as int
    }

    pub closed spec fn wf(&self) -> bool {
        &&& self.grammar().wf()
        &&& self.current < self.tokens.len()
    }

    /// The parser went from `before` to `self` and gave `r`, as the grammar
    /// says.
    spec fn yields<T>(self, before: Parser, r: Result<T, ParsingError>, expected: Parsed<T>) -> bool {
        &&& self.wf()
        &&& self.grammar() == before.grammar()
        &&& before.current <= self.current
        &&& agrees(r, expected)
        &&& expected matches Parsed::Done { end, .. } ==> self.current == end
    }

    /// As `yields`, and a success took at least one token.
    spec fn advances<T>(
        self,
        before: Parser,
        r: Result<T, ParsingError>,
        expected: Parsed<T>,
    ) -> bool {
        &&& self.yields(before, r, expected)
        &&& r is Ok ==> before.current < self.current
    }

    /// As `advances`, for statements gathered in a vector.
    spec fn gathers(
        self,
        before: Parser,
        r: Result<Vec<Stmt>, ParsingError>,
        expected: Parsed<List<Stmt>>,
    ) -> bool {
        &&& self.wf()
        &&& self.grammar() == before.grammar()
        &&& before.current <= self.current
        &&& agrees_on_items(r, expected)
        &&& expected matches Parsed::Done { end, .. } ==> self.current == end
    }

    /// A parser for `tokens`, which end with the end-of-input token. Comments
    /// are dropped. Nodes are numbered from zero.
    pub fn new(tokens: Vec<Token>) -> (parser: Self)
        requires
            tokens@.len() > 0,
            tokens@.last().id == TokenIdentity::Eof,
        ensures
            parser.wf(),
            parser.grammar().tokens == without_comments(tokens@),
            parser.grammar().first == 0,
            parser.position() == 0,
    {
        assert(tokens@.len() <= usize::MAX) by {
            let n = tokens.len();
        }
        Self::starting_at(tokens, 0)
    }

    /// As `new`, with nodes numbered from `first_id`: for a parser that
    /// continues where another one stopped.
    pub fn starting_at(tokens: Vec<Token>, first_id: u64) -> (parser: Self)
        requires
            tokens@.len() > 0,
            tokens@.last().id == TokenIdentity::Eof,
            first_id + tokens@.len() <= u64::MAX,
        ensures
            parser.wf(),
            parser.grammar().tokens == without_comments(tokens@),
            parser.grammar().first == first_id,
            parser.position() == 0,
    {
        let mut kept: Vec<Token> = Vec::new();
        let mut i: usize = 0;
        while i < tokens.len()
            invariant
                i <= tokens.len(),
                kept@ == without_comments(tokens@.take(i as int)),
                kept@.len() <= i,
            decreases tokens.len() - i,
        {
            proof {
                assert(tokens@.take(i + 1).drop_last() =~= tokens@.take(i as int));
            }
            if tokens[i].id != TokenIdentity::Comment {
                kept.push(tokens[i].clone());
            }
            i += 1;
        }
        proof {
            assert(tokens@.take(tokens@.len() as int) =~= tokens@);
        }
        Parser { tokens: kept, current: 0, first_id }
    }

    /// The number that the next parser should start from.
    pub fn next_id(&self) -> (id: u64)
        requires
            self.wf(),
        ensures
            id == self.grammar().first + self.grammar().tokens.len(),
    {
        self.first_id + self.tokens.len() as u64
    }

    /// The whole program: declarations up to the end of input, or the first
    /// error.
    pub fn parse(&mut self) -> (r: Result<Vec<Stmt>, ParsingError>)
        requires
            old(self).wf(),
        ensures
            final(self).wf(),
            final(self).grammar() == old(self).grammar(),
            agrees_on_items(r, old(self).grammar().program(old(self).position())),
    {
        let mut statements: Vec<Stmt> = Vec::new();
        let ghost goal = self.grammar().program(self.current as int);
        proof {
            lemma_graft_nothing(goal);
        }
        while !self.is_at_end()
            invariant
                self.wf(),
                self.grammar() == old(self).grammar(),
                goal == old(self).grammar().program(old(self).position()),
                goal == graft(statements@, self.grammar().program(self.current as int)),
            decreases self.tokens.len() - self.current,
        {
            let ghost from = self.current as int;
            let ghost rest = self.grammar().program(from);
            let statement = self.declaration(false)?;
            proof {
                lemma_graft_step(
                    statements@,
                    statement,
                    self.grammar().program(self.current as int),
                );
            }
            statements.push(statement);
        }
        proof {
            assert(statements@ + List::<Stmt>::Nil@ =~= statements@);
        }
        Ok(statements)
    }

    fn peek(&self) -> (t: &Token)
        requires
            self.wf(),
        ensures
            *t == self.tokens@[self.current as int],
    {
        &self.tokens[self.current]
    }

    fn is_at_end(&self) -> (b: bool)
        requires
            self.wf(),
        ensures
            b == self.grammar().at_end(self.current as int),
    {
        self.tokens[self.current].id == TokenIdentity::Eof
    }

    fn check(&self, id: TokenIdentity) -> (b: bool)
        requires
            self.wf(),
        ensures
            b == self.grammar().check(self.current as int, id),
    {
        let found = self.tokens[self.current].id;
        found != TokenIdentity::Eof && found == id
    }

    fn previous_is(&self, id: TokenIdentity) -> (b: bool)
        requires
            self.wf(),
        ensures
            b == self.grammar().previous_is(self.current as int, id),
    {
        self.current > 0 && self.tokens[self.current - 1].id == id
    }

    /// Takes the current token, which is not the end of input.
    fn advance(&mut self) -> (t: Token)
        requires
            old(self).wf(),
            !old(self).grammar().at_end(old(self).current as int),
        ensures
            final(self).wf(),
            final(self).grammar() == old(self).grammar(),
            final(self).current == old(self).current + 1,
            t == old(self).tokens@[old(self).current as int],
    {
        let t = self.tokens[self.current].clone();
        self.current += 1;
        t
    }

    fn match_token(&mut self, id: TokenIdentity) -> (b: bool)
        requires
            old(self).wf(),
        ensures
            final(self).wf(),
            final(self).grammar() == old(self).grammar(),
            b == old(self).grammar().check(old(self).current as int, id),
            final(self).current == if b {
                old(self).current + 1
            } else {
                old(self).current as int
            },
    {
        if self.check(id) {
            self.current += 1;
            true
        } else {
            false
        }
    }

    fn fail<T>(&self, message: &str) -> (r: Result<T, ParsingError>)
        requires
            self.wf(),
        ensures
            agrees(r, self.grammar().fail::<T>(self.current as int, message@)),
            r is Err,
    {
        Err(ParsingError::new(self.peek().clone(), message))
    }

    fn consume(&mut self, id: TokenIdentity, message: &str) -> (r: Result<Token, ParsingError>)
        requires
            old(self).wf(),
        ensures
            final(self).advances(
                *old(self),
                r,
                old(self).grammar().consume(old(self).current as int, id, message@),
            ),
    {
        if self.check(id) {
            Ok(self.advance())
        } else {
            Err(ParsingError::new(self.peek().clone(), message))
        }
    }

    fn more_parameters(&mut self, count: usize) -> (r: Result<List<Token>, ParsingError>)
        requires
            old(self).wf(),
            count <= 255,
        ensures
            final(self).advances(
                *old(self),
                r,
                old(self).grammar().more_parameters(old(self).current as int, count as nat),
            ),
        decreases old(self).tokens.len() - old(self).current,
    {
        if count >= 255 {
            return self.fail("Can't have more than 255 parameters.");
        }
        let name = self.consume(TokenIdentity::Identifier, "Expect parameter name.")?;
        if self.match_token(TokenIdentity::Comma) {
            let rest = self.more_parameters(count + 1)?;
            Ok(List::cons(name, rest))
        } else {
            self.consume(TokenIdentity::RightParen, "Expect ')' after parameters.")?;
            Ok(List::cons(name, List::Nil))
        }
    }

    fn parameters(&mut self) -> (r: Result<List<Token>, ParsingError>)
        requires
            old(self).wf(),
        ensures
            final(self).advances(
                *old(self),
                r,
                old(self).grammar().parameters(old(self).current as int),
            ),
    {
        if self.match_token(TokenIdentity::RightParen) {
            Ok(List::Nil)
        } else {
            self.more_parameters(0)
        }
    }

    /// `declaration*` up to a closing brace or the end of input.
    fn items(&mut self, in_loop: bool) -> (r: Result<Vec<Stmt>, ParsingError>)
        requires
            old(self).wf(),
        ensures
            final(self).gathers(
                *old(self),
                r,
                old(self).grammar().items(old(self).current as int, in_loop),
            ),
        decreases old(self).tokens.len() - old(self).current, 71int,
    {
        let mut statements: Vec<Stmt> = Vec::new();
        let ghost goal = self.grammar().items(self.current as int, in_loop);
        proof {
            lemma_graft_nothing(goal);
        }
        while !self.check(TokenIdentity::RightBrace) && !self.is_at_end()
            invariant
                self.wf(),
                self.grammar() == old(self).grammar(),
                old(self).current <= self.current,
                goal == old(self).grammar().items(old(self).current as int, in_loop),
                goal == graft(statements@, self.grammar().items(self.current as int, in_loop)),
            decreases self.tokens.len() - self.current,
        {
            let statement = self.declaration(in_loop)?;
            proof {
                lemma_graft_step(
                    statements@,
                    statement,
                    self.grammar().items(self.current as int, in_loop),
                );
            }
            statements.push(statement);
        }
        proof {
            assert(statements@ + List::<Stmt>::Nil@ =~= statements@);
        }
        Ok(statements)
    }

    fn block(&mut self, in_loop: bool) -> (r: Result<BlockStmt, ParsingError>)
        requires
            old(self).wf(),
        ensures
            final(self).advances(
                *old(self),
                r,
                old(self).grammar().block(old(self).current as int, in_loop),
            ),
        decreases old(self).tokens.len() - old(self).current, 72int,
    {
        let statements = self.items(in_loop)?;
        self.consume(TokenIdentity::RightBrace, "Expect '}' after block.")?;
        Ok(BlockStmt::new(List::from_vec(statements)))
    }

    #[verifier::rlimit(60)]
    fn declaration(&mut self, in_loop: bool) -> (r: Result<Stmt, ParsingError>)
        requires
            old(self).wf(),
        ensures
            final(self).advances(
                *old(self),
                r,
                old(self).grammar().declaration(old(self).current as int, in_loop),
            ),
        decreases old(self).tokens.len() - old(self).current, 70int,
    {
        if self.match_token(TokenIdentity::Class) {
            let class = self.class_declaration()?;
            Ok(Stmt::Class(Rc::new(class)))
        } else if self.match_token(TokenIdentity::Fun) && self.check(TokenIdentity::Identifier) {
            let function = self.function(FunctionType::Function)?;
            Ok(Stmt::Function(Rc::new(function)))
        } else if self.match_token(TokenIdentity::Var) {
            let variable = self.var_declaration()?;
            Ok(Stmt::Var(Rc::new(variable)))
        } else {
            self.statement(in_loop)
        }
    }

    fn class_declaration(&mut self) -> (r: Result<ClassStmt, ParsingError>)
        requires
            old(self).wf(),
        ensures
            final(self).advances(
                *old(self),
                r,
                old(self).grammar().class_declaration(old(self).current as int),
            ),
        decreases old(self).tokens.len() - old(self).current, 68int,
    {
        let name = self.consume(TokenIdentity::Identifier, "Expect class name.")?;
        let superclass = if self.match_token(TokenIdentity::Less) {
            let id = self.first_id + self.current as u64;
            let name = self.consume(TokenIdentity::Identifier, "Expect superclass name.")?;
            Some(Rc::new(VariableExpr::new(id, name)))
        } else {
            None
        };
        self.consume(TokenIdentity::LeftBrace, "Expect '{' before class body.")?;
        let members = self.members()?;
        self.consume(TokenIdentity::RightBrace, "Expect '}' after class body.")?;
        Ok(
            ClassStmt::new(
                name,
                superclass,
                members.methods,
                members.static_methods,
                members.getter_methods,
            ),
        )
    }

    fn members(&mut self) -> (r: Result<Members, ParsingError>)
        requires
            old(self).wf(),
        ensures
            final(self).yields(*old(self), r, old(self).grammar().members(old(self).current as int)),
        decreases old(self).tokens.len() - old(self).current, 67int,
    {
        if self.check(TokenIdentity::RightBrace) || self.is_at_end() {
            Ok(Members { methods: List::Nil, static_methods: List::Nil, getter_methods: List::Nil })
        } else if self.match_token(TokenIdentity::Class) {
            let member = self.function(FunctionType::StaticMethod)?;
            let rest = self.members()?;
            Ok(
                Members {
                    methods: rest.methods,
                    static_methods: List::cons(Rc::new(member), rest.static_methods),
                    getter_methods: rest.getter_methods,
                },
            )
        } else {
            let member = self.function(FunctionType::Method)?;
            let rest = self.members()?;
            if member.kind == FunctionType::GetterMethod {
                Ok(
                    Members {
                        methods: rest.methods,
                        static_methods: rest.static_methods,
                        getter_methods: List::cons(Rc::new(member), rest.getter_methods),
                    },
                )
            } else {
                Ok(
                    Members {
                        methods: List::cons(Rc::new(member), rest.methods),
                        static_methods: rest.static_methods,
                        getter_methods: rest.getter_methods,
                    },
                )
            }
        }
    }

    fn function(&mut self, kind: FunctionType) -> (r: Result<FunctionStmt, ParsingError>)
        requires
            old(self).wf(),
        ensures
            final(self).advances(
                *old(self),
                r,
                old(self).grammar().function(old(self).current as int, kind),
            ),
        decreases old(self).tokens.len() - old(self).current, 66int,
    {
        let message = framed("Expect ", kind, " name.");
        let name = self.consume(TokenIdentity::Identifier, message.as_str())?;
        let mut kind = kind;
        let mut parameters: List<Token> = List::Nil;
        if kind == FunctionType::Method && self.check(TokenIdentity::LeftBrace) {
            kind = FunctionType::GetterMethod;
        } else {
            if name.value.same(&TokenValue::String(String::from_str("init"))) {
                kind = FunctionType::Initializer;
            }
            let message = framed("Expect '(' after ", kind, " name.");
            self.consume(TokenIdentity::LeftParen, message.as_str())?;
            parameters = self.parameters()?;
        }
        let message = framed("Expect '{' before ", kind, " body.");
        self.consume(TokenIdentity::LeftBrace, message.as_str())?;
        let body = self.block(false)?;
        Ok(FunctionStmt::new(name, parameters, body, kind))
    }

    fn var_declaration(&mut self) -> (r: Result<VarStmt, ParsingError>)
        requires
            old(self).wf(),
        ensures
            final(self).advances(
                *old(self),
                r,
                old(self).grammar().var_declaration(old(self).current as int),
            ),
        decreases old(self).tokens.len() - old(self).current, 65int,
    {
        let name = self.consume(TokenIdentity::Identifier, "Expect variable name.")?;
        let initializer = if self.match_token(TokenIdentity::Equal) {
            Some(self.expression()?)
        } else {
            None
        };
        self.consume(TokenIdentity::Semicolon, "Expect ';' after variable declaration.")?;
        Ok(VarStmt::new(name, initializer))
    }

    fn statement(&mut self, in_loop: bool) -> (r: Result<Stmt, ParsingError>)
        requires
            old(self).wf(),
        ensures
            final(self).advances(
                *old(self),
                r,
                old(self).grammar().statement(old(self).current as int, in_loop),
            ),
        decreases old(self).tokens.len() - old(self).current, 69int,
    {
        if self.match_token(TokenIdentity::For) {
            self.for_statement()
        } else if self.match_token(TokenIdentity::Print) {
            self.print_statement()
        } else if self.match_token(TokenIdentity::Return) {
            self.return_statement()
        } else if self.match_token(TokenIdentity::While) {
            self.while_statement()
        } else if self.match_token(TokenIdentity::If) {
            self.if_statement(in_loop)
        } else if self.match_token(TokenIdentity::LeftBrace) {
            let block = self.block(in_loop)?;
            Ok(Stmt::Block(Rc::new(block)))
        } else if self.check(TokenIdentity::Break) {
            if !in_loop {
                return self.fail("Can only use 'break' inside loops.");
            }
            self.advance();
            self.consume(TokenIdentity::Semicolon, "Expect ';' after break.")?;
            Ok(Stmt::Break)
        } else if self.check(TokenIdentity::Continue) {
            if !in_loop {
                return self.fail("Can only use 'continue' inside loops.");
            }
            self.advance();
            self.consume(TokenIdentity::Semicolon, "Expect ';' after continue.")?;
            Ok(Stmt::Continue)
        } else {
            self.expression_statement()
        }
    }

    fn for_initializer(&mut self) -> (r: Result<Option<Stmt>, ParsingError>)
        requires
            old(self).wf(),
        ensures
            final(self).advances(
                *old(self),
                r,
                old(self).grammar().for_initializer(old(self).current as int),
            ),
        decreases old(self).tokens.len() - old(self).current, 64int,
    {
        if self.match_token(TokenIdentity::Semicolon) {
            Ok(None)
        } else if self.match_token(TokenIdentity::Var) {
            let variable = self.var_declaration()?;
            Ok(Some(Stmt::Var(Rc::new(variable))))
        } else {
            Ok(Some(self.expression_statement()?))
        }
    }

    fn optional_expression(&mut self, closing: TokenIdentity, message: &str) -> (r: Result<
        Option<Expr>,
        ParsingError,
    >)
        requires
            old(self).wf(),
        ensures
            final(self).advances(
                *old(self),
                r,
                old(self).grammar().optional_expression(
                    old(self).current as int,
                    closing,
                    message@,
                ),
            ),
        decreases old(self).tokens.len() - old(self).current, 63int,
    {
        let inner = if self.check(closing) {
            None
        } else {
            Some(self.expression()?)
        };
        self.consume(closing, message)?;
        Ok(inner)
    }

    fn for_statement(&mut self) -> (r: Result<Stmt, ParsingError>)
        requires
            old(self).wf(),
        ensures
            final(self).advances(
                *old(self),
                r,
                old(self).grammar().for_statement(old(self).current as int),
            ),
        decreases old(self).tokens.len() - old(self).current, 65int,
    {
        self.consume(TokenIdentity::LeftParen, "Expect '(' after 'for'.")?;
        let initializer = self.for_initializer()?;
        let condition = self.optional_expression(
            TokenIdentity::Semicolon,
            "Expect ';' after for condition.",
        )?;
        let increment = self.optional_expression(
            TokenIdentity::RightParen,
            "Expect ')' after for clauses.",
        )?;
        self.consume(TokenIdentity::LeftBrace, "Expect '{' before for body.")?;
        let mut statements = self.items(true)?;
        self.consume(TokenIdentity::RightBrace, "Expect '}' after block.")?;
        let ghost body = BlockStmt { statements: List::of(statements@) };
        proof {
            List::lemma_of_view(statements@);
        }
        if let Some(increment) = increment {
            statements.push(Stmt::Expression(Rc::new(ExpressionStmt::new(increment))));
        }
        let condition = match condition {
            Some(condition) => condition,
            None => Expr::Literal(Rc::new(LiteralExpr::new(TokenValue::Bool(true)))),
        };
        let looping = Stmt::While(
            Rc::new(WhileStmt::new(condition, BlockStmt::new(List::from_vec(statements)))),
        );
        let stmt = match initializer {
            Some(initializer) => Stmt::Block(
                Rc::new(
                    BlockStmt::new(List::cons(initializer, List::cons(looping, List::Nil))),
                ),
            ),
            None => looping,
        };
        Ok(stmt)
    }

    fn guarded_block(
        &mut self,
        in_loop: bool,
        open: &str,
        close: &str,
        brace: &str,
    ) -> (r: Result<(Expr, BlockStmt), ParsingError>)
        requires
            old(self).wf(),
        ensures
            final(self).advances(
                *old(self),
                r,
                old(self).grammar().guarded_block(
                    old(self).current as int,
                    in_loop,
                    open@,
                    close@,
                    brace@,
                ),
            ),
        decreases old(self).tokens.len() - old(self).current, 63int,
    {
        self.consume(TokenIdentity::LeftParen, open)?;
        let condition = self.expression()?;
        self.consume(TokenIdentity::RightParen, close)?;
        self.consume(TokenIdentity::LeftBrace, brace)?;
        let body = self.block(in_loop)?;
        Ok((condition, body))
    }

    fn if_statement(&mut self, in_loop: bool) -> (r: Result<Stmt, ParsingError>)
        requires
            old(self).wf(),
        ensures
            final(self).advances(
                *old(self),
                r,
                old(self).grammar().if_statement(old(self).current as int, in_loop),
            ),
        decreases old(self).tokens.len() - old(self).current, 64int,
    {
        let (condition, then_branch) = self.guarded_block(
            in_loop,
            "Expect '(' after 'if'.",
            "Expect ')' after if condition.",
            "Expect '{' before if body.",
        )?;
        let else_branch = if self.match_token(TokenIdentity::Else) {
            self.consume(TokenIdentity::LeftBrace, "Expect '{' before else body.")?;
            Some(self.block(in_loop)?)
        } else {
            None
        };
        Ok(Stmt::If(Rc::new(IfStmt::new(condition, then_branch, else_branch))))
    }

    fn while_statement(&mut self) -> (r: Result<Stmt, ParsingError>)
        requires
            old(self).wf(),
        ensures
            final(self).advances(
                *old(self),
                r,
                old(self).grammar().while_statement(old(self).current as int),
            ),
        decreases old(self).tokens.len() - old(self).current, 64int,
    {
        let (condition, body) = self.guarded_block(
            true,
            "Expect '(' after 'while'.",
            "Expect ')' after while condition.",
            "Expect '{' before while body.",
        )?;
        Ok(Stmt::While(Rc::new(WhileStmt::new(condition, body))))
    }

    fn print_statement(&mut self) -> (r: Result<Stmt, ParsingError>)
        requires
            old(self).wf(),
        ensures
            final(self).advances(
                *old(self),
                r,
                old(self).grammar().print_statement(old(self).current as int),
            ),
        decreases old(self).tokens.len() - old(self).current, 64int,
    {
        self.consume(TokenIdentity::LeftParen, "Expect '(' after 'print'.")?;
        let value = self.expression()?;
        self.consume(TokenIdentity::RightParen, "Expect ')' after arguments.")?;
        self.consume(TokenIdentity::Semicolon, "Expect ';' after print statement.")?;
        Ok(Stmt::Print(Rc::new(PrintStmt::new(value))))
    }

    /// A `return` whose keyword was just taken.
    fn return_statement(&mut self) -> (r: Result<Stmt, ParsingError>)
        requires
            old(self).wf(),
            old(self).current > 0,
        ensures
            final(self).advances(
                *old(self),
                r,
                old(self).grammar().return_statement(old(self).current as int),
            ),
        decreases old(self).tokens.len() - old(self).current, 64int,
    {
        let keyword = self.tokens[self.current - 1].clone();
        let value = if !self.check(TokenIdentity::Semicolon) {
            Some(self.expression()?)
        } else {
            None
        };
        self.consume(TokenIdentity::Semicolon, "Expect ';' after return value.")?;
        Ok(Stmt::Return(Rc::new(ReturnStmt::new(keyword, value))))
    }

    fn expression_statement(&mut self) -> (r: Result<Stmt, ParsingError>)
        requires
            old(self).wf(),
        ensures
            final(self).advances(
                *old(self),
                r,
                old(self).grammar().expression_statement(old(self).current as int),
            ),
        decreases old(self).tokens.len() - old(self).current, 58int,
    {
        let expression = self.expression()?;
        if let Expr::Lambda(_) = expression {
        } else {
            self.consume(TokenIdentity::Semicolon, "Expect ';' after expression.")?;
        }
        Ok(Stmt::Expression(Rc::new(ExpressionStmt::new(expression))))
    }

    fn expression(&mut self) -> (r: Result<Expr, ParsingError>)
        requires
            old(self).wf(),
        ensures
            final(self).advances(
                *old(self),
                r,
                old(self).grammar().expression(old(self).current as int),
            ),
        decreases old(self).tokens.len() - old(self).current, 57int,
    {
        self.lambda()
    }

    fn lambda(&mut self) -> (r: Result<Expr, ParsingError>)
        requires
            old(self).wf(),
        ensures
            final(self).advances(*old(self), r, old(self).grammar().lambda(old(self).current as int)),
        decreases old(self).tokens.len() - old(self).current, 56int,
    {
        if self.previous_is(TokenIdentity::Fun) || self.match_token(TokenIdentity::Fun) {
            self.consume(TokenIdentity::LeftParen, "Expect '(' after 'fun' for lambda.")?;
            let parameters = self.parameters()?;
            self.consume(TokenIdentity::LeftBrace, "Expect '{' before function body.")?;
            let body = self.block(false)?;
            Ok(Expr::Lambda(Rc::new(LambdaExpr::new(parameters, body))))
        } else {
            self.ternary()
        }
    }

    fn ternary(&mut self) -> (r: Result<Expr, ParsingError>)
        requires
            old(self).wf(),
        ensures
            final(self).advances(
                *old(self),
                r,
                old(self).grammar().ternary(old(self).current as int),
            ),
        decreases old(self).tokens.len() - old(self).current, 55int,
    {
        let expression = self.assignment()?;
        if self.match_token(TokenIdentity::Question) {
            let then_branch = self.expression()?;
            self.consume(TokenIdentity::Colon, "Expect ':' after then branch.")?;
            let else_branch = self.expression()?;
            Ok(Expr::Ternary(Rc::new(TernaryExpr::new(expression, then_branch, else_branch))))
        } else {
            Ok(expression)
        }
    }

    fn assignment(&mut self) -> (r: Result<Expr, ParsingError>)
        requires
            old(self).wf(),
        ensures
            final(self).advances(
                *old(self),
                r,
                old(self).grammar().assignment(old(self).current as int),
            ),
        decreases old(self).tokens.len() - old(self).current, 54int,
    {
        let target = self.chain(Level::Or)?;
        if self.check(TokenIdentity::Equal) {
            let equals = self.advance();
            let value = self.assignment()?;
            match target {
                Expr::Variable(variable) => Ok(
                    Expr::Assign(
                        Rc::new(AssignExpr::new(variable.id, variable.name.clone(), value)),
                    ),
                ),
                Expr::Get(get) => Ok(
                    Expr::SetProperty(
                        Rc::new(SetExpr::new(get.object.share(), get.name.clone(), value)),
                    ),
                ),
                _ => Err(ParsingError::new(equals, "Invalid assignment target.")),
            }
        } else {
            Ok(target)
        }
    }

    fn operand(&mut self, level: Level) -> (r: Result<Expr, ParsingError>)
        requires
            old(self).wf(),
        ensures
            final(self).advances(
                *old(self),
                r,
                old(self).grammar().operand(old(self).current as int, level),
            ),
        decreases old(self).tokens.len() - old(self).current, level.rank() - 1,
    {
        match level {
            Level::Or => self.chain(Level::And),
            Level::And => self.chain(Level::Equality),
            Level::Equality => self.chain(Level::Comparison),
            Level::Comparison => self.chain(Level::Term),
            Level::Term => self.chain(Level::Factor),
            Level::Factor => self.unary(),
        }
    }

    fn chain(&mut self, level: Level) -> (r: Result<Expr, ParsingError>)
        requires
            old(self).wf(),
        ensures
            final(self).advances(
                *old(self),
                r,
                old(self).grammar().chain(old(self).current as int, level),
            ),
        decreases old(self).tokens.len() - old(self).current, level.rank(),
    {
        let mut expr = self.operand(level)?;
        let ghost goal = old(self).grammar().chain(old(self).current as int, level);
        while !self.is_at_end() && level.holds(self.peek().id)
            invariant
                self.wf(),
                self.grammar() == old(self).grammar(),
                old(self).current < self.current,
                goal == old(self).grammar().chain(old(self).current as int, level),
                goal == self.grammar().chain_rest(self.current as int, level, expr),
            decreases self.tokens.len() - self.current,
        {
            let operator = self.advance();
            let right = self.operand(level)?;
            expr = level.joined(expr, operator, right);
        }
        Ok(expr)
    }

    fn unary(&mut self) -> (r: Result<Expr, ParsingError>)
        requires
            old(self).wf(),
        ensures
            final(self).advances(*old(self), r, old(self).grammar().unary(old(self).current as int)),
        decreases old(self).tokens.len() - old(self).current, 17int,
    {
        if self.check(TokenIdentity::Bang) || self.check(TokenIdentity::Minus) {
            let operator = self.advance();
            let right = self.unary()?;
            Ok(Expr::Unary(Rc::new(UnaryExpr::new(operator, right))))
        } else {
            self.call()
        }
    }

    fn call(&mut self) -> (r: Result<Expr, ParsingError>)
        requires
            old(self).wf(),
        ensures
            final(self).advances(*old(self), r, old(self).grammar().call(old(self).current as int)),
        decreases old(self).tokens.len() - old(self).current, 16int,
    {
        let mut expr = self.primary()?;
        let ghost goal = old(self).grammar().call(old(self).current as int);
        loop
            invariant
                self.wf(),
                self.grammar() == old(self).grammar(),
                old(self).current < self.current,
                goal == old(self).grammar().call(old(self).current as int),
                goal == self.grammar().call_rest(self.current as int, expr),
            ensures
                self.wf(),
                self.grammar() == old(self).grammar(),
                old(self).current < self.current,
                goal == (Parsed::Done { value: expr, end: self.current as int }),
            decreases self.tokens.len() - self.current,
        {
            if self.match_token(TokenIdentity::LeftParen) {
                expr = self.finish_call(expr)?;
            } else if self.match_token(TokenIdentity::Dot) {
                let name = self.consume(
                    TokenIdentity::Identifier,
                    "Expect property name after '.'.",
                )?;
                expr = Expr::Get(Rc::new(GetExpr::new(expr, name)));
            } else {
                break ;
            }
        }
        Ok(expr)
    }

    fn arguments(&mut self, count: usize) -> (r: Result<List<Expr>, ParsingError>)
        requires
            old(self).wf(),
            count <= 255,
        ensures
            final(self).advances(
                *old(self),
                r,
                old(self).grammar().arguments(old(self).current as int, count as nat),
            ),
        decreases old(self).tokens.len() - old(self).current, 59int,
    {
        if count >= 255 {
            return self.fail("Can't have more than 255 arguments.");
        }
        let first = self.expression()?;
        if self.match_token(TokenIdentity::Comma) {
            let rest = self.arguments(count + 1)?;
            Ok(List::cons(first, rest))
        } else {
            Ok(List::cons(first, List::Nil))
        }
    }

    fn finish_call(&mut self, callee: Expr) -> (r: Result<Expr, ParsingError>)
        requires
            old(self).wf(),
        ensures
            final(self).advances(
                *old(self),
                r,
                old(self).grammar().finish_call(old(self).current as int, callee),
            ),
        decreases old(self).tokens.len() - old(self).current, 60int,
    {
        let arguments = if self.check(TokenIdentity::RightParen) {
            List::Nil
        } else {
            self.arguments(0)?
        };
        let paren = self.consume(TokenIdentity::RightParen, "Expect ')' after arguments.")?;
        Ok(Expr::Call(Rc::new(CallExpr::new(callee, paren, arguments))))
    }

    fn primary(&mut self) -> (r: Result<Expr, ParsingError>)
        requires
            old(self).wf(),
        ensures
            final(self).advances(
                *old(self),
                r,
                old(self).grammar().primary(old(self).current as int),
            ),
        decreases old(self).tokens.len() - old(self).current, 15int,
    {
        if self.is_at_end() {
            return self.fail("Unexpected expression");
        }
        let id = self.first_id + self.current as u64;
        let token = self.advance();
        match token.id {
            TokenIdentity::False => Ok(
                Expr::Literal(Rc::new(LiteralExpr::new(TokenValue::Bool(false)))),
            ),
            TokenIdentity::True => Ok(
                Expr::Literal(Rc::new(LiteralExpr::new(TokenValue::Bool(true)))),
            ),
            TokenIdentity::Nil => Ok(Expr::Literal(Rc::new(LiteralExpr::new(TokenValue::Nil)))),
            TokenIdentity::Number | TokenIdentity::String => Ok(
                Expr::Literal(Rc::new(LiteralExpr::new(token.value))),
            ),
            TokenIdentity::Super => {
                self.consume(TokenIdentity::Dot, "Expect '.' after 'super'.")?;
                let method = self.consume(
                    TokenIdentity::Identifier,
                    "Expect superclass method name.",
                )?;
                Ok(Expr::Super(Rc::new(SuperExpr::new(id, token, method))))
            },
            TokenIdentity::This => Ok(Expr::This(Rc::new(ThisExpr::new(id, token)))),
            TokenIdentity::Identifier => Ok(Expr::Variable(Rc::new(VariableExpr::new(id, token)))),
            TokenIdentity::LeftParen => {
                let expression = self.expression()?;
                self.consume(TokenIdentity::RightParen, "Expect ')' after expression.")?;
                Ok(Expr::Grouping(Rc::new(GroupingExpr::new(expression))))
            },
            _ => self.fail("Unexpected expression"),
        }
    }
}

} // verus!
