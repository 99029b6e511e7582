//! Every phrase of the grammar takes at least one token and ends within the
//! tokens: the guard of [`Grammar::step`] never fails.

use vstd::prelude::*;
use crate::expr::Expr;
use crate::function::FunctionType;
use crate::grammar::{Grammar, Level, Parsed};
use crate::token::TokenIdentity;

verus! {

impl Grammar {
    /// A phrase that started at `p` ended behind `p`, within the tokens.
    pub open spec fn forward<T>(self, p: int, r: Parsed<T>) -> bool {
        r matches Parsed::Done { end, .. } ==> p < end < self.tokens.len()
    }

    /// A phrase that started at `p` ended at `p` or behind it, within the
    /// tokens.
    pub open spec fn onward<T>(self, p: int, r: Parsed<T>) -> bool {
        r matches Parsed::Done { end, .. } ==> p <= end < self.tokens.len()
    }

    /// A result that went forward passes the guard unchanged.
    pub proof fn lemma_step<T>(self, p: int, r: Parsed<T>)
        requires
            self.forward(p, r),
        ensures
            self.step(p, r) == r,
    {
    }

    pub proof fn lemma_more_parameters(self, p: int, count: nat)
        requires
            self.wf(),
            self.valid(p),
        ensures
            self.forward(p, self.more_parameters(p, count)),
        decreases self.tokens.len() - p,
    {
        if count < 255 && self.check(p, TokenIdentity::Identifier) && self.check(
            p + 1,
            TokenIdentity::Comma,
        ) {
            self.lemma_more_parameters(p + 2, count + 1);
        }
    }

    pub proof fn lemma_parameters(self, p: int)
        requires
            self.wf(),
            self.valid(p),
        ensures
            self.forward(p, self.parameters(p)),
    {
        if !self.check(p, TokenIdentity::RightParen) {
            self.lemma_more_parameters(p, 0);
        }
    }

    pub proof fn lemma_program(self, p: int)
        requires
            self.wf(),
            self.valid(p),
        ensures
            self.onward(p, self.program(p)),
        decreases self.tokens.len() - p, 73int,
    {
        if !self.at_end(p) {
            self.lemma_declaration(p, false);
            let first = self.step(p, self.declaration(p, false));
            if first is Done {
                self.lemma_program(first->end);
            }
        }
    }

    pub proof fn lemma_items(self, p: int, in_loop: bool)
        requires
            self.wf(),
            self.valid(p),
        ensures
            self.onward(p, self.items(p, in_loop)),
        decreases self.tokens.len() - p, 71int,
    {
        if !(self.check(p, TokenIdentity::RightBrace) || self.at_end(p)) {
            self.lemma_declaration(p, in_loop);
            let first = self.step(p, self.declaration(p, in_loop));
            if first is Done {
                self.lemma_items(first->end, in_loop);
            }
        }
    }

    pub proof fn lemma_block(self, p: int, in_loop: bool)
        requires
            self.wf(),
            self.valid(p),
        ensures
            self.forward(p, self.block(p, in_loop)),
        decreases self.tokens.len() - p, 72int,
    {
        self.lemma_items(p, in_loop);
    }

    pub proof fn lemma_declaration(self, p: int, in_loop: bool)
        requires
            self.wf(),
            self.valid(p),
        ensures
            self.forward(p, self.declaration(p, in_loop)),
        decreases self.tokens.len() - p, 70int,
    {
        if self.check(p, TokenIdentity::Class) {
            self.lemma_class_declaration(p + 1);
        } else if self.check(p, TokenIdentity::Fun) && self.check(
            p + 1,
            TokenIdentity::Identifier,
        ) {
            self.lemma_function(p + 1, FunctionType::Function);
        } else {
            let e1 = if self.check(p, TokenIdentity::Fun) {
                p + 1
            } else {
                p
            };
            if self.check(e1, TokenIdentity::Var) {
                self.lemma_var_declaration(e1 + 1);
            } else {
                self.lemma_statement(e1, in_loop);
            }
        }
    }

    pub proof fn lemma_class_declaration(self, p: int)
        requires
            self.wf(),
            self.valid(p),
        ensures
            self.forward(p, self.class_declaration(p)),
        decreases self.tokens.len() - p, 68int,
    {
        if self.check(p, TokenIdentity::Identifier) {
            let e1 = p + 1;
            if self.check(e1, TokenIdentity::Less) {
                if self.check(e1 + 1, TokenIdentity::Identifier) && self.check(
                    e1 + 2,
                    TokenIdentity::LeftBrace,
                ) {
                    self.lemma_members(e1 + 3);
                }
            } else if self.check(e1, TokenIdentity::LeftBrace) {
                self.lemma_members(e1 + 1);
            }
        }
    }

    pub proof fn lemma_members(self, p: int)
        requires
            self.wf(),
            self.valid(p),
        ensures
            self.onward(p, self.members(p)),
        decreases self.tokens.len() - p, 67int,
    {
        if self.check(p, TokenIdentity::RightBrace) || self.at_end(p) {
        } else if self.check(p, TokenIdentity::Class) {
            self.lemma_function(p + 1, FunctionType::StaticMethod);
            let member = self.step(p, self.function(p + 1, FunctionType::StaticMethod));
            if member is Done {
                self.lemma_members(member->end);
            }
        } else {
            self.lemma_function(p, FunctionType::Method);
            let member = self.step(p, self.function(p, FunctionType::Method));
            if member is Done {
                self.lemma_members(member->end);
            }
        }
    }

    pub proof fn lemma_function(self, p: int, kind: FunctionType)
        requires
            self.wf(),
            self.valid(p),
        ensures
            self.forward(p, self.function(p, kind)),
        decreases self.tokens.len() - p, 66int,
    {
        if self.check(p, TokenIdentity::Identifier) {
            let e1 = p + 1;
            let getter = kind == FunctionType::Method && self.check(e1, TokenIdentity::LeftBrace);
            if getter {
                self.lemma_block(e1 + 1, false);
            } else if self.check(e1, TokenIdentity::LeftParen) {
                self.lemma_parameters(e1 + 1);
                let params = self.step(e1, self.parameters(e1 + 1));
                if params is Done && self.check(params->end, TokenIdentity::LeftBrace) {
                    self.lemma_block(params->end + 1, false);
                }
            }
        }
    }

    pub proof fn lemma_var_declaration(self, p: int)
        requires
            self.wf(),
            self.valid(p),
        ensures
            self.forward(p, self.var_declaration(p)),
        decreases self.tokens.len() - p, 65int,
    {
        if self.check(p, TokenIdentity::Identifier) && self.check(p + 1, TokenIdentity::Equal) {
            self.lemma_expression(p + 2);
        }
    }

    pub proof fn lemma_statement(self, p: int, in_loop: bool)
        requires
            self.wf(),
            self.valid(p),
        ensures
            self.forward(p, self.statement(p, in_loop)),
        decreases self.tokens.len() - p, 69int,
    {
        if self.check(p, TokenIdentity::For) {
            self.lemma_for_statement(p + 1);
        } else if self.check(p, TokenIdentity::Print) {
            self.lemma_print_statement(p + 1);
        } else if self.check(p, TokenIdentity::Return) {
            self.lemma_return_statement(p + 1);
        } else if self.check(p, TokenIdentity::While) {
            self.lemma_while_statement(p + 1);
        } else if self.check(p, TokenIdentity::If) {
            self.lemma_if_statement(p + 1, in_loop);
        } else if self.check(p, TokenIdentity::LeftBrace) {
            self.lemma_block(p + 1, in_loop);
        } else if self.check(p, TokenIdentity::Break) {
        } else if self.check(p, TokenIdentity::Continue) {
        } else {
            self.lemma_expression_statement(p);
        }
    }

    pub proof fn lemma_for_initializer(self, p: int)
        requires
            self.wf(),
            self.valid(p),
        ensures
            self.forward(p, self.for_initializer(p)),
        decreases self.tokens.len() - p, 64int,
    {
        if self.check(p, TokenIdentity::Semicolon) {
        } else if self.check(p, TokenIdentity::Var) {
            self.lemma_var_declaration(p + 1);
        } else {
            self.lemma_expression_statement(p);
        }
    }

    pub proof fn lemma_optional_expression(
        self,
        p: int,
        closing: TokenIdentity,
        message: Seq<char>,
    )
        requires
            self.wf(),
            self.valid(p),
        ensures
            self.forward(p, self.optional_expression(p, closing, message)),
        decreases self.tokens.len() - p, 63int,
    {
        if !self.check(p, closing) {
            self.lemma_expression(p);
        }
    }

    pub proof fn lemma_for_statement(self, p: int)
        requires
            self.wf(),
            self.valid(p),
        ensures
            self.forward(p, self.for_statement(p)),
        decreases self.tokens.len() - p, 65int,
    {
        if self.check(p, TokenIdentity::LeftParen) {
            self.lemma_for_initializer(p + 1);
            let initializer = self.step(p, self.for_initializer(p + 1));
            if initializer is Done {
                let e2 = initializer->end;
                let semicolon = "Expect ';' after for condition."@;
                self.lemma_optional_expression(e2, TokenIdentity::Semicolon, semicolon);
                let condition = self.step(
                    p,
                    self.optional_expression(e2, TokenIdentity::Semicolon, semicolon),
                );
                if condition is Done {
                    let e3 = condition->end;
                    let paren = "Expect ')' after for clauses."@;
                    self.lemma_optional_expression(e3, TokenIdentity::RightParen, paren);
                    let increment = self.step(
                        p,
                        self.optional_expression(e3, TokenIdentity::RightParen, paren),
                    );
                    if increment is Done && self.check(increment->end, TokenIdentity::LeftBrace) {
                        self.lemma_block(increment->end + 1, true);
                    }
                }
            }
        }
    }

    pub proof fn lemma_guarded_block(
        self,
        p: int,
        in_loop: bool,
        open: Seq<char>,
        close: Seq<char>,
        brace: Seq<char>,
    )
        requires
            self.wf(),
            self.valid(p),
        ensures
            self.forward(p, self.guarded_block(p, in_loop, open, close, brace)),
        decreases self.tokens.len() - p, 63int,
    {
        if self.check(p, TokenIdentity::LeftParen) {
            self.lemma_expression(p + 1);
            let condition = self.step(p, self.expression(p + 1));
            if condition is Done {
                let e2 = condition->end;
                if self.check(e2, TokenIdentity::RightParen) && self.check(
                    e2 + 1,
                    TokenIdentity::LeftBrace,
                ) {
                    self.lemma_block(e2 + 2, in_loop);
                }
            }
        }
    }

    pub proof fn lemma_if_statement(self, p: int, in_loop: bool)
        requires
            self.wf(),
            self.valid(p),
        ensures
            self.forward(p, self.if_statement(p, in_loop)),
        decreases self.tokens.len() - p, 64int,
    {
        let open = "Expect '(' after 'if'."@;
        let close = "Expect ')' after if condition."@;
        let brace = "Expect '{' before if body."@;
        self.lemma_guarded_block(p, in_loop, open, close, brace);
        let guarded = self.step(p, self.guarded_block(p, in_loop, open, close, brace));
        if guarded is Done {
            let e1 = guarded->end;
            if self.check(e1, TokenIdentity::Else) && self.check(e1 + 1, TokenIdentity::LeftBrace) {
                self.lemma_block(e1 + 2, in_loop);
            }
        }
    }

    pub proof fn lemma_while_statement(self, p: int)
        requires
            self.wf(),
            self.valid(p),
        ensures
            self.forward(p, self.while_statement(p)),
        decreases self.tokens.len() - p, 64int,
    {
        self.lemma_guarded_block(
            p,
            true,
            "Expect '(' after 'while'."@,
            "Expect ')' after while condition."@,
            "Expect '{' before while body."@,
        );
    }

    pub proof fn lemma_print_statement(self, p: int)
        requires
            self.wf(),
            self.valid(p),
        ensures
            self.forward(p, self.print_statement(p)),
        decreases self.tokens.len() - p, 64int,
    {
        if self.check(p, TokenIdentity::LeftParen) {
            self.lemma_expression(p + 1);
        }
    }

    pub proof fn lemma_return_statement(self, p: int)
        requires
            self.wf(),
            self.valid(p),
        ensures
            self.forward(p, self.return_statement(p)),
        decreases self.tokens.len() - p, 64int,
    {
        if !self.check(p, TokenIdentity::Semicolon) {
            self.lemma_expression(p);
        }
    }

    pub proof fn lemma_expression_statement(self, p: int)
        requires
            self.wf(),
            self.valid(p),
        ensures
            self.forward(p, self.expression_statement(p)),
        decreases self.tokens.len() - p, 58int,
    {
        self.lemma_expression(p);
    }

    pub proof fn lemma_expression(self, p: int)
        requires
            self.wf(),
            self.valid(p),
        ensures
            self.forward(p, self.expression(p)),
        decreases self.tokens.len() - p, 57int,
    {
        self.lemma_lambda(p);
    }

    pub proof fn lemma_lambda(self, p: int)
        requires
            self.wf(),
            self.valid(p),
        ensures
            self.forward(p, self.lambda(p)),
        decreases self.tokens.len() - p, 56int,
    {
        if self.previous_is(p, TokenIdentity::Fun) || self.check(p, TokenIdentity::Fun) {
            let e1 = if self.previous_is(p, TokenIdentity::Fun) {
                p
            } else {
                p + 1
            };
            if self.check(e1, TokenIdentity::LeftParen) {
                self.lemma_parameters(e1 + 1);
                let params = self.step(p, self.parameters(e1 + 1));
                if params is Done && self.check(params->end, TokenIdentity::LeftBrace) {
                    self.lemma_block(params->end + 1, false);
                }
            }
        } else {
            self.lemma_ternary(p);
        }
    }

    pub proof fn lemma_ternary(self, p: int)
        requires
            self.wf(),
            self.valid(p),
        ensures
            self.forward(p, self.ternary(p)),
        decreases self.tokens.len() - p, 55int,
    {
        self.lemma_assignment(p);
        let condition = self.step(p, self.assignment(p));
        if condition is Done {
            let e1 = condition->end;
            if self.check(e1, TokenIdentity::Question) {
                self.lemma_expression(e1 + 1);
                let then_branch = self.step(p, self.expression(e1 + 1));
                if then_branch is Done && self.check(then_branch->end, TokenIdentity::Colon) {
                    self.lemma_expression(then_branch->end + 1);
                }
            }
        }
    }

    pub proof fn lemma_assignment(self, p: int)
        requires
            self.wf(),
            self.valid(p),
        ensures
            self.forward(p, self.assignment(p)),
        decreases self.tokens.len() - p, 54int,
    {
        self.lemma_chain(p, Level::Or);
        let target = self.step(p, self.chain(p, Level::Or));
        if target is Done {
            let e1 = target->end;
            if self.check(e1, TokenIdentity::Equal) {
                self.lemma_assignment(e1 + 1);
            }
        }
    }

    pub proof fn lemma_operand(self, p: int, level: Level)
        requires
            self.wf(),
            self.valid(p),
        ensures
            self.forward(p, self.operand(p, level)),
        decreases self.tokens.len() - p, level.rank() - 1,
    {
        match level {
            Level::Or => self.lemma_chain(p, Level::And),
            Level::And => self.lemma_chain(p, Level::Equality),
            Level::Equality => self.lemma_chain(p, Level::Comparison),
            Level::Comparison => self.lemma_chain(p, Level::Term),
            Level::Term => self.lemma_chain(p, Level::Factor),
            Level::Factor => self.lemma_unary(p),
        }
    }

    pub proof fn lemma_chain(self, p: int, level: Level)
        requires
            self.wf(),
            self.valid(p),
        ensures
            self.forward(p, self.chain(p, level)),
        decreases self.tokens.len() - p, level.rank(),
    {
        self.lemma_operand(p, level);
        let left = self.step(p, self.operand(p, level));
        if left is Done {
            self.lemma_chain_rest(left->end, level, left->value);
        }
    }

    pub proof fn lemma_chain_rest(self, p: int, level: Level, left: Expr)
        requires
            self.wf(),
            self.valid(p),
        ensures
            self.onward(p, self.chain_rest(p, level, left)),
        decreases self.tokens.len() - p, 0int,
    {
        if !self.at_end(p) && level.has(self.tokens[p].id) {
            self.lemma_operand(p + 1, level);
            let right = self.step(p, self.operand(p + 1, level));
            if right is Done {
                self.lemma_chain_rest(
                    right->end,
                    level,
                    level.join(left, self.tokens[p], right->value),
                );
            }
        }
    }

    pub proof fn lemma_unary(self, p: int)
        requires
            self.wf(),
            self.valid(p),
        ensures
            self.forward(p, self.unary(p)),
        decreases self.tokens.len() - p, 17int,
    {
        if self.check(p, TokenIdentity::Bang) || self.check(p, TokenIdentity::Minus) {
            self.lemma_unary(p + 1);
        } else {
            self.lemma_call(p);
        }
    }

    pub proof fn lemma_call(self, p: int)
        requires
            self.wf(),
            self.valid(p),
        ensures
            self.forward(p, self.call(p)),
        decreases self.tokens.len() - p, 16int,
    {
        self.lemma_primary(p);
        let callee = self.step(p, self.primary(p));
        if callee is Done {
            self.lemma_call_rest(callee->end, callee->value);
        }
    }

    pub proof fn lemma_call_rest(self, p: int, callee: Expr)
        requires
            self.wf(),
            self.valid(p),
        ensures
            self.onward(p, self.call_rest(p, callee)),
        decreases self.tokens.len() - p, 1int,
    {
        if self.check(p, TokenIdentity::LeftParen) {
            self.lemma_finish_call(p + 1, callee);
            let call = self.step(p, self.finish_call(p + 1, callee));
            if call is Done {
                self.lemma_call_rest(call->end, call->value);
            }
        } else if self.check(p, TokenIdentity::Dot) {
            let name = self.consume(
                p + 1,
                TokenIdentity::Identifier,
                "Expect property name after '.'."@,
            );
            if name is Done {
                self.lemma_call_rest(
                    p + 2,
                    Expr::Get(
                        std::rc::Rc::new(
                            crate::expr::GetExpr { object: callee, name: name->value },
                        ),
                    ),
                );
            }
        }
    }

    pub proof fn lemma_arguments(self, p: int, count: nat)
        requires
            self.wf(),
            self.valid(p),
        ensures
            self.forward(p, self.arguments(p, count)),
        decreases self.tokens.len() - p, 59int,
    {
        if count < 255 {
            self.lemma_expression(p);
            let first = self.step(p, self.expression(p));
            if first is Done && self.check(first->end, TokenIdentity::Comma) {
                self.lemma_arguments(first->end + 1, count + 1);
            }
        }
    }

    pub proof fn lemma_finish_call(self, p: int, callee: Expr)
        requires
            self.wf(),
            self.valid(p),
        ensures
            self.forward(p, self.finish_call(p, callee)),
        decreases self.tokens.len() - p, 60int,
    {
        if !self.check(p, TokenIdentity::RightParen) {
            self.lemma_arguments(p, 0);
        }
    }

    pub proof fn lemma_primary(self, p: int)
        requires
            self.wf(),
            self.valid(p),
        ensures
            self.forward(p, self.primary(p)),
        decreases self.tokens.len() - p, 15int,
    {
        if !self.at_end(p) && self.tokens[p].id == TokenIdentity::LeftParen {
            self.lemma_expression(p + 1);
        }
    }

    /// The guard of `step` never fails on a program: what the grammar gives
    /// for a program is made of phrases that all went forward.
    pub proof fn law_phrases_go_forward(self, p: int, in_loop: bool)
        requires
            self.wf(),
            self.valid(p),
        ensures
            self.step(p, self.declaration(p, in_loop)) == self.declaration(p, in_loop),
            self.step(p, self.expression(p)) == self.expression(p),
            self.onward(p, self.program(p)),
    {
        self.lemma_declaration(p, in_loop);
        self.lemma_expression(p);
        self.lemma_program(p);
    }
}

} // verus!
