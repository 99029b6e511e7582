//! The evaluator: it walks the syntax tree one step at a time.

use vstd::prelude::*;
use std::rc::Rc;
use crate::builtin_funcs::{ClockFunction, LoxCallable};
use crate::class::{LoxClass, LoxInstance, Property};
use crate::environment::Environment;
use crate::error::{runtime_error, RuntimeError, RuntimeException, RuntimeReturn};
use crate::expr::{AssignExpr, Expr, SuperExpr};
use crate::function::{FunctionType, LambdaFunction, LoxFunction};
use crate::list::List;
pub use crate::machine::Interpreter;
use crate::machine::{Action, Event, Frame, Mode, NumberOperator, Pending, Request};
use crate::object::{Likeness, Object};
use crate::resolver::Locals;
use crate::scoping::key;
use crate::stmt::{ClassStmt, FunctionStmt, Stmt};
use crate::table::Table;
use crate::text::push_text;
use crate::token::{Token, TokenIdentity, TokenValue};

verus! {

/// A value written out, or the number that the host is to write out.
pub enum Rendering {
    Text(String),
    Number(u64),
}

impl Interpreter {
    /// An evaluator with the global environment alone, in which `clock` is
    /// defined; no program is running.
    pub fn new() -> (interpreter: Self)
        ensures
            interpreter.wf(),
            interpreter.global == 0,
            interpreter.environment == 0,
            interpreter.locals@ == Map::<u64, usize>::empty(),
            interpreter.environments@.len() == 1,
            interpreter.environments@[0].enclosing is None,
            interpreter.environments@[0].values@ == Map::<Seq<char>, Object>::empty().insert(
                "clock"@,
                Object::Function(LoxCallable::Clock(ClockFunction)),
            ),
            interpreter.classes@.len() == 0,
            interpreter.instances@.len() == 0,
            interpreter.frames@.len() == 0,
            interpreter.mode is Idle,
    {
        let mut global = Environment::new(None);
        global.define("clock", Object::Function(LoxCallable::Clock(ClockFunction)));
        let mut environments: Vec<Environment> = Vec::new();
        environments.push(global);
        Interpreter {
            global: 0,
            environment: 0,
            locals: Locals::new(),
            environments,
            classes: Vec::new(),
            instances: Vec::new(),
            frames: Vec::new(),
            mode: Mode::Idle,
        }
    }

    /// Files the scope distance `depth` under the node `id`.
    pub fn resolve(&mut self, id: u64, depth: usize)
        ensures
            final(self).locals@ == old(self).locals@.insert(id, depth),
            final(self).global == old(self).global,
            final(self).environment == old(self).environment,
            final(self).environments == old(self).environments,
            final(self).classes == old(self).classes,
            final(self).instances == old(self).instances,
            final(self).frames == old(self).frames,
            final(self).mode == old(self).mode,
    {
        self.locals.resolve(id, depth);
    }

    /// Makes `statements` the program to run, in the current environment.
    /// What was running before is given up.
    pub fn interpret(&mut self, statements: Vec<Stmt>)
        ensures
            old(self).keeps_store(*final(self)),
            final(self).environment == old(self).environment,
            final(self).frames@ == seq![Frame::Sequence(List::of(statements@))],
            final(self).mode == Mode::Value(Object::Undefined),
    {
        self.frames = Vec::new();
        self.frames.push(Frame::Sequence(List::from_vec(statements)));
        self.mode = Mode::Value(Object::Undefined);
    }

    /// Enters `statements` as a block that runs in `environment`; the
    /// current environment is gone back to afterwards.
    pub fn execute_block(&mut self, statements: List<Stmt>, environment: usize)
        ensures
            old(self).keeps_store(*final(self)),
            final(self).environment == environment,
            final(self).frames@ == old(self).frames@.push(
                Frame::Scope { restore: old(self).environment },
            ).push(Frame::Sequence(statements)),
            final(self).mode == Mode::Value(Object::Undefined),
    {
        self.frames.push(Frame::Scope { restore: self.environment });
        self.frames.push(Frame::Sequence(statements));
        self.environment = environment;
        self.mode = Mode::Value(Object::Undefined);
    }

    pub(crate) fn go(&mut self, mode: Mode)
        ensures
            old(self).goes(*final(self), old(self).frames@, mode),
    {
        self.mode = mode;
    }

    pub(crate) fn enter(&mut self, frame: Frame, mode: Mode)
        ensures
            old(self).goes(*final(self), old(self).frames@.push(frame), mode),
    {
        self.frames.push(frame);
        self.mode = mode;
    }

    pub(crate) fn raise(&mut self, token: &Token, message: &str)
        ensures
            old(self).raises(*final(self), old(self).frames@, token@, message@),
    {
        self.mode = Mode::Unwind(
            RuntimeException::Error(RuntimeError::new(token.clone(), message)),
        );
    }

    pub(crate) fn ask(&mut self, request: Request, pending: Pending) -> (action: Action)
        ensures
            old(self).asks(*final(self), old(self).frames@, action, request, pending),
    {
        let action = Action::Ask(request.share());
        self.mode = Mode::Await { request, pending };
        action
    }

    pub(crate) fn settle(&mut self, r: Result<Object, RuntimeException>)
        ensures
            old(self).keeps_all(*final(self), old(self).frames@),
            Self::settles(final(self).mode, r),
            Self::settled(final(self).mode),
            Self::outcome(final(self).mode) == r,
    {
        match r {
            Ok(value) => {
                self.mode = Mode::Value(value);
            },
            Err(x) => {
                self.mode = Mode::Unwind(x);
            },
        }
    }

    /// Takes the frame on top off.
    pub(crate) fn pop(&mut self) -> (frame: Frame)
        requires
            old(self).frames@.len() > 0,
        ensures
            old(self).keeps_all(*final(self), old(self).frames@.drop_last()),
            final(self).mode == old(self).mode,
            frame == old(self).frames@.last(),
    {
        self.frames.pop().unwrap()
    }

    /// Writes a value out, as far as that is not the host's to do.
    pub fn render(&self, value: &Object) -> (r: Rendering)
        ensures
            match *value {
                Object::Number(n) => r == Rendering::Number(n),
                _ => r matches Rendering::Text(text) && text@ == self.display(*value),
            },
    {
        match value {
            Object::Boolean(b) => Rendering::Text(
                if *b {
                    String::from_str("true")
                } else {
                    String::from_str("false")
                },
            ),
            Object::Number(n) => Rendering::Number(*n),
            Object::String(s) => Rendering::Text(s.clone()),
            Object::Function(f) => Rendering::Text(f.to_text()),
            Object::Instance(i) => {
                let mut text = String::from_str("<");
                if *i < self.instances.len() {
                    let class = self.instances[*i].class;
                    if class < self.classes.len() {
                        push_text(&mut text, self.classes[class].name.as_str());
                    }
                }
                proof {
                    assert(text@ + Seq::<char>::empty() =~= text@);
                }
                push_text(&mut text, " instance>");
                Rendering::Text(text)
            },
            Object::Class(c) => Rendering::Text(
                if *c < self.classes.len() {
                    self.classes[*c].name.clone()
                } else {
                    String::new()
                },
            ),
            Object::Nil => Rendering::Text(String::from_str("nil")),
            Object::Undefined => Rendering::Text(String::from_str("undefined")),
        }
    }

    /// Enters a block: a new scope inside the current one.
    pub(crate) fn open(&mut self, statements: List<Stmt>)
        requires
            old(self).wf(),
        ensures
            final(self).wf(),
            old(self).opens(*final(self), old(self).frames@, statements),
    {
        let inner = self.environments.len();
        let ghost before = self.environments@;
        self.environments.push(Environment::new(Some(self.environment)));
        proof {
            assert(self.environments@.drop_last() =~= before);
        }
        self.frames.push(Frame::Scope { restore: self.environment });
        self.frames.push(Frame::Sequence(statements));
        self.environment = inner;
        self.mode = Mode::Value(Object::Undefined);
    }

    /// Reads the variable of a node.
    pub(crate) fn lookup_variable(&self, id: u64, name: &Token) -> (r: Result<
        Object,
        RuntimeException,
    >)
        requires
            self.wf(),
        ensures
            self.variable(id, *name, r),
    {
        match self.locals.get(id) {
            Some(distance) => Environment::get_at(
                &self.environments,
                self.environment,
                distance,
                name,
            ),
            None => Environment::get(&self.environments, self.global, name),
        }
    }

    pub(crate) fn look_up(&mut self, id: u64, name: &Token)
        requires
            old(self).wf(),
        ensures
            final(self).wf(),
            old(self).looks_up(*final(self), old(self).frames@, id, *name),
    {
        let r = self.lookup_variable(id, name);
        self.settle(r);
    }

    pub(crate) fn assign(&mut self, node: &AssignExpr, value: Object)
        requires
            old(self).wf(),
        ensures
            final(self).wf(),
            old(self).assigns(*final(self), old(self).frames@, *node, value),
    {
        let r = match self.locals.get(node.id) {
            Some(distance) => Environment::assign_at(
                &mut self.environments,
                self.environment,
                distance,
                &node.name,
                value.share(),
            ),
            None => Environment::assign(
                &mut self.environments,
                self.global,
                &node.name,
                value.share(),
            ),
        };
        match r {
            Ok(_) => {
                self.mode = Mode::Value(value);
            },
            Err(x) => {
                self.mode = Mode::Unwind(x);
            },
        }
    }

    pub(crate) fn define(&mut self, name: &str, value: Object)
        requires
            old(self).wf(),
        ensures
            final(self).wf(),
            old(self).defines(*final(self), old(self).frames@, name@, value),
    {
        Environment::define_at(&mut self.environments, self.environment, name, value);
        self.mode = Mode::Value(Object::Undefined);
    }
}

fn invalid_operands_text(left: &str, right: &str) -> (s: String)
    ensures
        s@ == crate::semantics::invalid_operands(left@, right@),
{
    let mut s = String::from_str("Invalid operands ");
    push_text(&mut s, left);
    push_text(&mut s, " and ");
    push_text(&mut s, right);
    push_text(&mut s, " for + operator.");
    s
}

impl Interpreter {
    pub(crate) fn compare(&mut self, operator: NumberOperator, left: Object, right: Object) -> (action:
        Action)
        ensures
            old(self).compares(*final(self), old(self).frames@, action, operator, left, right),
    {
        match (left, right) {
            (Object::Number(a), Object::Number(b)) => self.ask(
                Request::Binary { operator, left: a, right: b },
                Pending::Boolean { negate: false },
            ),
            _ => {
                self.go(Mode::Value(Object::Boolean(false)));
                Action::Continue
            },
        }
    }

    pub(crate) fn equate(&mut self, left: Object, right: Object, negate: bool) -> (action: Action)
        ensures
            old(self).equates(*final(self), old(self).frames@, action, left, right, negate),
    {
        match left.compare(&right) {
            Likeness::Equal => {
                self.go(Mode::Value(Object::Boolean(!negate)));
                Action::Continue
            },
            Likeness::Unequal => {
                self.go(Mode::Value(Object::Boolean(negate)));
                Action::Continue
            },
            Likeness::Numbers(a, b) => self.ask(
                Request::Binary { operator: NumberOperator::Equal, left: a, right: b },
                Pending::Boolean { negate },
            ),
        }
    }

    pub(crate) fn calculate(
        &mut self,
        token: &Token,
        operator: NumberOperator,
        left: Object,
        right: Object,
    ) -> (action: Action)
        ensures
            old(self).calculates(
                *final(self),
                old(self).frames@,
                action,
                *token,
                operator,
                left,
                right,
            ),
    {
        match (left, right) {
            (Object::Number(a), Object::Number(b)) => self.ask(
                Request::Binary { operator, left: a, right: b },
                Pending::Number,
            ),
            _ => {
                self.raise(token, "Only support number operands.");
                Action::Continue
            },
        }
    }

    pub(crate) fn divide(&mut self, token: &Token, left: Object, right: Object) -> (action: Action)
        ensures
            old(self).divides(*final(self), old(self).frames@, action, *token, left, right),
    {
        match (left, right) {
            (Object::Number(a), Object::Number(b)) => self.ask(
                Request::IsZero(b),
                Pending::Divisor { operator: token.clone(), left: a, right: b },
            ),
            _ => {
                self.raise(token, "Only support number operands.");
                Action::Continue
            },
        }
    }

    pub(crate) fn reject(&mut self, token: &Token, left: Object, right: Object) -> (action: Action)
        ensures
            old(self).rejects(*final(self), old(self).frames@, action, *token, left, right),
    {
        match self.render(&left) {
            Rendering::Number(n) => self.ask(
                Request::Format(n),
                Pending::InvalidLeft { operator: token.clone(), right },
            ),
            Rendering::Text(left_text) => match self.render(&right) {
                Rendering::Number(m) => self.ask(
                    Request::Format(m),
                    Pending::InvalidRight { operator: token.clone(), left: left_text },
                ),
                Rendering::Text(right_text) => {
                    let message = invalid_operands_text(left_text.as_str(), right_text.as_str());
                    self.raise(token, message.as_str());
                    Action::Continue
                },
            },
        }
    }

    pub(crate) fn add(&mut self, token: &Token, left: Object, right: Object) -> (action: Action)
        ensures
            old(self).adds(*final(self), old(self).frames@, action, *token, left, right),
    {
        match (left, right) {
            (Object::Number(a), Object::Number(b)) => self.ask(
                Request::Binary { operator: NumberOperator::Add, left: a, right: b },
                Pending::Number,
            ),
            (Object::String(a), Object::String(b)) => {
                let mut joined = a;
                push_text(&mut joined, b.as_str());
                self.go(Mode::Value(Object::String(joined)));
                Action::Continue
            },
            (Object::String(a), Object::Number(n)) => self.ask(
                Request::Format(n),
                Pending::Concat { left: a },
            ),
            (left, right) => self.reject(token, left, right),
        }
    }

    /// Applies a binary operator to its operands.
    pub(crate) fn apply(&mut self, operator: &Token, left: Object, right: Object) -> (action: Action)
        ensures
            old(self).applies(*final(self), old(self).frames@, action, *operator, left, right),
    {
        match operator.id {
            TokenIdentity::Greater => self.compare(NumberOperator::Greater, left, right),
            TokenIdentity::GreaterEqual => self.compare(NumberOperator::GreaterEqual, left, right),
            TokenIdentity::Less => self.compare(NumberOperator::Less, left, right),
            TokenIdentity::LessEqual => self.compare(NumberOperator::LessEqual, left, right),
            TokenIdentity::BangEqual => self.equate(left, right, true),
            TokenIdentity::EqualEqual => self.equate(left, right, false),
            TokenIdentity::Minus => self.calculate(operator, NumberOperator::Subtract, left, right),
            TokenIdentity::Star => self.calculate(operator, NumberOperator::Multiply, left, right),
            TokenIdentity::Slash => self.divide(operator, left, right),
            TokenIdentity::Plus => self.add(operator, left, right),
            _ => {
                self.raise(operator, "Unsupported operator.");
                Action::Continue
            },
        }
    }

    /// Applies a unary operator to its operand.
    pub(crate) fn negate(&mut self, operator: &Token, value: Object) -> (action: Action)
        ensures
            old(self).negates(*final(self), old(self).frames@, action, *operator, value),
    {
        match operator.id {
            TokenIdentity::Bang => {
                self.go(Mode::Value(Object::Boolean(!value.is_truthy())));
                Action::Continue
            },
            TokenIdentity::Minus => match value {
                Object::Number(n) => self.ask(Request::Negate(n), Pending::Number),
                _ => {
                    self.raise(operator, "Only support number operands.");
                    Action::Continue
                },
            },
            _ => {
                self.go(Mode::Value(Object::Nil));
                Action::Continue
            },
        }
    }

    pub(crate) fn print(&mut self, value: Object) -> (action: Action)
        ensures
            old(self).prints(*final(self), old(self).frames@, action, value),
    {
        match self.render(&value) {
            Rendering::Number(n) => self.ask(Request::Format(n), Pending::Print),
            Rendering::Text(line) => {
                self.go(Mode::Value(Object::Undefined));
                Action::Print(line)
            },
        }
    }

    /// Takes the host's answer to a request.
    pub(crate) fn answer(&mut self, request: Request, pending: Pending, event: Event) -> (action:
        Action)
        ensures
            old(self).answers(*final(self), action, request, pending, event),
    {
        match (pending, event) {
            (Pending::Number, Event::Number(n)) => {
                self.go(Mode::Value(Object::Number(n)));
                Action::Continue
            },
            (Pending::Boolean { negate }, Event::Boolean(b)) => {
                self.go(Mode::Value(Object::Boolean(b != negate)));
                Action::Continue
            },
            (Pending::Divisor { operator, left, right }, Event::Boolean(zero)) => {
                if zero {
                    self.raise(&operator, "Divided by zero.");
                    Action::Continue
                } else {
                    self.ask(
                        Request::Binary { operator: NumberOperator::Divide, left, right },
                        Pending::Number,
                    )
                }
            },
            (Pending::Concat { left }, Event::Text(text)) => {
                let mut joined = left;
                push_text(&mut joined, text.as_str());
                self.go(Mode::Value(Object::String(joined)));
                Action::Continue
            },
            (Pending::Print, Event::Text(text)) => {
                self.go(Mode::Value(Object::Undefined));
                Action::Print(text)
            },
            (Pending::InvalidLeft { operator, right }, Event::Text(text)) => {
                match self.render(&right) {
                    Rendering::Number(m) => self.ask(
                        Request::Format(m),
                        Pending::InvalidRight { operator, left: text },
                    ),
                    Rendering::Text(right_text) => {
                        let message = invalid_operands_text(text.as_str(), right_text.as_str());
                        self.raise(&operator, message.as_str());
                        Action::Continue
                    },
                }
            },
            (Pending::InvalidRight { operator, left }, Event::Text(text)) => {
                let message = invalid_operands_text(left.as_str(), text.as_str());
                self.raise(&operator, message.as_str());
                Action::Continue
            },
            (pending, _) => {
                let action = Action::Ask(request.share());
                self.go(Mode::Await { request, pending });
                action
            },
        }
    }
}

fn no_such_method_text(class: &str, name: &str) -> (s: String)
    ensures
        s@ == crate::semantics::no_such_method(class@, name@),
{
    let mut s = String::from_str("Class ");
    push_text(&mut s, class);
    push_text(&mut s, " doesn't have a method named '");
    push_text(&mut s, name);
    push_text(&mut s, "'.");
    s
}

/// The values of a list in a vector, last to first.
fn reversed(list: &List<Object>) -> (v: Vec<Object>)
    ensures
        v@ == list@.reverse(),
{
    let mut forward: Vec<Object> = Vec::new();
    let mut cursor = list;
    proof {
        assert(list@.skip(0) =~= list@);
    }
    loop
        invariant
            forward@.len() <= list@.len(),
            forward@ == list@.take(forward@.len() as int),
            cursor@ == list@.skip(forward@.len() as int),
        ensures
            forward@ == list@,
        decreases list@.len() - forward@.len(),
    {
        proof {
            List::lemma_view(cursor);
        }
        match cursor {
            List::Nil => {
                proof {
                    assert(list@.take(list@.len() as int) =~= list@);
                }
                break ;
            },
            List::Cons(node) => {
                let ghost k = forward@.len() as int;
                forward.push(node.head.share());
                cursor = &node.tail;
                proof {
                    assert(list@.skip(k)[0] == list@[k]);
                    assert(forward@ =~= list@.take(k + 1));
                    assert(list@.skip(k).drop_first() =~= list@.skip(k + 1));
                }
            },
        }
    }
    let mut v: Vec<Object> = Vec::new();
    let mut i: usize = forward.len();
    while i > 0
        invariant
            i <= forward@.len(),
            forward@ == list@,
            v@.len() == forward@.len() - i,
            forall|j: int| 0 <= j < v@.len() ==> v@[j] == list@[list@.len() - 1 - j],
        decreases i,
    {
        i -= 1;
        v.push(forward[i].share());
    }
    proof {
        assert(v@ =~= list@.reverse());
    }
    v
}

/// The token that a lookup of `this` points at.
fn this_keyword() -> (t: Token)
    ensures
        t@ == crate::machine::this_token(),
        key(t) == "this"@,
{
    Token::new(TokenIdentity::This, TokenValue::String(String::from_str("this")), 0, 0)
}

/// A scope inside `closure` with the parameters bound to the arguments, as
/// far as both go.
fn call_scope(closure: usize, params: &List<Token>, arguments: &Vec<Object>) -> (scope: Environment)
    ensures
        scope.values.wf(),
        scope.enclosing == Some(closure),
        scope.values@ == crate::semantics::bound_parameters(
            params@,
            arguments@,
            crate::semantics::shorter(params@.len(), arguments@.len()),
        ),
{
    let mut scope = Environment::new(Some(closure));
    let mut cursor = params;
    let mut i: usize = 0;
    proof {
        assert(params@.skip(0) =~= params@);
    }
    loop
        invariant
            i <= arguments@.len(),
            i <= params@.len(),
            cursor@ == params@.skip(i as int),
            scope.values.wf(),
            scope.enclosing == Some(closure),
            scope.values@ == crate::semantics::bound_parameters(params@, arguments@, i as nat),
        ensures
            i == crate::semantics::shorter(params@.len(), arguments@.len()),
            scope.values.wf(),
            scope.enclosing == Some(closure),
            scope.values@ == crate::semantics::bound_parameters(params@, arguments@, i as nat),
        decreases arguments@.len() - i,
    {
        proof {
            List::lemma_view(cursor);
        }
        match cursor {
            List::Nil => {
                break ;
            },
            List::Cons(node) => {
                if i >= arguments.len() {
                    break ;
                }
                let name = node.head.value.to_text();
                proof {
                    assert(params@.skip(i as int)[0] == params@[i as int]);
                    assert(params@.skip(i as int).drop_first() =~= params@.skip(i + 1));
                }
                scope.define(name.as_str(), arguments[i].share());
                cursor = &node.tail;
                i += 1;
            },
        }
    }
    scope
}

impl Interpreter {
    /// Enters a function.
    pub(crate) fn invoke(
        &mut self,
        params: &List<Token>,
        body: List<Stmt>,
        kind: FunctionType,
        closure: usize,
        arguments: &Vec<Object>,
    ) -> (action: Action)
        requires
            old(self).wf(),
        ensures
            final(self).wf(),
            old(self).invokes(
                *final(self),
                old(self).frames@,
                action,
                *params,
                body,
                kind,
                closure,
                arguments@,
            ),
    {
        let scope = call_scope(closure, params, arguments);
        let inner = self.environments.len();
        let ghost before = self.environments@;
        self.environments.push(scope);
        proof {
            assert(self.environments@.drop_last() =~= before);
        }
        self.frames.push(Frame::Call { kind, closure, restore: self.environment });
        self.frames.push(Frame::Sequence(body));
        self.environment = inner;
        self.mode = Mode::Value(Object::Undefined);
        Action::Continue
    }

    /// Binds a method to an instance and enters it.
    pub(crate) fn invoke_bound(
        &mut self,
        method: &LoxFunction,
        instance: usize,
        arguments: &Vec<Object>,
    ) -> (action: Action)
        requires
            old(self).wf(),
        ensures
            final(self).wf(),
            final(self).instances == old(self).instances,
            old(self).invokes_bound(
                *final(self),
                old(self).frames@,
                action,
                *method,
                instance,
                arguments@,
            ),
    {
        let ghost before = self.environments@;
        let bound = method.bind(&mut self.environments, instance);
        let scope = call_scope(bound.closure, &method.declaration.params, arguments);
        let inner = self.environments.len();
        self.environments.push(scope);
        proof {
            assert(self.environments@.take(before.len() as int) =~= before);
        }
        self.frames.push(
            Frame::Call { kind: method.kind, closure: bound.closure, restore: self.environment },
        );
        self.frames.push(Frame::Sequence(method.declaration.body.statements.share()));
        self.environment = inner;
        self.mode = Mode::Value(Object::Undefined);
        Action::Continue
    }

    /// Binds a method to an instance; the bound method is the value.
    pub(crate) fn bind_method(&mut self, method: &LoxFunction, instance: usize) -> (action: Action)
        requires
            old(self).wf(),
        ensures
            final(self).wf(),
            old(self).binds_method(*final(self), old(self).frames@, action, *method, instance),
    {
        let ghost before = self.environments@;
        let bound = method.bind(&mut self.environments, instance);
        proof {
            assert(self.environments@.drop_last() =~= before);
        }
        self.mode = Mode::Value(Object::Function(LoxCallable::Function(bound)));
        Action::Continue
    }

    /// Calls a class.
    pub(crate) fn construct(&mut self, paren: &Token, class: usize, arguments: &Vec<Object>) -> (action:
        Action)
        requires
            old(self).wf(),
        ensures
            final(self).wf(),
            old(self).constructs(
                *final(self),
                old(self).frames@,
                action,
                *paren,
                class,
                arguments@,
            ),
    {
        if class >= self.classes.len() {
            self.raise(paren, "Can only call functions and classes.");
            return Action::Continue;
        }
        let instance = self.instances.len();
        let ghost before = self.instances@;
        self.instances.push(LoxInstance::new(class));
        proof {
            assert(self.instances@.drop_last() =~= before);
        }
        let name = String::from_str("init");
        match LoxClass::find_method(&self.classes, class, &name) {
            Some(init) => {
                self.frames.push(Frame::Construct { instance });
                self.invoke_bound(&init, instance, arguments)
            },
            None => {
                self.mode = Mode::Value(Object::Instance(instance));
                Action::Continue
            },
        }
    }

    /// Calls a callee with its arguments.
    pub(crate) fn call(&mut self, paren: &Token, callee: Object, arguments: &Vec<Object>) -> (action:
        Action)
        requires
            old(self).wf(),
        ensures
            final(self).wf(),
            old(self).calls(*final(self), old(self).frames@, action, *paren, callee, arguments@),
    {
        match callee {
            Object::Function(LoxCallable::Clock(_)) => self.ask(Request::Clock, Pending::Number),
            Object::Function(LoxCallable::Function(f)) => self.invoke(
                &f.declaration.params,
                f.declaration.body.statements.share(),
                f.kind,
                f.closure,
                arguments,
            ),
            Object::Function(LoxCallable::Lambda(l)) => {
                let global = self.global;
                self.invoke(
                    &l.declaration.params,
                    l.declaration.body.statements.share(),
                    FunctionType::Function,
                    global,
                    arguments,
                )
            },
            Object::Class(class) => self.construct(paren, class, arguments),
            _ => {
                self.raise(paren, "Can only call functions and classes.");
                Action::Continue
            },
        }
    }

    /// Reads a property.
    pub(crate) fn get(&mut self, name: &Token, object: Object) -> (action: Action)
        requires
            old(self).wf(),
        ensures
            final(self).wf(),
            old(self).gets(*final(self), old(self).frames@, action, *name, object),
    {
        let text = name.value.to_text();
        match object {
            Object::Instance(i) => {
                if i >= self.instances.len() {
                    self.raise(name, "Only instances have properties.");
                    return Action::Continue;
                }
                match self.instances[i].get(&self.classes, &text) {
                    Property::Getter(getter) => {
                        let nothing: Vec<Object> = Vec::new();
                        proof {
                            assert(nothing@ =~= Seq::empty());
                        }
                        self.invoke_bound(&getter, i, &nothing)
                    },
                    Property::Field(value) => {
                        self.go(Mode::Value(value));
                        Action::Continue
                    },
                    Property::Method(method) => self.bind_method(&method, i),
                    Property::Missing => {
                        self.raise(name, "Undefined property.");
                        Action::Continue
                    },
                }
            },
            Object::Class(c) => {
                if c >= self.classes.len() {
                    self.raise(name, "Only instances have properties.");
                    return Action::Continue;
                }
                match LoxClass::find_method(&self.classes, c, &text) {
                    Some(method) => {
                        self.go(Mode::Value(Object::Function(LoxCallable::Function(method))));
                        Action::Continue
                    },
                    None => {
                        let message = no_such_method_text(
                            self.classes[c].name.as_str(),
                            text.as_str(),
                        );
                        self.raise(name, message.as_str());
                        Action::Continue
                    },
                }
            },
            _ => {
                self.raise(name, "Only instances have properties.");
                Action::Continue
            },
        }
    }

    /// Writes a field of an instance.
    pub(crate) fn store(&mut self, name: &Token, instance: usize, value: Object) -> (action: Action)
        requires
            old(self).wf(),
        ensures
            final(self).wf(),
            old(self).stores(*final(self), old(self).frames@, action, *name, instance, value),
    {
        if instance >= self.instances.len() {
            self.raise(name, "Only instances have properties.");
            return Action::Continue;
        }
        self.instances[instance].set(name.value.to_text(), value.share());
        self.mode = Mode::Value(value);
        Action::Continue
    }

    /// Ends a call.
    pub(crate) fn finish_call(
        &mut self,
        kind: FunctionType,
        closure: usize,
        restore: usize,
        result: Object,
    ) -> (action: Action)
        requires
            old(self).wf(),
        ensures
            final(self).wf(),
            old(self).comes_back(
                *final(self),
                old(self).frames@,
                action,
                kind,
                closure,
                restore,
                result,
            ),
    {
        self.environment = restore;
        if kind == FunctionType::Initializer {
            let this = this_keyword();
            let r = Environment::get(&self.environments, closure, &this);
            self.settle(r);
        } else {
            self.mode = Mode::Value(result);
        }
        Action::Continue
    }

    /// Reads `name` from the scope `distance` hops out.
    fn fetch(&self, distance: Option<usize>, name: &Token) -> (r: Result<Object, RuntimeException>)
        requires
            self.wf(),
        ensures
            match r {
                Ok(value) => crate::environment::found(
                    self.environments@,
                    self.hops(
                        match distance {
                            Some(d) => d as int,
                            None => -1,
                        },
                    ),
                    key(*name),
                ) == Some(value),
                Err(x) => {
                    &&& crate::environment::found(
                        self.environments@,
                        self.hops(
                            match distance {
                                Some(d) => d as int,
                                None => -1,
                            },
                        ),
                        key(*name),
                    ) is None
                    &&& match self.hops(
                        match distance {
                            Some(d) => d as int,
                            None => -1,
                        },
                    ) {
                        Some(scope) => crate::environment::read_as(
                            self.environments@,
                            scope,
                            key(*name),
                            name@,
                            r,
                        ),
                        None => crate::error::fails_with(
                            r,
                            name@,
                            "The variable isn't declared."@,
                        ),
                    }
                },
            },
    {
        match distance {
            Some(d) => Environment::get_at(&self.environments, self.environment, d, name),
            None => runtime_error(name, "The variable isn't declared."),
        }
    }

    /// Evaluates `super.method`.
    pub(crate) fn super_method(&mut self, node: &SuperExpr) -> (action: Action)
        requires
            old(self).wf(),
        ensures
            final(self).wf(),
            old(self).supers(*final(self), old(self).frames@, action, *node),
    {
        let distance = self.locals.get(node.id);
        let class = match self.fetch(distance, &node.keyword) {
            Ok(Object::Class(class)) => class,
            Ok(_) => {
                self.raise(&node.keyword, "Superclass must be a class.");
                return Action::Continue;
            },
            Err(x) => {
                self.go(Mode::Unwind(x));
                return Action::Continue;
            },
        };
        let inner = match distance {
            Some(d) => if d > 0 {
                Some((d - 1) as usize)
            } else {
                None
            },
            None => None,
        };
        let this = this_keyword();
        let instance = match self.fetch(inner, &this) {
            Ok(Object::Instance(instance)) => instance,
            Ok(_) => {
                self.raise(&node.keyword, "Cannot bind non-instance object.");
                return Action::Continue;
            },
            Err(x) => {
                self.go(Mode::Unwind(x));
                return Action::Continue;
            },
        };
        let name = node.method.value.to_text();
        match LoxClass::find_method(&self.classes, class, &name) {
            Some(method) => self.bind_method(&method, instance),
            None => {
                self.raise(&node.method, "Undefined property.");
                Action::Continue
            },
        }
    }
}

/// Enters the methods of `methods` into `table`.
fn add_methods(
    table: &mut Table<LoxFunction>,
    methods: &List<Rc<FunctionStmt>>,
    closure: usize,
    kind: Option<FunctionType>,
)
    requires
        old(table).wf(),
    ensures
        final(table).wf(),
        final(table)@ == crate::semantics::with_methods(old(table)@, *methods, closure, kind),
    decreases methods,
{
    match methods {
        List::Nil => {},
        List::Cons(node) => {
            let function = LoxFunction::new(
                node.head.clone(),
                closure,
                match kind {
                    Some(kind) => kind,
                    None => node.head.kind,
                },
            );
            table.insert(node.head.name.value.to_text(), function);
            add_methods(table, &node.tail, closure, kind);
        },
    }
}

impl Interpreter {
    /// Builds a class and defines it under its name.
    pub(crate) fn build_class(&mut self, node: &ClassStmt, superclass: Option<usize>)
        requires
            old(self).wf(),
        ensures
            final(self).wf(),
            old(self).builds(*final(self), old(self).frames@, *node, superclass),
    {
        let ghost before = self.environments@;
        let n = self.environments.len();
        let name = node.name.value.to_text();
        let class = self.classes.len();
        Environment::define_at(
            &mut self.environments,
            self.environment,
            name.as_str(),
            Object::Class(class),
        );
        let ghost defined = self.environments@;
        let closure = match superclass {
            Some(above) => {
                let mut scope = Environment::new(Some(self.environment));
                scope.define("super", Object::Class(above));
                self.environments.push(scope);
                n
            },
            None => self.environment,
        };
        let statics = self.environments.len();
        self.environments.push(Environment::new(Some(closure)));
        proof {
            assert(self.environments@.take(n as int) =~= defined);
        }
        let mut methods: Table<LoxFunction> = Table::new();
        add_methods(&mut methods, &node.methods, closure, None);
        add_methods(&mut methods, &node.getter_methods, closure, Some(FunctionType::GetterMethod));
        add_methods(&mut methods, &node.static_methods, statics, Some(FunctionType::StaticMethod));
        let ghost classes = self.classes@;
        self.classes.push(LoxClass::new(name, superclass, methods));
        proof {
            assert(self.classes@.drop_last() =~= classes);
        }
        self.mode = Mode::Value(Object::Undefined);
    }

    /// Executes a class declaration.
    pub(crate) fn declare_class(&mut self, node: &ClassStmt) -> (action: Action)
        requires
            old(self).wf(),
        ensures
            final(self).wf(),
            old(self).declares(*final(self), old(self).frames@, action, *node),
    {
        match &node.superclass {
            Some(variable) => {
                match self.lookup_variable(variable.id, &variable.name) {
                    Ok(Object::Class(class)) => {
                        self.build_class(node, Some(class));
                    },
                    Ok(_) => {
                        self.raise(&variable.name, "Superclass must be a class.");
                    },
                    Err(x) => {
                        self.settle(Err(x));
                    },
                }
            },
            None => {
                self.build_class(node, None);
            },
        }
        Action::Continue
    }

    /// Starts the evaluation of an expression.
    pub(crate) fn evaluate(&mut self, e: Expr) -> (action: Action)
        requires
            old(self).wf(),
        ensures
            final(self).wf(),
            old(self).evaluates(*final(self), action, e),
    {
        match e {
            Expr::Assign(a) => {
                let value = a.value.share();
                self.enter(Frame::Assign(a), Mode::Eval(value));
                Action::Continue
            },
            Expr::Binary(b) => {
                let left = b.left.share();
                self.enter(Frame::BinaryLeft(b), Mode::Eval(left));
                Action::Continue
            },
            Expr::Call(c) => {
                let callee = c.callee.share();
                self.enter(Frame::Callee(c), Mode::Eval(callee));
                Action::Continue
            },
            Expr::Get(g) => {
                let object = g.object.share();
                self.enter(Frame::Get(g), Mode::Eval(object));
                Action::Continue
            },
            Expr::Grouping(g) => {
                self.go(Mode::Eval(g.expression.share()));
                Action::Continue
            },
            Expr::Lambda(l) => {
                self.go(Mode::Value(Object::Function(LoxCallable::Lambda(LambdaFunction::new(l)))));
                Action::Continue
            },
            Expr::Literal(l) => match &l.value {
                TokenValue::Nil => {
                    self.go(Mode::Value(Object::Nil));
                    Action::Continue
                },
                TokenValue::Bool(b) => {
                    self.go(Mode::Value(Object::Boolean(*b)));
                    Action::Continue
                },
                TokenValue::String(text) => {
                    self.go(Mode::Value(Object::String(text.clone())));
                    Action::Continue
                },
                TokenValue::Number(text) => self.ask(Request::Parse(text.clone()), Pending::Number),
            },
            Expr::Logical(l) => {
                let left = l.left.share();
                self.enter(Frame::Logical(l), Mode::Eval(left));
                Action::Continue
            },
            Expr::SetProperty(p) => {
                let object = p.object.share();
                self.enter(Frame::SetObject(p), Mode::Eval(object));
                Action::Continue
            },
            Expr::Super(s) => self.super_method(&s),
            Expr::This(t) => {
                self.look_up(t.id, &t.keyword);
                Action::Continue
            },
            Expr::Ternary(t) => {
                let condition = t.condition.share();
                self.enter(Frame::Ternary(t), Mode::Eval(condition));
                Action::Continue
            },
            Expr::Unary(u) => {
                let right = u.right.share();
                self.enter(Frame::Unary(u), Mode::Eval(right));
                Action::Continue
            },
            Expr::Variable(v) => {
                self.look_up(v.id, &v.name);
                Action::Continue
            },
        }
    }

    /// Starts the execution of a statement.
    pub(crate) fn execute(&mut self, statement: Stmt) -> (action: Action)
        requires
            old(self).wf(),
        ensures
            final(self).wf(),
            old(self).executes(*final(self), action, statement),
    {
        match statement {
            Stmt::Block(b) => {
                self.open(b.statements.share());
                Action::Continue
            },
            Stmt::Break => {
                self.go(Mode::Unwind(RuntimeException::Break));
                Action::Continue
            },
            Stmt::Continue => {
                self.go(Mode::Unwind(RuntimeException::Continue));
                Action::Continue
            },
            Stmt::Class(c) => self.declare_class(&c),
            Stmt::Expression(e) => {
                self.go(Mode::Eval(e.expr.share()));
                Action::Continue
            },
            Stmt::Function(f) => {
                let name = f.name.value.to_text();
                let function = LoxFunction::new(f, self.environment, FunctionType::Function);
                self.define(name.as_str(), Object::Function(LoxCallable::Function(function)));
                Action::Continue
            },
            Stmt::If(i) => {
                let condition = i.condition.share();
                self.enter(Frame::If(i), Mode::Eval(condition));
                Action::Continue
            },
            Stmt::Print(p) => {
                self.enter(Frame::Print, Mode::Eval(p.expr.share()));
                Action::Continue
            },
            Stmt::Return(r) => {
                match &r.value {
                    Some(value) => {
                        self.enter(Frame::Return, Mode::Eval(value.share()));
                    },
                    None => {
                        self.go(
                            Mode::Unwind(
                                RuntimeException::Return(RuntimeReturn::new(Object::Nil)),
                            ),
                        );
                    },
                }
                Action::Continue
            },
            Stmt::Var(v) => {
                match &v.initializer {
                    Some(initializer) => {
                        let initializer = initializer.share();
                        self.enter(Frame::Var(v), Mode::Eval(initializer));
                    },
                    None => {
                        let name = v.name.value.to_text();
                        self.define(name.as_str(), Object::Undefined);
                    },
                }
                Action::Continue
            },
            Stmt::While(w) => {
                let condition = w.condition.share();
                self.enter(Frame::WhileCondition(w), Mode::Eval(condition));
                Action::Continue
            },
        }
    }
}

impl Interpreter {
    /// Goes back to the environment `restore`, with the mode as it is.
    fn leave(&mut self, restore: usize)
        ensures
            old(self).keeps_store(*final(self)),
            final(self).environment == restore,
            final(self).frames == old(self).frames,
            final(self).mode == old(self).mode,
    {
        self.environment = restore;
    }

    /// Calls the callee with the arguments that are done and the last one.
    fn call_with(&mut self, paren: &Token, callee: Object, done: &List<Object>, last: Object) -> (action:
        Action)
        requires
            old(self).wf(),
        ensures
            final(self).wf(),
            old(self).calls(
                *final(self),
                old(self).frames@,
                action,
                *paren,
                callee,
                done@.reverse().push(last),
            ),
    {
        let mut arguments = reversed(done);
        arguments.push(last);
        self.call(paren, callee, &arguments)
    }

    /// Hands a value to the frame on top.
    pub(crate) fn deliver(&mut self, value: Object) -> (action: Action)
        requires
            old(self).wf(),
            old(self).frames@.len() > 0,
        ensures
            final(self).wf(),
            old(self).delivers(*final(self), action, value),
    {
        let frame = self.pop();
        match frame {
            Frame::Assign(a) => {
                self.assign(&a, value);
                Action::Continue
            },
            Frame::BinaryLeft(b) => {
                let right = b.right.share();
                self.enter(Frame::BinaryRight { node: b, left: value }, Mode::Eval(right));
                Action::Continue
            },
            Frame::BinaryRight { node, left } => self.apply(&node.operator, left, value),
            Frame::Callee(c) => match &c.arguments {
                List::Nil => {
                    let nothing: Vec<Object> = Vec::new();
                    proof {
                        assert(nothing@ =~= Seq::empty());
                    }
                    self.call(&c.paren, value, &nothing)
                },
                List::Cons(first) => {
                    self.enter(
                        Frame::Argument {
                            paren: c.paren.clone(),
                            callee: value,
                            done: List::Nil,
                            rest: first.tail.share(),
                        },
                        Mode::Eval(first.head.share()),
                    );
                    Action::Continue
                },
            },
            Frame::Argument { paren, callee, done, rest } => match &rest {
                List::Nil => self.call_with(&paren, callee, &done, value),
                List::Cons(next) => {
                    self.enter(
                        Frame::Argument {
                            paren,
                            callee,
                            done: List::cons(value, done),
                            rest: next.tail.share(),
                        },
                        Mode::Eval(next.head.share()),
                    );
                    Action::Continue
                },
            },
            Frame::Get(g) => self.get(&g.name, value),
            Frame::Logical(l) => {
                let truthy = value.is_truthy();
                if (truthy && l.operator.id == TokenIdentity::Or) || (!truthy && l.operator.id
                    == TokenIdentity::And) {
                    self.go(Mode::Value(value));
                } else {
                    self.go(Mode::Eval(l.right.share()));
                }
                Action::Continue
            },
            Frame::SetObject(p) => {
                match value {
                    Object::Instance(i) => {
                        if i < self.instances.len() {
                            let written = p.value.share();
                            self.enter(
                                Frame::SetValue { node: p, instance: i },
                                Mode::Eval(written),
                            );
                        } else {
                            self.raise(&p.name, "Only instances have properties.");
                        }
                    },
                    _ => {
                        self.raise(&p.name, "Only instances have properties.");
                    },
                }
                Action::Continue
            },
            Frame::SetValue { node, instance } => self.store(&node.name, instance, value),
            Frame::Ternary(t) => {
                if value.is_truthy() {
                    self.go(Mode::Eval(t.then_branch.share()));
                } else {
                    self.go(Mode::Eval(t.else_branch.share()));
                }
                Action::Continue
            },
            Frame::Unary(u) => self.negate(&u.operator, value),
            Frame::Sequence(statements) => {
                match &statements {
                    List::Nil => {
                        self.go(Mode::Value(value));
                    },
                    List::Cons(next) => {
                        self.enter(
                            Frame::Sequence(next.tail.share()),
                            Mode::Exec(next.head.share()),
                        );
                    },
                }
                Action::Continue
            },
            Frame::Scope { restore } => {
                self.leave(restore);
                self.go(Mode::Value(value));
                Action::Continue
            },
            Frame::Call { kind, closure, restore } => self.finish_call(
                kind,
                closure,
                restore,
                Object::Nil,
            ),
            Frame::Construct { instance } => {
                self.go(Mode::Value(Object::Instance(instance)));
                Action::Continue
            },
            Frame::If(i) => {
                if value.is_truthy() {
                    self.open(i.then_branch.statements.share());
                } else {
                    match &i.else_branch {
                        Some(else_branch) => {
                            self.open(else_branch.statements.share());
                        },
                        None => {
                            self.go(Mode::Value(Object::Undefined));
                        },
                    }
                }
                Action::Continue
            },
            Frame::Print => self.print(value),
            Frame::Return => {
                self.go(Mode::Unwind(RuntimeException::Return(RuntimeReturn::new(value))));
                Action::Continue
            },
            Frame::Var(v) => {
                let name = v.name.value.to_text();
                self.define(name.as_str(), value);
                Action::Continue
            },
            Frame::WhileCondition(w) => {
                if value.is_truthy() {
                    let body = w.body.statements.share();
                    self.frames.push(Frame::WhileBody(w));
                    self.open(body);
                } else {
                    self.go(Mode::Value(Object::Undefined));
                }
                Action::Continue
            },
            Frame::WhileBody(w) => {
                let condition = w.condition.share();
                self.enter(Frame::WhileCondition(w), Mode::Eval(condition));
                Action::Continue
            },
        }
    }

    /// Hands a signal to the frame on top.
    pub(crate) fn unwind(&mut self, signal: RuntimeException) -> (action: Action)
        requires
            old(self).wf(),
            old(self).frames@.len() > 0,
        ensures
            final(self).wf(),
            old(self).unwinds(*final(self), action, signal),
    {
        let frame = self.pop();
        match frame {
            Frame::Scope { restore } => {
                self.leave(restore);
                self.go(Mode::Unwind(signal));
                Action::Continue
            },
            Frame::Call { kind, closure, restore } => match signal {
                RuntimeException::Return(returned) => self.finish_call(
                    kind,
                    closure,
                    restore,
                    returned.value,
                ),
                signal => {
                    self.leave(restore);
                    self.go(Mode::Unwind(signal));
                    Action::Continue
                },
            },
            Frame::WhileBody(w) => {
                match signal {
                    RuntimeException::Break => {
                        self.go(Mode::Value(Object::Undefined));
                    },
                    RuntimeException::Continue => {
                        let condition = w.condition.share();
                        self.enter(Frame::WhileCondition(w), Mode::Eval(condition));
                    },
                    signal => {
                        self.go(Mode::Unwind(signal));
                    },
                }
                Action::Continue
            },
            _ => {
                self.go(Mode::Unwind(signal));
                Action::Continue
            },
        }
    }

    /// Does one step of the program that is running and says what the host
    /// is to do before the next one. `event` is the host's answer to what
    /// the step before asked for.
    pub fn step(&mut self, event: Event) -> (action: Action)
        requires
            old(self).wf(),
        ensures
            final(self).wf(),
            old(self).stepped(event, *final(self), action),
    {
        let mode = self.mode.share();
        match mode {
            Mode::Idle => Action::Finished(Ok(Object::Undefined)),
            Mode::Eval(e) => self.evaluate(e),
            Mode::Exec(statement) => self.execute(statement),
            Mode::Value(value) => {
                if self.frames.len() == 0 {
                    self.go(Mode::Idle);
                    Action::Finished(Ok(value))
                } else {
                    self.deliver(value)
                }
            },
            Mode::Unwind(signal) => {
                if self.frames.len() == 0 {
                    self.go(Mode::Idle);
                    Action::Finished(Err(signal))
                } else {
                    self.unwind(signal)
                }
            },
            Mode::Await { request, pending } => self.answer(request, pending, event),
        }
    }
}

impl Interpreter {
    /// Steps until the host is needed: until a step asks for something,
    /// prints, or ends the program. At most `budget` steps that need
    /// nothing are made before the last one, whose action is given back.
    pub fn advance(&mut self, event: Event, budget: usize) -> (action: Action)
        requires
            old(self).wf(),
        ensures
            final(self).wf(),
            old(self).advances(event, budget as nat, *final(self), action),
    {
        let ghost first = event;
        let mut next = event;
        let mut made: usize = 0;
        loop
            invariant
                self.wf(),
                made <= budget,
                first == event,
                next == crate::semantics::event_after(first, made as nat),
                old(self).reaches(first, *self, made as nat),
            decreases budget - made,
        {
            let ghost before = *self;
            let action = self.step(next);
            proof {
                assert(old(self).reaches(first, before, made as nat));
                assert(before.stepped(
                    crate::semantics::event_after(first, made as nat),
                    *self,
                    action,
                ));
            }
            match action {
                Action::Continue => {
                    if made >= budget {
                        return action;
                    }
                    made += 1;
                    next = Event::Nothing;
                },
                _ => {
                    return action;
                },
            }
        }
    }
}

} // verus!
