//! What one step of the evaluator does, as relations between the state
//! before and the state after.

use vstd::prelude::*;
use std::rc::Rc;
use crate::builtin_funcs::LoxCallable;
use crate::class::{method_of, property, LoxClass, Property};
use crate::environment::{ancestor_of, found, read, read_as, rebound, written};
use crate::error::{fails_with, RuntimeException, RuntimeReturn};
use crate::expr::{AssignExpr, Expr, SuperExpr};
use crate::function::{FunctionType, LambdaFunction, LoxFunction};
use crate::list::List;
use crate::machine::{
    this_token, Action, Event, Frame, Interpreter, Mode, NumberOperator, Pending, Request,
};
use crate::object::{Likeness, Object};
use crate::scoping::key;
use crate::stmt::{ClassStmt, FunctionStmt, Stmt};
use crate::token::{Token, TokenIdentity, TokenValue, TokenView};

verus! {

/// The name of class `class`, or nothing where the store has no such class.
pub open spec fn class_name(classes: Seq<LoxClass>, class: int) -> Seq<char> {
    if 0 <= class < classes.len() {
        classes[class].name@
    } else {
        Seq::empty()
    }
}

/// The bindings of parameters to arguments, in order, as far as both go.
pub open spec fn bound_parameters(params: Seq<Token>, arguments: Seq<Object>, count: nat) -> Map<
    Seq<char>,
    Object,
>
    decreases count,
{
    if count == 0 || count > params.len() || count > arguments.len() {
        Map::empty()
    } else {
        bound_parameters(params, arguments, (count - 1) as nat).insert(
            key(params[count - 1]),
            arguments[count - 1],
        )
    }
}

/// The smaller of two lengths.
pub open spec fn shorter(a: nat, b: nat) -> nat {
    if a <= b {
        a
    } else {
        b
    }
}

/// The signal that `return` raises with `value`.
pub open spec fn returning(value: Object) -> Mode {
    Mode::Unwind(RuntimeException::Return(RuntimeReturn { value }))
}

/// The unit result that a mode stands for: an error where it is a signal.
pub open spec fn done_or(mode: Mode) -> Result<(), RuntimeException> {
    match mode {
        Mode::Unwind(x) => Err(x),
        _ => Ok(()),
    }
}

impl Interpreter {
    /// How a value other than a number is written out.
    pub open spec fn display(self, value: Object) -> Seq<char> {
        match value {
            Object::Boolean(b) => if b {
                "true"@
            } else {
                "false"@
            },
            Object::Number(_) => Seq::empty(),
            Object::String(s) => s@,
            Object::Function(f) => f.text(),
            Object::Instance(i) => "<"@ + (if i < self.instances@.len() {
                class_name(self.classes@, self.instances@[i as int].class as int)
            } else {
                Seq::empty()
            }) + " instance>"@,
            Object::Class(c) => class_name(self.classes@, c as int),
            Object::Nil => "nil"@,
            Object::Undefined => "undefined"@,
        }
    }

    /// Everything but the environments and the work in progress is as
    /// before, and so is the current environment.
    pub open spec fn keeps_records(self, post: Interpreter) -> bool {
        &&& post.global == self.global
        &&& post.locals == self.locals
        &&& post.classes == self.classes
        &&& post.instances == self.instances
    }

    /// `post` has one environment more: an empty one that encloses
    /// `enclosing`.
    pub open spec fn grows(self, post: Interpreter, enclosing: usize) -> bool {
        &&& post.environments@.len() == self.environments@.len() + 1
        &&& post.environments@.drop_last() == self.environments@
        &&& post.environments@.last().enclosing == Some(enclosing)
    }

    /// A block is entered: its statements run in a new scope inside the
    /// current one, which is gone back to afterwards.
    pub open spec fn opens(self, post: Interpreter, frames: Seq<Frame>, statements: List<Stmt>) -> bool {
        &&& self.keeps_records(post)
        &&& self.grows(post, self.environment)
        &&& post.environments@.last().values@ == Map::<Seq<char>, Object>::empty()
        &&& post.environment == self.environments@.len()
        &&& post.frames@ == frames.push(Frame::Scope { restore: self.environment }).push(
            Frame::Sequence(statements),
        )
        &&& post.mode == Mode::Value(Object::Undefined)
    }

    /// The scope in which the lookup of a node starts: as many hops out as
    /// the resolver found, or the global one where it found nothing.
    pub open spec fn scope_of(self, id: u64) -> Option<int> {
        if self.locals@.contains_key(id) {
            ancestor_of(self.environments@, self.environment as int, self.locals@[id] as nat)
        } else {
            Some(self.global as int)
        }
    }

    /// What reading the variable of a node gives.
    pub open spec fn variable(self, id: u64, name: Token, r: Result<Object, RuntimeException>) -> bool {
        match self.scope_of(id) {
            Some(scope) => read(self.environments@, scope, name, r),
            None => fails_with(r, name@, "The variable isn't declared."@),
        }
    }

    /// A variable is read: its value is the value, or the error is raised.
    pub open spec fn looks_up(
        self,
        post: Interpreter,
        frames: Seq<Frame>,
        id: u64,
        name: Token,
    ) -> bool {
        &&& self.keeps_all(post, frames)
        &&& Self::settled(post.mode)
        &&& self.variable(id, name, Self::outcome(post.mode))
    }

    /// A variable is assigned: the value stays the value.
    pub open spec fn assigns(
        self,
        post: Interpreter,
        frames: Seq<Frame>,
        node: AssignExpr,
        value: Object,
    ) -> bool {
        &&& self.keeps_records(post)
        &&& post.environment == self.environment
        &&& post.frames@ == frames
        &&& Self::settled(post.mode)
        &&& post.mode matches Mode::Value(v) ==> v == value
        &&& match self.scope_of(node.id) {
            Some(scope) => written(
                self.environments@,
                post.environments@,
                scope,
                node.name,
                value,
                done_or(post.mode),
            ),
            None => post.environments@ == self.environments@ && fails_with(
                done_or(post.mode),
                node.name@,
                "Unclarified variable."@,
            ),
        }
    }

    /// A name is defined in the current scope; the statement's value is the
    /// uninitialized one.
    pub open spec fn defines(
        self,
        post: Interpreter,
        frames: Seq<Frame>,
        name: Seq<char>,
        value: Object,
    ) -> bool {
        &&& self.keeps_records(post)
        &&& post.environment == self.environment
        &&& post.frames@ == frames
        &&& post.mode == Mode::Value(Object::Undefined)
        &&& if self.environment < self.environments@.len() {
            rebound(
                self.environments@,
                post.environments@,
                self.environment as int,
                name,
                value,
            )
        } else {
            post.environments@ == self.environments@
        }
    }
}

/// The message of a `+` whose operands, written out, are `left` and
/// `right`.
pub open spec fn invalid_operands(left: Seq<char>, right: Seq<char>) -> Seq<char> {
    "Invalid operands "@ + left + " and "@ + right + " for + operator."@
}

/// Whether the left operand of `and` or `or` decides the result.
pub open spec fn short_circuits(operator: TokenIdentity, value: Object) -> bool {
    (value.truthy() && operator == TokenIdentity::Or) || (!value.truthy() && operator
        == TokenIdentity::And)
}

impl Interpreter {
    /// The evaluator goes on in `mode` and needs nothing from its host.
    pub open spec fn steps(
        self,
        post: Interpreter,
        frames: Seq<Frame>,
        action: Action,
        mode: Mode,
    ) -> bool {
        self.goes(post, frames, mode) && action is Continue
    }

    /// The evaluator raises an error and needs nothing from its host.
    pub open spec fn throws(
        self,
        post: Interpreter,
        frames: Seq<Frame>,
        action: Action,
        token: TokenView,
        message: Seq<char>,
    ) -> bool {
        self.raises(post, frames, token, message) && action is Continue
    }

    /// The value is a new string that reads `text`.
    pub open spec fn yields_text(
        self,
        post: Interpreter,
        frames: Seq<Frame>,
        action: Action,
        text: Seq<char>,
    ) -> bool {
        &&& self.keeps_all(post, frames)
        &&& post.mode matches Mode::Value(Object::String(s))
        &&& s@ == text
        &&& action is Continue
    }

    /// The host is asked to write the number `number` out, as the right
    /// operand of a `+` that has no meaning; `left` is the left operand,
    /// written out.
    pub open spec fn asks_right(
        self,
        post: Interpreter,
        frames: Seq<Frame>,
        action: Action,
        token: Token,
        left: Seq<char>,
        number: u64,
    ) -> bool {
        &&& self.keeps_all(post, frames)
        &&& action == Action::Ask(Request::Format(number))
        &&& post.mode matches Mode::Await { request, pending }
        &&& request == Request::Format(number)
        &&& pending matches Pending::InvalidRight { operator, left: text }
        &&& operator == token
        &&& text@ == left
    }

    /// `<`, `<=`, `>`, `>=`: the host compares numbers; anything else
    /// compares as `false`.
    pub open spec fn compares(
        self,
        post: Interpreter,
        frames: Seq<Frame>,
        action: Action,
        operator: NumberOperator,
        left: Object,
        right: Object,
    ) -> bool {
        match (left, right) {
            (Object::Number(a), Object::Number(b)) => self.asks(
                post,
                frames,
                action,
                Request::Binary { operator, left: a, right: b },
                Pending::Boolean { negate: false },
            ),
            _ => self.steps(post, frames, action, Mode::Value(Object::Boolean(false))),
        }
    }

    /// `==` and, with `negate`, `!=`.
    pub open spec fn equates(
        self,
        post: Interpreter,
        frames: Seq<Frame>,
        action: Action,
        left: Object,
        right: Object,
        negate: bool,
    ) -> bool {
        match left.likeness(right) {
            Likeness::Equal => self.steps(
                post,
                frames,
                action,
                Mode::Value(Object::Boolean(!negate)),
            ),
            Likeness::Unequal => self.steps(
                post,
                frames,
                action,
                Mode::Value(Object::Boolean(negate)),
            ),
            Likeness::Numbers(a, b) => self.asks(
                post,
                frames,
                action,
                Request::Binary { operator: NumberOperator::Equal, left: a, right: b },
                Pending::Boolean { negate },
            ),
        }
    }

    /// `-` and `*`: the host's, on numbers; an error on anything else.
    pub open spec fn calculates(
        self,
        post: Interpreter,
        frames: Seq<Frame>,
        action: Action,
        token: Token,
        operator: NumberOperator,
        left: Object,
        right: Object,
    ) -> bool {
        match (left, right) {
            (Object::Number(a), Object::Number(b)) => self.asks(
                post,
                frames,
                action,
                Request::Binary { operator, left: a, right: b },
                Pending::Number,
            ),
            _ => self.throws(post, frames, action, token@, "Only support number operands."@),
        }
    }

    /// `/`: the host is first asked whether the divisor is zero.
    pub open spec fn divides(
        self,
        post: Interpreter,
        frames: Seq<Frame>,
        action: Action,
        token: Token,
        left: Object,
        right: Object,
    ) -> bool {
        match (left, right) {
            (Object::Number(a), Object::Number(b)) => self.asks(
                post,
                frames,
                action,
                Request::IsZero(b),
                Pending::Divisor { operator: token, left: a, right: b },
            ),
            _ => self.throws(post, frames, action, token@, "Only support number operands."@),
        }
    }

    /// A `+` that has no meaning: the error names both operands, and the
    /// host writes out those that are numbers, the left one first.
    pub open spec fn rejects(
        self,
        post: Interpreter,
        frames: Seq<Frame>,
        action: Action,
        token: Token,
        left: Object,
        right: Object,
    ) -> bool {
        match (left, right) {
            (Object::Number(n), _) => self.asks(
                post,
                frames,
                action,
                Request::Format(n),
                Pending::InvalidLeft { operator: token, right },
            ),
            (_, Object::Number(m)) => self.asks_right(
                post,
                frames,
                action,
                token,
                self.display(left),
                m,
            ),
            _ => self.throws(
                post,
                frames,
                action,
                token@,
                invalid_operands(self.display(left), self.display(right)),
            ),
        }
    }

    /// `+`: numbers are added by the host, strings are joined, and a
    /// number joins a string as the host writes it out.
    pub open spec fn adds(
        self,
        post: Interpreter,
        frames: Seq<Frame>,
        action: Action,
        token: Token,
        left: Object,
        right: Object,
    ) -> bool {
        match (left, right) {
            (Object::Number(a), Object::Number(b)) => self.asks(
                post,
                frames,
                action,
                Request::Binary { operator: NumberOperator::Add, left: a, right: b },
                Pending::Number,
            ),
            (Object::String(a), Object::String(b)) => self.yields_text(
                post,
                frames,
                action,
                a@ + b@,
            ),
            (Object::String(a), Object::Number(n)) => self.asks(
                post,
                frames,
                action,
                Request::Format(n),
                Pending::Concat { left: a },
            ),
            _ => self.rejects(post, frames, action, token, left, right),
        }
    }

    /// A binary operator is applied to its operands.
    pub open spec fn applies(
        self,
        post: Interpreter,
        frames: Seq<Frame>,
        action: Action,
        operator: Token,
        left: Object,
        right: Object,
    ) -> bool {
        match operator.id {
            TokenIdentity::Greater => self.compares(
                post,
                frames,
                action,
                NumberOperator::Greater,
                left,
                right,
            ),
            TokenIdentity::GreaterEqual => self.compares(
                post,
                frames,
                action,
                NumberOperator::GreaterEqual,
                left,
                right,
            ),
            TokenIdentity::Less => self.compares(
                post,
                frames,
                action,
                NumberOperator::Less,
                left,
                right,
            ),
            TokenIdentity::LessEqual => self.compares(
                post,
                frames,
                action,
                NumberOperator::LessEqual,
                left,
                right,
            ),
            TokenIdentity::BangEqual => self.equates(post, frames, action, left, right, true),
            TokenIdentity::EqualEqual => self.equates(post, frames, action, left, right, false),
            TokenIdentity::Minus => self.calculates(
                post,
                frames,
                action,
                operator,
                NumberOperator::Subtract,
                left,
                right,
            ),
            TokenIdentity::Star => self.calculates(
                post,
                frames,
                action,
                operator,
                NumberOperator::Multiply,
                left,
                right,
            ),
            TokenIdentity::Slash => self.divides(post, frames, action, operator, left, right),
            TokenIdentity::Plus => self.adds(post, frames, action, operator, left, right),
            _ => self.throws(post, frames, action, operator@, "Unsupported operator."@),
        }
    }

    /// A unary operator is applied: `!` negates the truthiness, `-` is the
    /// host's, on a number.
    pub open spec fn negates(
        self,
        post: Interpreter,
        frames: Seq<Frame>,
        action: Action,
        operator: Token,
        value: Object,
    ) -> bool {
        match operator.id {
            TokenIdentity::Bang => self.steps(
                post,
                frames,
                action,
                Mode::Value(Object::Boolean(!value.truthy())),
            ),
            TokenIdentity::Minus => match value {
                Object::Number(n) => self.asks(
                    post,
                    frames,
                    action,
                    Request::Negate(n),
                    Pending::Number,
                ),
                _ => self.throws(
                    post,
                    frames,
                    action,
                    operator@,
                    "Only support number operands."@,
                ),
            },
            _ => self.steps(post, frames, action, Mode::Value(Object::Nil)),
        }
    }

    /// A value is printed: the host writes a number out first.
    pub open spec fn prints(
        self,
        post: Interpreter,
        frames: Seq<Frame>,
        action: Action,
        value: Object,
    ) -> bool {
        match value {
            Object::Number(n) => self.asks(
                post,
                frames,
                action,
                Request::Format(n),
                Pending::Print,
            ),
            _ => {
                &&& self.goes(post, frames, Mode::Value(Object::Undefined))
                &&& action matches Action::Print(line)
                &&& line@ == self.display(value)
            },
        }
    }

    /// The host's answer comes in. An answer of the wrong kind changes
    /// nothing: the request is made again.
    pub open spec fn answers(
        self,
        post: Interpreter,
        action: Action,
        request: Request,
        pending: Pending,
        event: Event,
    ) -> bool {
        let frames = self.frames@;
        match (pending, event) {
            (Pending::Number, Event::Number(n)) => self.steps(
                post,
                frames,
                action,
                Mode::Value(Object::Number(n)),
            ),
            (Pending::Boolean { negate }, Event::Boolean(b)) => self.steps(
                post,
                frames,
                action,
                Mode::Value(Object::Boolean(b != negate)),
            ),
            (Pending::Divisor { operator, left, right }, Event::Boolean(zero)) => if zero {
                self.throws(post, frames, action, operator@, "Divided by zero."@)
            } else {
                self.asks(
                    post,
                    frames,
                    action,
                    Request::Binary { operator: NumberOperator::Divide, left, right },
                    Pending::Number,
                )
            },
            (Pending::Concat { left }, Event::Text(text)) => self.yields_text(
                post,
                frames,
                action,
                left@ + text@,
            ),
            (Pending::Print, Event::Text(text)) => {
                &&& self.goes(post, frames, Mode::Value(Object::Undefined))
                &&& action matches Action::Print(line)
                &&& line@ == text@
            },
            (Pending::InvalidLeft { operator, right }, Event::Text(text)) => match right {
                Object::Number(m) => self.asks_right(post, frames, action, operator, text@, m),
                _ => self.throws(
                    post,
                    frames,
                    action,
                    operator@,
                    invalid_operands(text@, self.display(right)),
                ),
            },
            (Pending::InvalidRight { operator, left }, Event::Text(text)) => self.throws(
                post,
                frames,
                action,
                operator@,
                invalid_operands(left@, text@),
            ),
            _ => self.goes(post, frames, Mode::Await { request, pending }) && action == Action::Ask(
                request,
            ),
        }
    }
}

/// The function value of a method.
pub open spec fn method_value(method: LoxFunction) -> Object {
    Object::Function(LoxCallable::Function(method))
}

/// The message for a class that lacks a method.
pub open spec fn no_such_method(class: Seq<char>, name: Seq<char>) -> Seq<char> {
    "Class "@ + class + " doesn't have a method named '"@ + name + "'."@
}

/// The bindings of a scope that holds `this` alone.
pub open spec fn this_alone(instance: usize) -> Map<Seq<char>, Object> {
    Map::<Seq<char>, Object>::empty().insert("this"@, Object::Instance(instance))
}

impl Interpreter {
    /// A function is entered: its body runs in a new scope inside its
    /// closure, in which the parameters are bound to the arguments as far as
    /// both go. The boundary of the call goes on the frames.
    pub open spec fn invokes(
        self,
        post: Interpreter,
        frames: Seq<Frame>,
        action: Action,
        params: List<Token>,
        body: List<Stmt>,
        kind: FunctionType,
        closure: usize,
        arguments: Seq<Object>,
    ) -> bool {
        &&& self.keeps_records(post)
        &&& self.grows(post, closure)
        &&& post.environments@.last().values@ == bound_parameters(
            params@,
            arguments,
            shorter(params@.len(), arguments.len()),
        )
        &&& post.environment == self.environments@.len()
        &&& post.frames@ == frames.push(
            Frame::Call { kind, closure, restore: self.environment },
        ).push(Frame::Sequence(body))
        &&& post.mode == Mode::Value(Object::Undefined)
        &&& action is Continue
    }

    /// A method is bound to an instance and entered: two scopes are new,
    /// the one that binds `this`, inside the method's closure, and the one
    /// of the call inside it. Instances are left aside.
    pub open spec fn invokes_bound(
        self,
        post: Interpreter,
        frames: Seq<Frame>,
        action: Action,
        method: LoxFunction,
        instance: usize,
        arguments: Seq<Object>,
    ) -> bool {
        let n = self.environments@.len() as int;
        &&& post.global == self.global
        &&& post.locals == self.locals
        &&& post.classes == self.classes
        &&& post.environments@.len() == n + 2
        &&& post.environments@.take(n) == self.environments@
        &&& post.environments@[n].enclosing == Some(method.closure)
        &&& post.environments@[n].values@ == this_alone(instance)
        &&& post.environments@[n + 1].enclosing == Some(n as usize)
        &&& post.environments@[n + 1].values@ == bound_parameters(
            method.declaration.params@,
            arguments,
            shorter(method.declaration.params@.len(), arguments.len()),
        )
        &&& post.environment == n + 1
        &&& post.frames@ == frames.push(
            Frame::Call { kind: method.kind, closure: n as usize, restore: self.environment },
        ).push(Frame::Sequence(method.declaration.body.statements))
        &&& post.mode == Mode::Value(Object::Undefined)
        &&& action is Continue
    }

    /// A method is bound to an instance: the value is the method over a new
    /// scope that binds `this`, inside the method's closure.
    pub open spec fn binds_method(
        self,
        post: Interpreter,
        frames: Seq<Frame>,
        action: Action,
        method: LoxFunction,
        instance: usize,
    ) -> bool {
        &&& self.keeps_records(post)
        &&& self.grows(post, method.closure)
        &&& post.environments@.last().values@ == this_alone(instance)
        &&& post.environment == self.environment
        &&& post.frames@ == frames
        &&& post.mode == Mode::Value(
            method_value(
                LoxFunction {
                    declaration: method.declaration,
                    closure: self.environments@.len() as usize,
                    kind: method.kind,
                },
            ),
        )
        &&& action is Continue
    }

    /// A class is called: the value is a new instance of it, once the
    /// initializer `init`, if the class has one, has run on it with the
    /// arguments.
    pub open spec fn constructs(
        self,
        post: Interpreter,
        frames: Seq<Frame>,
        action: Action,
        paren: Token,
        class: usize,
        arguments: Seq<Object>,
    ) -> bool {
        if class < self.classes@.len() {
            let instance = self.instances@.len() as usize;
            &&& post.instances@.len() == self.instances@.len() + 1
            &&& post.instances@.drop_last() == self.instances@
            &&& post.instances@.last().class == class
            &&& post.instances@.last().fields@ == Map::<Seq<char>, Object>::empty()
            &&& match method_of(self.classes@, class as int, "init"@) {
                Some(init) => self.invokes_bound(
                    post,
                    frames.push(Frame::Construct { instance }),
                    action,
                    init,
                    instance,
                    arguments,
                ),
                None => {
                    &&& post.global == self.global
                    &&& post.locals == self.locals
                    &&& post.classes == self.classes
                    &&& post.environments == self.environments
                    &&& post.environment == self.environment
                    &&& post.frames@ == frames
                    &&& post.mode == Mode::Value(Object::Instance(instance))
                    &&& action is Continue
                },
            }
        } else {
            self.throws(post, frames, action, paren@, "Can only call functions and classes."@)
        }
    }

    /// A callee is called with its arguments, which are all evaluated by
    /// then. The clock is the host's.
    pub open spec fn calls(
        self,
        post: Interpreter,
        frames: Seq<Frame>,
        action: Action,
        paren: Token,
        callee: Object,
        arguments: Seq<Object>,
    ) -> bool {
        match callee {
            Object::Function(LoxCallable::Clock(_)) => self.asks(
                post,
                frames,
                action,
                Request::Clock,
                Pending::Number,
            ),
            Object::Function(LoxCallable::Function(f)) => self.invokes(
                post,
                frames,
                action,
                f.declaration.params,
                f.declaration.body.statements,
                f.kind,
                f.closure,
                arguments,
            ),
            Object::Function(LoxCallable::Lambda(l)) => self.invokes(
                post,
                frames,
                action,
                l.declaration.params,
                l.declaration.body.statements,
                FunctionType::Function,
                self.global,
                arguments,
            ),
            Object::Class(class) => self.constructs(post, frames, action, paren, class, arguments),
            _ => self.throws(
                post,
                frames,
                action,
                paren@,
                "Can only call functions and classes."@,
            ),
        }
    }

    /// A property is read: of an instance, a getter is invoked, a field
    /// gives its value, a method is bound; of a class, a method is given
    /// as it is.
    pub open spec fn gets(
        self,
        post: Interpreter,
        frames: Seq<Frame>,
        action: Action,
        name: Token,
        object: Object,
    ) -> bool {
        match object {
            Object::Instance(i) => if i < self.instances@.len() {
                match property(self.classes@, self.instances@[i as int], key(name)) {
                    Property::Getter(getter) => post.instances == self.instances
                        && self.invokes_bound(post, frames, action, getter, i, Seq::empty()),
                    Property::Field(value) => self.steps(post, frames, action, Mode::Value(value)),
                    Property::Method(method) => self.binds_method(
                        post,
                        frames,
                        action,
                        method,
                        i,
                    ),
                    Property::Missing => self.throws(
                        post,
                        frames,
                        action,
                        name@,
                        "Undefined property."@,
                    ),
                }
            } else {
                self.throws(post, frames, action, name@, "Only instances have properties."@)
            },
            Object::Class(c) => if c < self.classes@.len() {
                match method_of(self.classes@, c as int, key(name)) {
                    Some(method) => self.steps(
                        post,
                        frames,
                        action,
                        Mode::Value(method_value(method)),
                    ),
                    None => self.throws(
                        post,
                        frames,
                        action,
                        name@,
                        no_such_method(self.classes@[c as int].name@, key(name)),
                    ),
                }
            } else {
                self.throws(post, frames, action, name@, "Only instances have properties."@)
            },
            _ => self.throws(post, frames, action, name@, "Only instances have properties."@),
        }
    }

    /// A field of an instance is written; the value stays the value.
    pub open spec fn stores(
        self,
        post: Interpreter,
        frames: Seq<Frame>,
        action: Action,
        name: Token,
        instance: usize,
        value: Object,
    ) -> bool {
        if instance < self.instances@.len() {
            &&& post.global == self.global
            &&& post.locals == self.locals
            &&& post.environments == self.environments
            &&& post.classes == self.classes
            &&& post.environment == self.environment
            &&& post.frames@ == frames
            &&& post.instances@.len() == self.instances@.len()
            &&& post.instances@[instance as int].class == self.instances@[instance as int].class
            &&& post.instances@[instance as int].fields@ == self.instances@[instance
                as int].fields@.insert(key(name), value)
            &&& forall|j: int|
                0 <= j < self.instances@.len() && j != instance ==> post.instances@[j]
                    == self.instances@[j]
            &&& post.mode == Mode::Value(value)
            &&& action is Continue
        } else {
            self.throws(post, frames, action, name@, "Only instances have properties."@)
        }
    }

    /// A call ends: the environment of the caller is gone back to. The
    /// value is `result`; that of an initializer is always the `this` of
    /// its closure.
    pub open spec fn comes_back(
        self,
        post: Interpreter,
        frames: Seq<Frame>,
        action: Action,
        kind: FunctionType,
        closure: usize,
        restore: usize,
        result: Object,
    ) -> bool {
        &&& self.keeps_store(post)
        &&& post.environment == restore
        &&& post.frames@ == frames
        &&& action is Continue
        &&& if kind == FunctionType::Initializer {
            &&& Self::settled(post.mode)
            &&& read_as(
                self.environments@,
                closure as int,
                "this"@,
                this_token(),
                Self::outcome(post.mode),
            )
        } else {
            post.mode == Mode::Value(result)
        }
    }

    /// The scope `distance` hops out of the current one.
    pub open spec fn hops(self, distance: int) -> Option<int> {
        if distance >= 0 {
            ancestor_of(self.environments@, self.environment as int, distance as nat)
        } else {
            None
        }
    }

    /// A lookup from the scope `distance` hops out failed: the error is
    /// raised.
    pub open spec fn misses(
        self,
        post: Interpreter,
        frames: Seq<Frame>,
        action: Action,
        distance: int,
        name: Seq<char>,
        token: TokenView,
    ) -> bool {
        &&& self.keeps_all(post, frames)
        &&& post.mode is Unwind
        &&& action is Continue
        &&& match self.hops(distance) {
            Some(scope) => read_as(
                self.environments@,
                scope,
                name,
                token,
                Self::outcome(post.mode),
            ),
            None => fails_with(Self::outcome(post.mode), token, "The variable isn't declared."@),
        }
    }

    /// `super.method`: the superclass stands as many scopes out as the
    /// resolver found, `this` one scope further in; the value is the method
    /// of the superclass, bound to `this`.
    pub open spec fn supers(
        self,
        post: Interpreter,
        frames: Seq<Frame>,
        action: Action,
        node: SuperExpr,
    ) -> bool {
        let distance: int = if self.locals@.contains_key(node.id) {
            self.locals@[node.id] as int
        } else {
            -1
        };
        match found(self.environments@, self.hops(distance), key(node.keyword)) {
            Some(Object::Class(class)) => match found(
                self.environments@,
                self.hops(distance - 1),
                "this"@,
            ) {
                Some(Object::Instance(instance)) => match method_of(
                    self.classes@,
                    class as int,
                    key(node.method),
                ) {
                    Some(method) => self.binds_method(post, frames, action, method, instance),
                    None => self.throws(
                        post,
                        frames,
                        action,
                        node.method@,
                        "Undefined property."@,
                    ),
                },
                Some(_) => self.throws(
                    post,
                    frames,
                    action,
                    node.keyword@,
                    "Cannot bind non-instance object."@,
                ),
                None => self.misses(post, frames, action, distance - 1, "this"@, this_token()),
            },
            Some(_) => self.throws(
                post,
                frames,
                action,
                node.keyword@,
                "Superclass must be a class."@,
            ),
            None => self.misses(
                post,
                frames,
                action,
                distance,
                key(node.keyword),
                node.keyword@,
            ),
        }
    }
}

/// `table` with the methods of `methods` entered under their names, over
/// the closure `closure`; each has the kind `kind` or, without one, the
/// kind that it was declared with.
pub open spec fn with_methods(
    table: Map<Seq<char>, LoxFunction>,
    methods: List<Rc<FunctionStmt>>,
    closure: usize,
    kind: Option<FunctionType>,
) -> Map<Seq<char>, LoxFunction>
    decreases methods,
{
    match methods {
        List::Nil => table,
        List::Cons(node) => with_methods(
            table.insert(
                key(node.head.name),
                LoxFunction {
                    declaration: node.head,
                    closure,
                    kind: match kind {
                        Some(kind) => kind,
                        None => node.head.kind,
                    },
                },
            ),
            node.tail,
            closure,
            kind,
        ),
    }
}

/// The methods of a class: the instance methods, then the getters, both
/// over `closure`, then the static methods over `statics`; a later one
/// replaces an earlier one of the same name.
pub open spec fn method_table(node: ClassStmt, closure: usize, statics: usize) -> Map<
    Seq<char>,
    LoxFunction,
> {
    with_methods(
        with_methods(
            with_methods(Map::empty(), node.methods, closure, None),
            node.getter_methods,
            closure,
            Some(FunctionType::GetterMethod),
        ),
        node.static_methods,
        statics,
        Some(FunctionType::StaticMethod),
    )
}

impl Interpreter {
    /// A class is built and defined under its name in the current scope.
    /// A superclass gets a new scope that binds `super`, inside the current
    /// one: it is the closure of the methods and getters, which else is the
    /// current scope. The static methods close over a new empty scope
    /// inside that closure.
    pub open spec fn builds(
        self,
        post: Interpreter,
        frames: Seq<Frame>,
        node: ClassStmt,
        superclass: Option<usize>,
    ) -> bool {
        let n = self.environments@.len() as int;
        let closure: usize = if superclass is Some {
            n as usize
        } else {
            self.environment
        };
        let statics: int = if superclass is Some {
            n + 1
        } else {
            n
        };
        &&& post.global == self.global
        &&& post.locals == self.locals
        &&& post.instances == self.instances
        &&& post.environment == self.environment
        &&& post.frames@ == frames
        &&& post.mode == Mode::Value(Object::Undefined)
        &&& post.environments@.len() == statics + 1
        &&& if self.environment < n {
            rebound(
                self.environments@,
                post.environments@.take(n),
                self.environment as int,
                key(node.name),
                Object::Class(self.classes@.len() as usize),
            )
        } else {
            post.environments@.take(n) == self.environments@
        }
        &&& superclass matches Some(class) ==> {
            &&& post.environments@[n].enclosing == Some(self.environment)
            &&& post.environments@[n].values@ == Map::<Seq<char>, Object>::empty().insert(
                "super"@,
                Object::Class(class),
            )
        }
        &&& post.environments@[statics].enclosing == Some(closure)
        &&& post.environments@[statics].values@ == Map::<Seq<char>, Object>::empty()
        &&& post.classes@.len() == self.classes@.len() + 1
        &&& post.classes@.drop_last() == self.classes@
        &&& post.classes@.last().name@ == key(node.name)
        &&& post.classes@.last().superclass == superclass
        &&& post.classes@.last().methods@ == method_table(node, closure, statics as usize)
    }

    /// The value of a variable, where reading it gives one.
    pub open spec fn value_of(self, id: u64, name: Token) -> Option<Object> {
        found(self.environments@, self.scope_of(id), key(name))
    }

    /// A class declaration is executed. The superclass, if one is named,
    /// must be a class.
    pub open spec fn declares(
        self,
        post: Interpreter,
        frames: Seq<Frame>,
        action: Action,
        node: ClassStmt,
    ) -> bool {
        &&& action is Continue
        &&& match node.superclass {
            Some(variable) => match self.value_of(variable.id, variable.name) {
                Some(Object::Class(class)) => self.builds(post, frames, node, Some(class)),
                Some(_) => self.raises(
                    post,
                    frames,
                    variable.name@,
                    "Superclass must be a class."@,
                ),
                None => post.mode is Unwind && self.looks_up(
                    post,
                    frames,
                    variable.id,
                    variable.name,
                ),
            },
            None => self.builds(post, frames, node, None),
        }
    }

    /// An expression is evaluated: a subexpression is evaluated first, with
    /// a frame that says what follows; or the value is there; or the host
    /// is asked.
    pub open spec fn evaluates(self, post: Interpreter, action: Action, e: Expr) -> bool {
        let frames = self.frames@;
        match e {
            Expr::Assign(a) => self.steps(
                post,
                frames.push(Frame::Assign(a)),
                action,
                Mode::Eval(a.value),
            ),
            Expr::Binary(b) => self.steps(
                post,
                frames.push(Frame::BinaryLeft(b)),
                action,
                Mode::Eval(b.left),
            ),
            Expr::Call(c) => self.steps(
                post,
                frames.push(Frame::Callee(c)),
                action,
                Mode::Eval(c.callee),
            ),
            Expr::Get(g) => self.steps(
                post,
                frames.push(Frame::Get(g)),
                action,
                Mode::Eval(g.object),
            ),
            Expr::Grouping(g) => self.steps(post, frames, action, Mode::Eval(g.expression)),
            Expr::Lambda(l) => self.steps(
                post,
                frames,
                action,
                Mode::Value(
                    Object::Function(LoxCallable::Lambda(LambdaFunction { declaration: l })),
                ),
            ),
            Expr::Literal(l) => match l.value {
                TokenValue::Nil => self.steps(post, frames, action, Mode::Value(Object::Nil)),
                TokenValue::Bool(b) => self.steps(
                    post,
                    frames,
                    action,
                    Mode::Value(Object::Boolean(b)),
                ),
                TokenValue::String(text) => self.steps(
                    post,
                    frames,
                    action,
                    Mode::Value(Object::String(text)),
                ),
                TokenValue::Number(text) => self.asks(
                    post,
                    frames,
                    action,
                    Request::Parse(text),
                    Pending::Number,
                ),
            },
            Expr::Logical(l) => self.steps(
                post,
                frames.push(Frame::Logical(l)),
                action,
                Mode::Eval(l.left),
            ),
            Expr::SetProperty(p) => self.steps(
                post,
                frames.push(Frame::SetObject(p)),
                action,
                Mode::Eval(p.object),
            ),
            Expr::Super(s) => self.supers(post, frames, action, *s),
            Expr::This(t) => self.looks_up(post, frames, t.id, t.keyword) && action is Continue,
            Expr::Ternary(t) => self.steps(
                post,
                frames.push(Frame::Ternary(t)),
                action,
                Mode::Eval(t.condition),
            ),
            Expr::Unary(u) => self.steps(
                post,
                frames.push(Frame::Unary(u)),
                action,
                Mode::Eval(u.right),
            ),
            Expr::Variable(v) => self.looks_up(post, frames, v.id, v.name) && action is Continue,
        }
    }

    /// A statement is executed.
    pub open spec fn executes(self, post: Interpreter, action: Action, statement: Stmt) -> bool {
        let frames = self.frames@;
        match statement {
            Stmt::Block(b) => self.opens(post, frames, b.statements) && action is Continue,
            Stmt::Break => self.steps(
                post,
                frames,
                action,
                Mode::Unwind(RuntimeException::Break),
            ),
            Stmt::Continue => self.steps(
                post,
                frames,
                action,
                Mode::Unwind(RuntimeException::Continue),
            ),
            Stmt::Class(c) => self.declares(post, frames, action, *c),
            Stmt::Expression(e) => self.steps(post, frames, action, Mode::Eval(e.expr)),
            Stmt::Function(f) => self.defines(
                post,
                frames,
                key(f.name),
                method_value(
                    LoxFunction {
                        declaration: f,
                        closure: self.environment,
                        kind: FunctionType::Function,
                    },
                ),
            ) && action is Continue,
            Stmt::If(i) => self.steps(
                post,
                frames.push(Frame::If(i)),
                action,
                Mode::Eval(i.condition),
            ),
            Stmt::Print(p) => self.steps(
                post,
                frames.push(Frame::Print),
                action,
                Mode::Eval(p.expr),
            ),
            Stmt::Return(r) => match r.value {
                Some(value) => self.steps(
                    post,
                    frames.push(Frame::Return),
                    action,
                    Mode::Eval(value),
                ),
                None => self.steps(post, frames, action, returning(Object::Nil)),
            },
            Stmt::Var(v) => match v.initializer {
                Some(initializer) => self.steps(
                    post,
                    frames.push(Frame::Var(v)),
                    action,
                    Mode::Eval(initializer),
                ),
                None => self.defines(post, frames, key(v.name), Object::Undefined)
                    && action is Continue,
            },
            Stmt::While(w) => self.steps(
                post,
                frames.push(Frame::WhileCondition(w)),
                action,
                Mode::Eval(w.condition),
            ),
        }
    }

    /// A value reaches the frame on top, which is taken off.
    pub open spec fn delivers(self, post: Interpreter, action: Action, value: Object) -> bool {
        let frames = self.frames@.drop_last();
        match self.frames@.last() {
            Frame::Assign(a) => self.assigns(post, frames, *a, value) && action is Continue,
            Frame::BinaryLeft(b) => self.steps(
                post,
                frames.push(Frame::BinaryRight { node: b, left: value }),
                action,
                Mode::Eval(b.right),
            ),
            Frame::BinaryRight { node, left } => self.applies(
                post,
                frames,
                action,
                node.operator,
                left,
                value,
            ),
            Frame::Callee(c) => match c.arguments {
                List::Nil => self.calls(post, frames, action, c.paren, value, Seq::empty()),
                List::Cons(first) => self.steps(
                    post,
                    frames.push(
                        Frame::Argument {
                            paren: c.paren,
                            callee: value,
                            done: List::Nil,
                            rest: first.tail,
                        },
                    ),
                    action,
                    Mode::Eval(first.head),
                ),
            },
            Frame::Argument { paren, callee, done, rest } => match rest {
                List::Nil => self.calls(
                    post,
                    frames,
                    action,
                    paren,
                    callee,
                    done@.reverse().push(value),
                ),
                List::Cons(next) => self.steps(
                    post,
                    frames.push(
                        Frame::Argument {
                            paren,
                            callee,
                            done: List::Cons(Rc::new(crate::list::Node { head: value, tail: done })),
                            rest: next.tail,
                        },
                    ),
                    action,
                    Mode::Eval(next.head),
                ),
            },
            Frame::Get(g) => self.gets(post, frames, action, g.name, value),
            Frame::Logical(l) => if short_circuits(l.operator.id, value) {
                self.steps(post, frames, action, Mode::Value(value))
            } else {
                self.steps(post, frames, action, Mode::Eval(l.right))
            },
            Frame::SetObject(p) => match value {
                Object::Instance(i) => if i < self.instances@.len() {
                    self.steps(
                        post,
                        frames.push(Frame::SetValue { node: p, instance: i }),
                        action,
                        Mode::Eval(p.value),
                    )
                } else {
                    self.throws(post, frames, action, p.name@, "Only instances have properties."@)
                },
                _ => self.throws(
                    post,
                    frames,
                    action,
                    p.name@,
                    "Only instances have properties."@,
                ),
            },
            Frame::SetValue { node, instance } => self.stores(
                post,
                frames,
                action,
                node.name,
                instance,
                value,
            ),
            Frame::Ternary(t) => self.steps(
                post,
                frames,
                action,
                Mode::Eval(
                    if value.truthy() {
                        t.then_branch
                    } else {
                        t.else_branch
                    },
                ),
            ),
            Frame::Unary(u) => self.negates(post, frames, action, u.operator, value),
            Frame::Sequence(statements) => match statements {
                List::Nil => self.steps(post, frames, action, Mode::Value(value)),
                List::Cons(next) => self.steps(
                    post,
                    frames.push(Frame::Sequence(next.tail)),
                    action,
                    Mode::Exec(next.head),
                ),
            },
            Frame::Scope { restore } => {
                &&& self.keeps_store(post)
                &&& post.environment == restore
                &&& post.frames@ == frames
                &&& post.mode == Mode::Value(value)
                &&& action is Continue
            },
            Frame::Call { kind, closure, restore } => self.comes_back(
                post,
                frames,
                action,
                kind,
                closure,
                restore,
                Object::Nil,
            ),
            Frame::Construct { instance } => self.steps(
                post,
                frames,
                action,
                Mode::Value(Object::Instance(instance)),
            ),
            Frame::If(i) => if value.truthy() {
                self.opens(post, frames, i.then_branch.statements) && action is Continue
            } else {
                match i.else_branch {
                    Some(else_branch) => self.opens(post, frames, else_branch.statements)
                        && action is Continue,
                    None => self.steps(post, frames, action, Mode::Value(Object::Undefined)),
                }
            },
            Frame::Print => self.prints(post, frames, action, value),
            Frame::Return => self.steps(post, frames, action, returning(value)),
            Frame::Var(v) => self.defines(post, frames, key(v.name), value) && action is Continue,
            Frame::WhileCondition(w) => if value.truthy() {
                self.opens(post, frames.push(Frame::WhileBody(w)), w.body.statements)
                    && action is Continue
            } else {
                self.steps(post, frames, action, Mode::Value(Object::Undefined))
            },
            Frame::WhileBody(w) => self.steps(
                post,
                frames.push(Frame::WhileCondition(w)),
                action,
                Mode::Eval(w.condition),
            ),
        }
    }

    /// A signal reaches the frame on top, which is taken off. A scope and a
    /// call go back to the environment they came from; a call takes up
    /// `return`; a loop takes up `break` and `continue`; every other frame
    /// lets the signal pass.
    pub open spec fn unwinds(
        self,
        post: Interpreter,
        action: Action,
        signal: RuntimeException,
    ) -> bool {
        let frames = self.frames@.drop_last();
        match self.frames@.last() {
            Frame::Scope { restore } => {
                &&& self.keeps_store(post)
                &&& post.environment == restore
                &&& post.frames@ == frames
                &&& post.mode == Mode::Unwind(signal)
                &&& action is Continue
            },
            Frame::Call { kind, closure, restore } => match signal {
                RuntimeException::Return(returned) => self.comes_back(
                    post,
                    frames,
                    action,
                    kind,
                    closure,
                    restore,
                    returned.value,
                ),
                _ => {
                    &&& self.keeps_store(post)
                    &&& post.environment == restore
                    &&& post.frames@ == frames
                    &&& post.mode == Mode::Unwind(signal)
                    &&& action is Continue
                },
            },
            Frame::WhileBody(w) => match signal {
                RuntimeException::Break => self.steps(
                    post,
                    frames,
                    action,
                    Mode::Value(Object::Undefined),
                ),
                RuntimeException::Continue => self.steps(
                    post,
                    frames.push(Frame::WhileCondition(w)),
                    action,
                    Mode::Eval(w.condition),
                ),
                _ => self.steps(post, frames, action, Mode::Unwind(signal)),
            },
            _ => self.steps(post, frames, action, Mode::Unwind(signal)),
        }
    }

    /// The program has ended with `result`: the evaluator is idle again.
    pub open spec fn finishes(
        self,
        post: Interpreter,
        action: Action,
        result: Result<Object, RuntimeException>,
    ) -> bool {
        self.goes(post, self.frames@, Mode::Idle) && action == Action::Finished(result)
    }

    /// One step of the evaluator. The event counts only where the evaluator
    /// waits for an answer.
    pub open spec fn stepped(self, event: Event, post: Interpreter, action: Action) -> bool {
        match self.mode {
            Mode::Idle => self.finishes(post, action, Ok(Object::Undefined)),
            Mode::Eval(e) => self.evaluates(post, action, e),
            Mode::Exec(statement) => self.executes(post, action, statement),
            Mode::Value(value) => if self.frames@.len() == 0 {
                self.finishes(post, action, Ok(value))
            } else {
                self.delivers(post, action, value)
            },
            Mode::Unwind(signal) => if self.frames@.len() == 0 {
                self.finishes(post, action, Err(signal))
            } else {
                self.unwinds(post, action, signal)
            },
            Mode::Await { request, pending } => self.answers(
                post,
                action,
                request,
                pending,
                event,
            ),
        }
    }
}

/// The event that the step after `n` steps is made with: the host's answer
/// first, nothing afterwards.
pub open spec fn event_after(event: Event, n: nat) -> Event {
    if n == 0 {
        event
    } else {
        Event::Nothing
    }
}

impl Interpreter {
    /// `n` steps lead from `self` to `post`, the first one made with `event`,
    /// and none of them needs the host.
    pub open spec fn reaches(self, event: Event, post: Interpreter, n: nat) -> bool
        decreases n,
    {
        if n == 0 {
            post == self
        } else {
            exists|mid: Interpreter|
                self.reaches(event, mid, (n - 1) as nat) && #[trigger] mid.stepped(
                    event_after(event, (n - 1) as nat),
                    post,
                    Action::Continue,
                )
        }
    }

    /// Steps lead from `self` to `post` and end with `action`: all but the
    /// last one need nothing of the host, and so does the last one only
    /// where `budget` steps before it were made.
    pub open spec fn advances(
        self,
        event: Event,
        budget: nat,
        post: Interpreter,
        action: Action,
    ) -> bool {
        exists|mid: Interpreter, n: nat|
            {
                &&& n <= budget
                &&& #[trigger] self.reaches(event, mid, n)
                &&& mid.stepped(event_after(event, n), post, action)
                &&& action is Continue ==> n == budget
            }
    }
}

} // verus!
