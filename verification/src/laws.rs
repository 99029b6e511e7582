//! Laws of the language, proved from the scope rules and the step relation.

use vstd::prelude::*;
use std::rc::Rc;
use crate::class::{method_of, property, LoxClass, LoxInstance, Property};
use crate::environment::{found, parent, Environment};
use crate::error::{Fault, RuntimeException};
use crate::expr::{Expr, SuperExpr, VariableExpr};
use crate::function::{FunctionType, LoxFunction};
use crate::list::{List, Node};
use crate::machine::{Action, Event, Frame, Interpreter, Mode, Pending, Request};
use crate::object::Object;
use crate::scoping::{key, Scoping};
use crate::semantics::{method_value, this_alone};
use crate::stmt::{BlockStmt, FunctionStmt, Stmt, VarStmt, WhileStmt};
use crate::token::Token;

verus! {

/// Reading a variable in its own initializer is an error: the resolver
/// rejects `var a = a;` wherever the scope does not hold `a` yet, and the
/// error points at the use.
pub proof fn law_self_initializer(state: Scoping, declaration: VarStmt, variable: VariableExpr)
    requires
        state.scopes.len() > 0,
        !state.scopes.last().contains_key(key(declaration.name)),
        declaration.initializer == Some(Expr::Variable(Rc::new(variable))),
        key(variable.name) == key(declaration.name),
    ensures
        state.stmt(Stmt::Var(Rc::new(declaration))) == Err::<Scoping, Fault>(
            Fault {
                token: variable.name@,
                message: "Can't read local variable in its own initializer."@,
            },
        ),
{
    let declared = state.bind(key(declaration.name), false);
    assert(state.declare(declaration.name) == Ok::<Scoping, Fault>(declared));
    assert(declared.scopes.last().contains_key(key(variable.name)));
    assert(!declared.scopes.last()[key(variable.name)]);
    assert(declared.expr(Expr::Variable(Rc::new(variable))) == declared.variable(variable));
}

/// A block that starts with `var a = a;` is rejected, whatever surrounds
/// it: the block's scope is new, so the name is not declared in it.
pub proof fn law_self_initializer_in_block(
    state: Scoping,
    declaration: VarStmt,
    variable: VariableExpr,
    rest: List<Stmt>,
)
    requires
        declaration.initializer == Some(Expr::Variable(Rc::new(variable))),
        key(variable.name) == key(declaration.name),
    ensures
        state.block(
            BlockStmt {
                statements: List::Cons(
                    Rc::new(Node { head: Stmt::Var(Rc::new(declaration)), tail: rest }),
                ),
            },
        ) == Err::<Scoping, Fault>(
            Fault {
                token: variable.name@,
                message: "Can't read local variable in its own initializer."@,
            },
        ),
{
    law_self_initializer(state.begin(), declaration, variable);
}

/// Lexical scoping, at the declaration: a function declaration binds the
/// name to a function that closes over the scope of the declaration.
pub proof fn law_function_closes_over_its_scope(
    pre: Interpreter,
    post: Interpreter,
    action: Action,
    declaration: Rc<FunctionStmt>,
)
    requires
        pre.environment < pre.environments@.len(),
        pre.executes(post, action, Stmt::Function(declaration)),
    ensures
        post.environments@[pre.environment as int].values@[key(declaration.name)] == method_value(
            LoxFunction {
                declaration,
                closure: pre.environment,
                kind: FunctionType::Function,
            },
        ),
{
}

/// Lexical scoping, at the call: the body of a function runs in a new scope
/// that encloses the function's closure, whatever scope the call is made
/// from; no scope that was there before is changed.
pub proof fn law_call_runs_inside_the_closure(
    pre: Interpreter,
    post: Interpreter,
    frames: Seq<Frame>,
    action: Action,
    paren: Token,
    function: LoxFunction,
    arguments: Seq<Object>,
)
    requires
        pre.calls(post, frames, action, paren, method_value(function), arguments),
    ensures
        post.environment == pre.environments@.len(),
        post.environments@[post.environment as int].enclosing == Some(function.closure),
        post.environments@.drop_last() == pre.environments@,
        function.closure < pre.environments@.len() ==> parent(
            post.environments@,
            post.environment as int,
        ) == Some(function.closure as int),
{
}

/// An initializer gives `this`: where a call of an initializer ends with a
/// value, the value is the `this` of its closure, whatever was returned.
pub proof fn law_initializer_gives_this(
    pre: Interpreter,
    post: Interpreter,
    frames: Seq<Frame>,
    action: Action,
    closure: usize,
    restore: usize,
    returned: Object,
)
    requires
        pre.comes_back(
            post,
            frames,
            action,
            FunctionType::Initializer,
            closure,
            restore,
            returned,
        ),
        post.mode is Value,
    ensures
        found(pre.environments@, Some(closure as int), "this"@) == Some(post.mode->Value_0),
{
}

/// A class call gives the new instance, whatever its initializer gave.
pub proof fn law_construction_gives_the_instance(
    pre: Interpreter,
    post: Interpreter,
    action: Action,
    instance: usize,
    value: Object,
)
    requires
        pre.frames@.len() > 0,
        pre.frames@.last() == (Frame::Construct { instance }),
        pre.delivers(post, action, value),
    ensures
        post.mode == Mode::Value(Object::Instance(instance)),
        post.frames@ == pre.frames@.drop_last(),
{
}

/// Method binding: reading a method from an instance gives a function that
/// carries the instance; it has the method's declaration and closes over a
/// scope that binds `this` to the instance, inside the method's closure. So
/// the value can be called at once or kept and called later, to the same
/// effect.
pub proof fn law_method_carries_its_instance(
    pre: Interpreter,
    post: Interpreter,
    frames: Seq<Frame>,
    action: Action,
    name: Token,
    instance: usize,
    method: LoxFunction,
)
    requires
        instance < pre.instances@.len(),
        property(pre.classes@, pre.instances@[instance as int], key(name)) == Property::Method(
            method,
        ),
        pre.gets(post, frames, action, name, Object::Instance(instance)),
    ensures
        post.mode == Mode::Value(
            method_value(
                LoxFunction {
                    declaration: method.declaration,
                    closure: pre.environments@.len() as usize,
                    kind: method.kind,
                },
            ),
        ),
        post.environments@[pre.environments@.len() as int].enclosing == Some(method.closure),
        post.environments@[pre.environments@.len() as int].values@ == this_alone(instance),
        post.instances == pre.instances,
{
}

/// Inheritance lookup: `super.m` gives the method `m` of the superclass,
/// bound to the current instance.
pub proof fn law_super_binds_this(
    pre: Interpreter,
    post: Interpreter,
    frames: Seq<Frame>,
    action: Action,
    node: SuperExpr,
    class: usize,
    instance: usize,
    method: LoxFunction,
)
    requires
        pre.locals@.contains_key(node.id),
        found(pre.environments@, pre.hops(pre.locals@[node.id] as int), key(node.keyword)) == Some(
            Object::Class(class),
        ),
        found(pre.environments@, pre.hops(pre.locals@[node.id] - 1), "this"@) == Some(
            Object::Instance(instance),
        ),
        method_of(pre.classes@, class as int, key(node.method)) == Some(method),
        pre.supers(post, frames, action, node),
    ensures
        post.mode == Mode::Value(
            method_value(
                LoxFunction {
                    declaration: method.declaration,
                    closure: pre.environments@.len() as usize,
                    kind: method.kind,
                },
            ),
        ),
        post.environments@.last().enclosing == Some(method.closure),
        post.environments@.last().values@ == this_alone(instance),
{
}

/// Loop control: `break` ends the loop whose body it reaches.
pub proof fn law_break_ends_the_loop(
    pre: Interpreter,
    post: Interpreter,
    action: Action,
    node: Rc<WhileStmt>,
)
    requires
        pre.frames@.len() > 0,
        pre.frames@.last() == Frame::WhileBody(node),
        pre.unwinds(post, action, RuntimeException::Break),
    ensures
        post.mode == Mode::Value(Object::Undefined),
        post.frames@ == pre.frames@.drop_last(),
{
}

/// Loop control: `continue` goes on with the condition of the loop whose
/// body it reaches.
pub proof fn law_continue_goes_to_the_condition(
    pre: Interpreter,
    post: Interpreter,
    action: Action,
    node: Rc<WhileStmt>,
)
    requires
        pre.frames@.len() > 0,
        pre.frames@.last() == Frame::WhileBody(node),
        pre.unwinds(post, action, RuntimeException::Continue),
    ensures
        post.mode == Mode::Eval(node.condition),
        post.frames@ == pre.frames@.drop_last().push(Frame::WhileCondition(node)),
{
}

/// Loop control: every frame between a `break` or `continue` and its loop
/// lets the signal pass; scopes are left on the way.
pub proof fn law_loop_signals_pass(
    pre: Interpreter,
    post: Interpreter,
    action: Action,
    signal: RuntimeException,
)
    requires
        pre.frames@.len() > 0,
        signal is Break || signal is Continue,
        !(pre.frames@.last() is WhileBody),
        pre.unwinds(post, action, signal),
    ensures
        post.mode == Mode::Unwind(signal),
        post.frames@ == pre.frames@.drop_last(),
        pre.frames@.last() matches Frame::Scope { restore } ==> post.environment == restore,
{
}

/// Two actions ask the same of the host.
pub open spec fn same_action(a: Action, b: Action) -> bool {
    match (a, b) {
        (Action::Print(x), Action::Print(y)) => x@ == y@,
        _ => a == b,
    }
}

/// Two modes are the same up to how new text is held.
pub open spec fn same_mode(a: Mode, b: Mode) -> bool {
    match (a, b) {
        (Mode::Value(Object::String(x)), Mode::Value(Object::String(y))) => x@ == y@,
        (
            Mode::Unwind(RuntimeException::Error(x)),
            Mode::Unwind(RuntimeException::Error(y)),
        ) => x@ == y@,
        (
            Mode::Await { request: r, pending: Pending::InvalidRight { operator: o, left: x } },
            Mode::Await { request: s, pending: Pending::InvalidRight { operator: p, left: y } },
        ) => r == s && o == p && x@ == y@,
        _ => a == b,
    }
}

/// Two stores hold the same environments.
pub open spec fn same_environments(a: Seq<Environment>, b: Seq<Environment>) -> bool {
    &&& a.len() == b.len()
    &&& forall|i: int|
        0 <= i < a.len() ==> (#[trigger] a[i]).enclosing == b[i].enclosing && a[i].values@
            == b[i].values@
}

/// Two stores hold the same classes.
pub open spec fn same_classes(a: Seq<LoxClass>, b: Seq<LoxClass>) -> bool {
    &&& a.len() == b.len()
    &&& forall|i: int|
        0 <= i < a.len() ==> (#[trigger] a[i]).name@ == b[i].name@ && a[i].superclass
            == b[i].superclass && a[i].methods@ == b[i].methods@
}

/// Two stores hold the same instances.
pub open spec fn same_instances(a: Seq<LoxInstance>, b: Seq<LoxInstance>) -> bool {
    &&& a.len() == b.len()
    &&& forall|i: int|
        0 <= i < a.len() ==> (#[trigger] a[i]).class == b[i].class && a[i].fields@
            == b[i].fields@
}

/// Two states of the evaluator are the same up to how text and tables are
/// held.
pub open spec fn same_state(a: Interpreter, b: Interpreter) -> bool {
    &&& a.global == b.global
    &&& a.environment == b.environment
    &&& a.locals@ == b.locals@
    &&& same_environments(a.environments@, b.environments@)
    &&& same_classes(a.classes@, b.classes@)
    &&& same_instances(a.instances@, b.instances@)
    &&& a.frames@ == b.frames@
    &&& same_mode(a.mode, b.mode)
}

/// Environments are the same where their first `n` are and the rest are.
proof fn lemma_same_environments(a: Seq<Environment>, b: Seq<Environment>, n: int)
    requires
        a.len() == b.len(),
        0 <= n <= a.len(),
        same_environments(a.take(n), b.take(n)),
        forall|i: int|
            n <= i < a.len() ==> (#[trigger] a[i]).enclosing == b[i].enclosing && a[i].values@
                == b[i].values@,
    ensures
        same_environments(a, b),
{
    assert forall|i: int| 0 <= i < a.len() implies (#[trigger] a[i]).enclosing == b[i].enclosing
        && a[i].values@ == b[i].values@ by {
        if i < n {
            assert(a.take(n)[i] == a[i]);
            assert(b.take(n)[i] == b[i]);
        }
    }
}

/// Classes are the same where all but the last are equal and the last are
/// the same.
proof fn lemma_same_classes(a: Seq<LoxClass>, b: Seq<LoxClass>)
    requires
        a.len() == b.len(),
        a.len() > 0,
        a.drop_last() == b.drop_last(),
        a.last().name@ == b.last().name@,
        a.last().superclass == b.last().superclass,
        a.last().methods@ == b.last().methods@,
    ensures
        same_classes(a, b),
{
    assert forall|i: int| 0 <= i < a.len() implies (#[trigger] a[i]).name@ == b[i].name@
        && a[i].superclass == b[i].superclass && a[i].methods@ == b[i].methods@ by {
        if i < a.len() - 1 {
            assert(a.drop_last()[i] == a[i]);
            assert(b.drop_last()[i] == b[i]);
        }
    }
}

/// Instances are the same where all but the last are equal and the last
/// are the same.
proof fn lemma_same_instances(a: Seq<LoxInstance>, b: Seq<LoxInstance>)
    requires
        a.len() == b.len(),
        a.len() > 0,
        a.drop_last() == b.drop_last(),
        a.last().class == b.last().class,
        a.last().fields@ == b.last().fields@,
    ensures
        same_instances(a, b),
{
    assert forall|i: int| 0 <= i < a.len() implies (#[trigger] a[i]).class == b[i].class
        && a[i].fields@ == b[i].fields@ by {
        if i < a.len() - 1 {
            assert(a.drop_last()[i] == a[i]);
            assert(b.drop_last()[i] == b[i]);
        }
    }
}

/// Brings in what makes two stores the same where both grew from `pre`.
proof fn lemma_same_stores(pre: Interpreter, first: Interpreter, second: Interpreter)
    ensures
        ({
            let a = first.environments@;
            let b = second.environments@;
            let n = pre.environments@.len() as int;
            &&& a.len() == b.len()
            &&& n <= a.len()
            &&& same_environments(a.take(n), b.take(n))
            &&& forall|i: int|
                n <= i < a.len() ==> (#[trigger] a[i]).enclosing == b[i].enclosing
                    && a[i].values@ == b[i].values@
        }) ==> same_environments(first.environments@, second.environments@),
        ({
            let a = first.classes@;
            let b = second.classes@;
            &&& a.len() == b.len()
            &&& a.len() > 0
            &&& a.drop_last() == b.drop_last()
            &&& a.last().name@ == b.last().name@
            &&& a.last().superclass == b.last().superclass
            &&& a.last().methods@ == b.last().methods@
        }) ==> same_classes(first.classes@, second.classes@),
        ({
            let a = first.instances@;
            let b = second.instances@;
            &&& a.len() == b.len()
            &&& a.len() > 0
            &&& a.drop_last() == b.drop_last()
            &&& a.last().class == b.last().class
            &&& a.last().fields@ == b.last().fields@
        }) ==> same_instances(first.instances@, second.instances@),
{
    let a = first.environments@;
    let b = second.environments@;
    let n = pre.environments@.len() as int;
    if a.len() == b.len() && n <= a.len() && same_environments(a.take(n), b.take(n)) && (forall|
        i: int,
    |
        n <= i < a.len() ==> (#[trigger] a[i]).enclosing == b[i].enclosing && a[i].values@
            == b[i].values@) {
        lemma_same_environments(a, b, n);
    }
    let a = first.classes@;
    let b = second.classes@;
    if a.len() == b.len() && a.len() > 0 && a.drop_last() == b.drop_last() && a.last().name@
        == b.last().name@ && a.last().superclass == b.last().superclass && a.last().methods@
        == b.last().methods@ {
        lemma_same_classes(a, b);
    }
    let a = first.instances@;
    let b = second.instances@;
    if a.len() == b.len() && a.len() > 0 && a.drop_last() == b.drop_last() && a.last().class
        == b.last().class && a.last().fields@ == b.last().fields@ {
        lemma_same_instances(a, b);
    }
}

proof fn lemma_evaluates_determined(
    pre: Interpreter,
    e: Expr,
    first: Interpreter,
    first_action: Action,
    second: Interpreter,
    second_action: Action,
)
    requires
        pre.evaluates(first, first_action, e),
        pre.evaluates(second, second_action, e),
    ensures
        same_state(first, second),
{
    lemma_same_stores(pre, first, second);
}

proof fn lemma_executes_determined(
    pre: Interpreter,
    statement: Stmt,
    first: Interpreter,
    first_action: Action,
    second: Interpreter,
    second_action: Action,
)
    requires
        pre.executes(first, first_action, statement),
        pre.executes(second, second_action, statement),
    ensures
        same_state(first, second),
{
    lemma_same_stores(pre, first, second);
}

proof fn lemma_applies_determined(
    pre: Interpreter,
    top: Frame,
    value: Object,
    first: Interpreter,
    first_action: Action,
    second: Interpreter,
    second_action: Action,
)
    requires
        top is BinaryRight,
        pre.applies(
            first,
            pre.frames@.drop_last(),
            first_action,
            top->BinaryRight_node.operator,
            top->BinaryRight_left,
            value,
        ),
        pre.applies(
            second,
            pre.frames@.drop_last(),
            second_action,
            top->BinaryRight_node.operator,
            top->BinaryRight_left,
            value,
        ),
    ensures
        same_state(first, second),
{
}

proof fn lemma_calls_determined(
    pre: Interpreter,
    top: Frame,
    value: Object,
    first: Interpreter,
    first_action: Action,
    second: Interpreter,
    second_action: Action,
)
    requires
        pre.frames@.len() > 0,
        top == pre.frames@.last(),
        top is Callee || top is Argument,
        pre.delivers(first, first_action, value),
        pre.delivers(second, second_action, value),
    ensures
        same_state(first, second),
{
    lemma_same_stores(pre, first, second);
}

proof fn lemma_gets_determined(
    pre: Interpreter,
    top: Frame,
    value: Object,
    first: Interpreter,
    first_action: Action,
    second: Interpreter,
    second_action: Action,
)
    requires
        top is Get,
        pre.gets(first, pre.frames@.drop_last(), first_action, top->Get_0.name, value),
        pre.gets(second, pre.frames@.drop_last(), second_action, top->Get_0.name, value),
    ensures
        same_state(first, second),
{
    lemma_same_stores(pre, first, second);
}

proof fn lemma_delivers_determined(
    pre: Interpreter,
    value: Object,
    first: Interpreter,
    first_action: Action,
    second: Interpreter,
    second_action: Action,
)
    requires
        pre.frames@.len() > 0,
        pre.delivers(first, first_action, value),
        pre.delivers(second, second_action, value),
    ensures
        same_state(first, second),
{
    let frames = pre.frames@.drop_last();
    let top = pre.frames@.last();
    if top is BinaryRight {
        lemma_applies_determined(pre, top, value, first, first_action, second, second_action);
    } else if top is Callee || top is Argument {
        lemma_calls_determined(pre, top, value, first, first_action, second, second_action);
    } else if top is Get {
        lemma_gets_determined(pre, top, value, first, first_action, second, second_action);
    } else {
        lemma_same_stores(pre, first, second);
    }
}

proof fn lemma_unwinds_determined(
    pre: Interpreter,
    signal: RuntimeException,
    first: Interpreter,
    first_action: Action,
    second: Interpreter,
    second_action: Action,
)
    requires
        pre.frames@.len() > 0,
        pre.unwinds(first, first_action, signal),
        pre.unwinds(second, second_action, signal),
    ensures
        same_state(first, second),
{
}

proof fn lemma_answers_determined(
    pre: Interpreter,
    request: Request,
    pending: Pending,
    event: Event,
    first: Interpreter,
    first_action: Action,
    second: Interpreter,
    second_action: Action,
)
    requires
        pre.answers(first, first_action, request, pending, event),
        pre.answers(second, second_action, request, pending, event),
    ensures
        same_state(first, second),
{
}

/// Determinism: a step is a function of the state and the event. Two steps
/// from one state with one event ask the same of the host and end in the
/// same state. With a host that answers the same requests alike, a program
/// so runs alike every time.
pub proof fn law_step_is_determined(
    pre: Interpreter,
    event: Event,
    first: Interpreter,
    first_action: Action,
    second: Interpreter,
    second_action: Action,
)
    requires
        pre.stepped(event, first, first_action),
        pre.stepped(event, second, second_action),
    ensures
        same_action(first_action, second_action),
        same_state(first, second),
{
    match pre.mode {
        Mode::Idle => {},
        Mode::Eval(e) => {
            lemma_evaluates_determined(pre, e, first, first_action, second, second_action);
        },
        Mode::Exec(statement) => {
            lemma_executes_determined(pre, statement, first, first_action, second, second_action);
        },
        Mode::Value(value) => {
            if pre.frames@.len() > 0 {
                lemma_delivers_determined(pre, value, first, first_action, second, second_action);
            }
        },
        Mode::Unwind(signal) => {
            if pre.frames@.len() > 0 {
                lemma_unwinds_determined(pre, signal, first, first_action, second, second_action);
            }
        },
        Mode::Await { request, pending } => {
            lemma_answers_determined(
                pre,
                request,
                pending,
                event,
                first,
                first_action,
                second,
                second_action,
            );
        },
    }
}

} // verus!
