//! Environments: chained scopes of name bindings.
//!
//! Environments live in a store and refer to the enclosing one by its
//! number, which is always lower than their own. A closure keeps a number,
//! so that everything that holds on to an environment sees the same
//! bindings.

use vstd::prelude::*;
use crate::error::{fails_with, runtime_error, RuntimeException};
use crate::object::Object;
use crate::scoping::key;
use crate::table::Table;
use crate::token::{Token, TokenView};

verus! {

/// One scope: the bindings, and the number of the enclosing scope.
#[derive(Debug)]
pub struct Environment {
    pub enclosing: Option<usize>,
    pub values: Table<Object>,
}

/// Every environment's table is well formed.
pub open spec fn tables_wf(environments: Seq<Environment>) -> bool {
    forall|i: int| 0 <= i < environments.len() ==> (#[trigger] environments[i]).values.wf()
}

/// The scope that encloses `at`, where it has one with a lower number.
pub open spec fn parent(environments: Seq<Environment>, at: int) -> Option<int> {
    if 0 <= at < environments.len() {
        match environments[at].enclosing {
            Some(up) => if up < at {
                Some(up as int)
            } else {
                None
            },
            None => None,
        }
    } else {
        None
    }
}

/// The nearest scope, from `at` outwards, that binds `name`.
pub open spec fn binder(environments: Seq<Environment>, at: int, name: Seq<char>) -> Option<int>
    decreases at,
{
    if 0 <= at < environments.len() {
        if environments[at].values@.contains_key(name) {
            Some(at)
        } else {
            match parent(environments, at) {
                Some(up) => binder(environments, up, name),
                None => None,
            }
        }
    } else {
        None
    }
}

/// The scope `distance` hops outwards from `at`.
pub open spec fn ancestor_of(environments: Seq<Environment>, at: int, distance: nat) -> Option<int>
    decreases distance,
{
    if 0 <= at < environments.len() {
        if distance == 0 {
            Some(at)
        } else {
            match parent(environments, at) {
                Some(up) => ancestor_of(environments, up, (distance - 1) as nat),
                None => None,
            }
        }
    } else {
        None
    }
}

/// A number of the store as a mathematical integer.
pub open spec fn as_int(r: Option<usize>) -> Option<int> {
    match r {
        Some(n) => Some(n as int),
        None => None,
    }
}

/// `after` is `before` with `name` bound to `value` in scope `at`, and
/// nothing else changed.
pub open spec fn rebound(
    before: Seq<Environment>,
    after: Seq<Environment>,
    at: int,
    name: Seq<char>,
    value: Object,
) -> bool {
    &&& 0 <= at < before.len()
    &&& after.len() == before.len()
    &&& after[at].enclosing == before[at].enclosing
    &&& after[at].values@ == before[at].values@.insert(name, value)
    &&& forall|j: int| 0 <= j < before.len() && j != at ==> after[j] == before[j]
}

/// What reading `name` from scope `at` outwards gives; an error points at
/// `token`.
pub open spec fn read_as(
    environments: Seq<Environment>,
    at: int,
    name: Seq<char>,
    token: TokenView,
    r: Result<Object, RuntimeException>,
) -> bool {
    match binder(environments, at, name) {
        Some(scope) => {
            let value = environments[scope].values@[name];
            if value is Undefined {
                fails_with(r, token, "The variable isn't initialized."@)
            } else {
                r == Ok::<Object, RuntimeException>(value)
            }
        },
        None => fails_with(r, token, "Undefined variable."@),
    }
}

/// What reading the name that a token spells gives, from scope `at`
/// outwards.
pub open spec fn read(
    environments: Seq<Environment>,
    at: int,
    name: Token,
    r: Result<Object, RuntimeException>,
) -> bool {
    read_as(environments, at, key(name), name@, r)
}

/// The value that a read from scope `at` outwards finds, where it finds an
/// initialized one.
pub open spec fn found(environments: Seq<Environment>, at: Option<int>, name: Seq<char>) -> Option<
    Object,
> {
    match at {
        Some(at) => match binder(environments, at, name) {
            Some(scope) => {
                let value = environments[scope].values@[name];
                if value is Undefined {
                    None
                } else {
                    Some(value)
                }
            },
            None => None,
        },
        None => None,
    }
}

/// What assigning `value` to `name` from scope `at` outwards does.
pub open spec fn written(
    before: Seq<Environment>,
    after: Seq<Environment>,
    at: int,
    name: Token,
    value: Object,
    r: Result<(), RuntimeException>,
) -> bool {
    match binder(before, at, key(name)) {
        Some(scope) => r is Ok && rebound(before, after, scope, key(name), value),
        None => fails_with(r, name@, "Unclarified variable."@) && after == before,
    }
}

impl Environment {
    pub fn new(enclosing: Option<usize>) -> (e: Self)
        ensures
            e.enclosing == enclosing,
            e.values.wf(),
            e.values@ == Map::<Seq<char>, Object>::empty(),
    {
        Environment { enclosing, values: Table::new() }
    }

    /// Binds `name` in this scope, in place of what it was bound to.
    pub fn define(&mut self, name: &str, value: Object)
        requires
            old(self).values.wf(),
        ensures
            final(self).values.wf(),
            final(self).enclosing == old(self).enclosing,
            final(self).values@ == old(self).values@.insert(name@, value),
    {
        self.values.insert(String::from_str(name), value);
    }

    /// Binds `name` in scope `at` of a store; nothing happens where the
    /// store has no such scope.
    pub fn define_at(environments: &mut Vec<Environment>, at: usize, name: &str, value: Object)
        requires
            tables_wf(old(environments)@),
        ensures
            tables_wf(final(environments)@),
            at < old(environments)@.len() ==> rebound(
                old(environments)@,
                final(environments)@,
                at as int,
                name@,
                value,
            ),
            at >= old(environments)@.len() ==> final(environments)@ == old(environments)@,
    {
        if at < environments.len() {
            environments[at].define(name, value);
        }
    }

    fn up(environments: &Vec<Environment>, at: usize) -> (r: Option<usize>)
        ensures
            parent(environments@, at as int) == as_int(r),
            r matches Some(up) ==> up < at,
    {
        if at < environments.len() {
            match environments[at].enclosing {
                Some(up) => if up < at {
                    Some(up)
                } else {
                    None
                },
                None => None,
            }
        } else {
            None
        }
    }

    fn find(environments: &Vec<Environment>, at: usize, name: &String) -> (r: Option<usize>)
        requires
            tables_wf(environments@),
        ensures
            binder(environments@, at as int, name@) == as_int(r),
            r matches Some(scope) ==> scope < environments@.len()
                && environments@[scope as int].values@.contains_key(name@),
        decreases at,
    {
        if at < environments.len() {
            if environments[at].values.contains_key(name) {
                Some(at)
            } else {
                match Environment::up(environments, at) {
                    Some(up) => Environment::find(environments, up, name),
                    None => None,
                }
            }
        } else {
            None
        }
    }

    /// Reads `name`, from scope `at` outwards. Reading a name that is
    /// declared and not yet initialized is an error, as is reading one that
    /// no scope binds.
    pub fn get(environments: &Vec<Environment>, at: usize, name: &Token) -> (r: Result<
        Object,
        RuntimeException,
    >)
        requires
            tables_wf(environments@),
        ensures
            read(environments@, at as int, *name, r),
    {
        let text = name.value.to_text();
        match Environment::find(environments, at, &text) {
            Some(scope) => {
                match environments[scope].values.get(&text) {
                    Some(value) => {
                        if let Object::Undefined = value {
                            runtime_error(name, "The variable isn't initialized.")
                        } else {
                            Ok(value.share())
                        }
                    },
                    None => runtime_error(name, "Undefined variable."),
                }
            },
            None => runtime_error(name, "Undefined variable."),
        }
    }

    /// Assigns to `name` in the nearest scope that binds it, from `at`
    /// outwards; an error where none does.
    pub fn assign(environments: &mut Vec<Environment>, at: usize, name: &Token, value: Object) -> (r:
        Result<(), RuntimeException>)
        requires
            tables_wf(old(environments)@),
        ensures
            tables_wf(final(environments)@),
            written(old(environments)@, final(environments)@, at as int, *name, value, r),
    {
        let text = name.value.to_text();
        match Environment::find(environments, at, &text) {
            Some(scope) => {
                environments[scope].values.insert(text, value);
                Ok(())
            },
            None => runtime_error(name, "Unclarified variable."),
        }
    }

    /// The scope `distance` hops outwards from `at`, if the chain is that
    /// long.
    pub fn ancestor(environments: &Vec<Environment>, at: usize, distance: usize) -> (r: Option<
        usize,
    >)
        ensures
            ancestor_of(environments@, at as int, distance as nat) == as_int(r),
            r matches Some(scope) ==> scope < environments@.len(),
        decreases distance,
    {
        if at < environments.len() {
            if distance == 0 {
                Some(at)
            } else {
                match Environment::up(environments, at) {
                    Some(up) => Environment::ancestor(environments, up, distance - 1),
                    None => None,
                }
            }
        } else {
            None
        }
    }

    /// Reads `name` from the scope `distance` hops out and the scopes around
    /// it.
    pub fn get_at(environments: &Vec<Environment>, at: usize, distance: usize, name: &Token) -> (r:
        Result<Object, RuntimeException>)
        requires
            tables_wf(environments@),
        ensures
            match ancestor_of(environments@, at as int, distance as nat) {
                Some(scope) => read(environments@, scope, *name, r),
                None => fails_with(r, name@, "The variable isn't declared."@),
            },
    {
        match Environment::ancestor(environments, at, distance) {
            Some(scope) => Environment::get(environments, scope, name),
            None => runtime_error(name, "The variable isn't declared."),
        }
    }

    /// Assigns to `name` from the scope `distance` hops out.
    pub fn assign_at(
        environments: &mut Vec<Environment>,
        at: usize,
        distance: usize,
        name: &Token,
        value: Object,
    ) -> (r: Result<(), RuntimeException>)
        requires
            tables_wf(old(environments)@),
        ensures
            tables_wf(final(environments)@),
            match ancestor_of(old(environments)@, at as int, distance as nat) {
                Some(scope) => written(
                    old(environments)@,
                    final(environments)@,
                    scope,
                    *name,
                    value,
                    r,
                ),
                None => fails_with(r, name@, "Unclarified variable."@) && final(environments)@
                    == old(environments)@,
            },
    {
        match Environment::ancestor(environments, at, distance) {
            Some(scope) => Environment::assign(environments, scope, name, value),
            None => runtime_error(name, "Unclarified variable."),
        }
    }
}

} // verus!
