//! Runtime values.

use vstd::prelude::*;
use crate::builtin_funcs::LoxCallable;

verus! {

/// A runtime value. A number is an IEEE-754 double, held by its bit
/// pattern; arithmetic on it is the host's. Instances and classes are held
/// by their number in the interpreter's store, so that every holder sees the
/// same record.
#[derive(Debug)]
pub enum Object {
    Boolean(bool),
    Number(u64),
    String(String),
    Function(LoxCallable),
    Instance(usize),
    Class(usize),
    Nil,
    /// Declared and not yet initialized; never the value of an expression.
    Undefined,
}

/// How two values compare under `==`.
pub enum Likeness {
    Equal,
    Unequal,
    /// Both are numbers: they are equal where the host finds them so.
    Numbers(u64, u64),
}

impl Object {
    /// Another handle on the same value.
    pub fn share(&self) -> (r: Self)
        ensures
            r == *self,
    {
        match self {
            Object::Boolean(b) => Object::Boolean(*b),
            Object::Number(n) => Object::Number(*n),
            Object::String(s) => Object::String(s.clone()),
            Object::Function(f) => Object::Function(f.share()),
            Object::Instance(i) => Object::Instance(*i),
            Object::Class(c) => Object::Class(*c),
            Object::Nil => Object::Nil,
            Object::Undefined => Object::Undefined,
        }
    }

    pub fn maybe_to_string(&self) -> (r: Option<String>)
        ensures
            r == (match *self {
                Object::String(s) => Some(s),
                _ => None,
            }),
    {
        match self {
            Object::String(value) => Some(value.clone()),
            _ => None,
        }
    }

    /// The bit pattern of a number.
    pub fn maybe_to_number(&self) -> (r: Option<u64>)
        ensures
            r == (match *self {
                Object::Number(n) => Some(n),
                _ => None,
            }),
    {
        match self {
            Object::Number(value) => Some(*value),
            _ => None,
        }
    }

    pub fn maybe_to_boolean(&self) -> (r: Option<bool>)
        ensures
            r == (match *self {
                Object::Boolean(b) => Some(b),
                _ => None,
            }),
    {
        match self {
            Object::Boolean(value) => Some(*value),
            _ => None,
        }
    }

    pub fn maybe_to_function(&self) -> (r: Option<LoxCallable>)
        ensures
            r == (match *self {
                Object::Function(f) => Some(f),
                _ => None,
            }),
    {
        match self {
            Object::Function(value) => Some(value.share()),
            _ => None,
        }
    }

    /// The number under which the store holds an instance.
    pub fn maybe_to_instance(&self) -> (r: Option<usize>)
        ensures
            r == (match *self {
                Object::Instance(i) => Some(i),
                _ => None,
            }),
    {
        match self {
            Object::Instance(value) => Some(*value),
            _ => None,
        }
    }

    /// The number under which the store holds a class.
    pub fn maybe_to_class(&self) -> (r: Option<usize>)
        ensures
            r == (match *self {
                Object::Class(c) => Some(c),
                _ => None,
            }),
    {
        match self {
            Object::Class(value) => Some(*value),
            _ => None,
        }
    }

    /// `false`, `nil` and the uninitialized value are falsy; every other
    /// value is truthy.
    pub open spec fn truthy(self) -> bool {
        match self {
            Object::Boolean(value) => value,
            Object::Nil => false,
            Object::Undefined => false,
            _ => true,
        }
    }

    pub fn is_truthy(&self) -> (b: bool)
        ensures
            b == self.truthy(),
    {
        match self {
            Object::Boolean(value) => *value,
            Object::Nil => false,
            Object::Undefined => false,
            _ => true,
        }
    }

    /// Equality of values: only values of one kind can be equal; functions,
    /// classes and instances never are.
    pub open spec fn likeness(self, other: Object) -> Likeness {
        match (self, other) {
            (Object::Boolean(a), Object::Boolean(b)) => if a == b {
                Likeness::Equal
            } else {
                Likeness::Unequal
            },
            (Object::Number(a), Object::Number(b)) => Likeness::Numbers(a, b),
            (Object::String(a), Object::String(b)) => if a@ == b@ {
                Likeness::Equal
            } else {
                Likeness::Unequal
            },
            (Object::Nil, Object::Nil) => Likeness::Equal,
            (Object::Undefined, Object::Undefined) => Likeness::Equal,
            _ => Likeness::Unequal,
        }
    }

    pub fn compare(&self, other: &Object) -> (r: Likeness)
        ensures
            r == self.likeness(*other),
    {
        match (self, other) {
            (Object::Boolean(a), Object::Boolean(b)) => if *a == *b {
                Likeness::Equal
            } else {
                Likeness::Unequal
            },
            (Object::Number(a), Object::Number(b)) => Likeness::Numbers(*a, *b),
            (Object::String(a), Object::String(b)) => if *a == *b {
                Likeness::Equal
            } else {
                Likeness::Unequal
            },
            (Object::Nil, Object::Nil) => Likeness::Equal,
            (Object::Undefined, Object::Undefined) => Likeness::Equal,
            _ => Likeness::Unequal,
        }
    }
}

impl From<bool> for Object {
    fn from(value: bool) -> (r: Self)
        ensures
            r == Object::Boolean(value),
    {
        Object::Boolean(value)
    }
}

impl vstd::std_specs::convert::FromSpecImpl<bool> for Object {
    open spec fn obeys_from_spec() -> bool {
        true
    }

    open spec fn from_spec(value: bool) -> Self {
        Object::Boolean(value)
    }
}

} // verus!
