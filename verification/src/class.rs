//! Classes and instances.
//!
//! Both live in stores and are held by number. A class refers to its
//! superclass by its number, which is always lower than its own.

use vstd::prelude::*;
use crate::function::{FunctionType, LoxFunction};
use crate::object::Object;
use crate::table::Table;

verus! {

/// A class: its name, its superclass, and its methods of every kind, by
/// name.
#[derive(Debug)]
pub struct LoxClass {
    pub name: String,
    pub superclass: Option<usize>,
    pub methods: Table<LoxFunction>,
}

/// An instance: its class and its fields.
#[derive(Debug)]
pub struct LoxInstance {
    pub class: usize,
    pub fields: Table<Object>,
}

/// Every class's method table is well formed.
pub open spec fn classes_wf(classes: Seq<LoxClass>) -> bool {
    forall|i: int| 0 <= i < classes.len() ==> (#[trigger] classes[i]).methods.wf()
}

/// Every instance's field table is well formed.
pub open spec fn instances_wf(instances: Seq<LoxInstance>) -> bool {
    forall|i: int| 0 <= i < instances.len() ==> (#[trigger] instances[i]).fields.wf()
}

/// The method `name` of class `class`, its own or the nearest inherited
/// one.
pub open spec fn method_of(classes: Seq<LoxClass>, class: int, name: Seq<char>) -> Option<
    LoxFunction,
>
    decreases class,
{
    if 0 <= class < classes.len() {
        if classes[class].methods@.contains_key(name) {
            Some(classes[class].methods@[name])
        } else {
            match classes[class].superclass {
                Some(up) => if up < class {
                    method_of(classes, up as int, name)
                } else {
                    None
                },
                None => None,
            }
        }
    } else {
        None
    }
}

/// What a property of an instance is.
#[derive(Debug)]
pub enum Property {
    /// A getter, which is invoked on the read.
    Getter(LoxFunction),
    /// A field, with its value.
    Field(Object),
    /// A method, which is bound to the instance on the read.
    Method(LoxFunction),
    Missing,
}

/// The property `name` of an instance: a getter first, then a field, then a
/// method.
pub open spec fn property(classes: Seq<LoxClass>, instance: LoxInstance, name: Seq<char>) -> Property {
    let method = method_of(classes, instance.class as int, name);
    if method is Some && method->Some_0.kind == FunctionType::GetterMethod {
        Property::Getter(method->Some_0)
    } else if instance.fields@.contains_key(name) {
        Property::Field(instance.fields@[name])
    } else {
        match method {
            Some(method) => Property::Method(method),
            None => Property::Missing,
        }
    }
}

impl LoxClass {
    pub fn new(name: String, superclass: Option<usize>, methods: Table<LoxFunction>) -> (c: Self)
        ensures
            c == (LoxClass { name, superclass, methods }),
    {
        LoxClass { name, superclass, methods }
    }

    /// The method `name` of class `class` of a store, its own or the nearest
    /// inherited one.
    pub fn find_method(classes: &Vec<LoxClass>, class: usize, name: &String) -> (r: Option<
        LoxFunction,
    >)
        requires
            classes_wf(classes@),
        ensures
            r == method_of(classes@, class as int, name@),
        decreases class,
    {
        if class < classes.len() {
            match classes[class].methods.get(name) {
                Some(method) => Some(method.share()),
                None => match classes[class].superclass {
                    Some(up) => if up < class {
                        LoxClass::find_method(classes, up, name)
                    } else {
                        None
                    },
                    None => None,
                },
            }
        } else {
            None
        }
    }
}

impl LoxInstance {
    pub fn new(class: usize) -> (i: Self)
        ensures
            i.class == class,
            i.fields.wf(),
            i.fields@ == Map::<Seq<char>, Object>::empty(),
    {
        LoxInstance { class, fields: Table::new() }
    }

    /// The getter `name` of the instance's class, if it has one.
    pub fn get_getter(&self, classes: &Vec<LoxClass>, name: &String) -> (r: Option<LoxFunction>)
        requires
            classes_wf(classes@),
        ensures
            r == (match property(classes@, *self, name@) {
                Property::Getter(getter) => Some(getter),
                _ => None,
            }),
    {
        match LoxClass::find_method(classes, self.class, name) {
            Some(method) => if method.kind == FunctionType::GetterMethod {
                Some(method)
            } else {
                None
            },
            None => None,
        }
    }

    /// The property `name`: a getter first, then a field, then a method.
    pub fn get(&self, classes: &Vec<LoxClass>, name: &String) -> (r: Property)
        requires
            classes_wf(classes@),
            self.fields.wf(),
        ensures
            r == property(classes@, *self, name@),
    {
        let method = LoxClass::find_method(classes, self.class, name);
        match method {
            Some(method) => {
                if method.kind == FunctionType::GetterMethod {
                    Property::Getter(method)
                } else {
                    match self.fields.get(name) {
                        Some(value) => Property::Field(value.share()),
                        None => Property::Method(method),
                    }
                }
            },
            None => match self.fields.get(name) {
                Some(value) => Property::Field(value.share()),
                None => Property::Missing,
            },
        }
    }

    /// Sets the field `name`, in place of what it held.
    pub fn set(&mut self, name: String, value: Object)
        requires
            old(self).fields.wf(),
        ensures
            final(self).fields.wf(),
            final(self).class == old(self).class,
            final(self).fields@ == old(self).fields@.insert(name@, value),
    {
        self.fields.insert(name, value);
    }
}

} // verus!
