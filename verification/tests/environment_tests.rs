use crafting_interpreters::class::{LoxClass, LoxInstance, Property};
use crafting_interpreters::environment::Environment;
use crafting_interpreters::error::{ParsingError, RuntimeError, RuntimeException};
use crafting_interpreters::function::{FunctionType, LoxFunction};
use crafting_interpreters::object::{Likeness, Object};
use crafting_interpreters::parser::Parser;
use crafting_interpreters::resolver::Locals;
use crafting_interpreters::scanner::scan;
use crafting_interpreters::stmt::Stmt;
use crafting_interpreters::table::Table;
use crafting_interpreters::token::{Token, TokenIdentity, TokenValue};

fn name(text: &str) -> Token {
    Token::new(TokenIdentity::Identifier, TokenValue::String(text.to_string()), 3, 4)
}

fn message(r: Result<Object, RuntimeException>) -> String {
    match r {
        Err(RuntimeException::Error(e)) => e.to_text(),
        other => panic!("{:?}", other),
    }
}

fn chain() -> Vec<Environment> {
    let mut global = Environment::new(None);
    global.define("a", Object::Number(1));
    global.define("b", Object::Number(2));
    let mut middle = Environment::new(Some(0));
    middle.define("b", Object::Number(20));
    middle.define("u", Object::Undefined);
    let inner = Environment::new(Some(1));
    vec![global, middle, inner]
}

#[test]
fn get_finds_the_nearest_binding() {
    let environments = chain();
    assert!(matches!(Environment::get(&environments, 2, &name("b")), Ok(Object::Number(20))));
    assert!(matches!(Environment::get(&environments, 2, &name("a")), Ok(Object::Number(1))));
    assert!(matches!(Environment::get(&environments, 0, &name("b")), Ok(Object::Number(2))));
    assert_eq!(
        message(Environment::get(&environments, 2, &name("c"))),
        "[line 3:4] Runtime error at 'c': Undefined variable."
    );
    assert_eq!(
        message(Environment::get(&environments, 2, &name("u"))),
        "[line 3:4] Runtime error at 'u': The variable isn't initialized."
    );
}

#[test]
fn assign_changes_the_nearest_binding_only() {
    let mut environments = chain();
    assert!(Environment::assign(&mut environments, 2, &name("b"), Object::Number(7)).is_ok());
    assert!(matches!(Environment::get(&environments, 2, &name("b")), Ok(Object::Number(7))));
    assert!(matches!(Environment::get(&environments, 0, &name("b")), Ok(Object::Number(2))));
    let r = Environment::assign(&mut environments, 2, &name("zz"), Object::Nil);
    assert!(matches!(r, Err(RuntimeException::Error(e))
        if e.to_text() == "[line 3:4] Runtime error at 'zz': Unclarified variable."));
}

#[test]
fn define_replaces_a_binding_of_the_same_scope() {
    let mut environments = chain();
    Environment::define_at(&mut environments, 0, "a", Object::Number(5));
    assert!(matches!(Environment::get(&environments, 0, &name("a")), Ok(Object::Number(5))));
    Environment::define_at(&mut environments, 9, "a", Object::Number(6));
    assert!(matches!(Environment::get(&environments, 0, &name("a")), Ok(Object::Number(5))));
}

#[test]
fn ancestor_walks_as_many_hops_as_there_are() {
    let environments = chain();
    assert_eq!(Environment::ancestor(&environments, 2, 0), Some(2));
    assert_eq!(Environment::ancestor(&environments, 2, 1), Some(1));
    assert_eq!(Environment::ancestor(&environments, 2, 2), Some(0));
    assert_eq!(Environment::ancestor(&environments, 2, 3), None);
    assert_eq!(Environment::ancestor(&environments, 7, 0), None);
}

#[test]
fn get_at_and_assign_at_start_further_out() {
    let mut environments = chain();
    assert!(matches!(Environment::get_at(&environments, 2, 2, &name("b")), Ok(Object::Number(2))));
    assert!(matches!(Environment::get_at(&environments, 2, 1, &name("b")), Ok(Object::Number(20))));
    assert_eq!(
        message(Environment::get_at(&environments, 2, 3, &name("b"))),
        "[line 3:4] Runtime error at 'b': The variable isn't declared."
    );
    assert!(Environment::assign_at(&mut environments, 2, 2, &name("b"), Object::Number(9)).is_ok());
    assert!(matches!(Environment::get(&environments, 0, &name("b")), Ok(Object::Number(9))));
    assert!(matches!(Environment::get(&environments, 1, &name("b")), Ok(Object::Number(20))));
    let r = Environment::assign_at(&mut environments, 2, 5, &name("b"), Object::Nil);
    assert!(matches!(r, Err(RuntimeException::Error(e))
        if e.to_text() == "[line 3:4] Runtime error at 'b': Unclarified variable."));
}

#[test]
fn table_keeps_one_value_per_name() {
    let mut table: Table<u64> = Table::new();
    assert!(table.get(&"a".to_string()).is_none());
    table.insert("a".to_string(), 1);
    table.insert("b".to_string(), 2);
    table.insert("a".to_string(), 3);
    assert_eq!(table.get(&"a".to_string()), Some(&3));
    assert_eq!(table.get(&"b".to_string()), Some(&2));
    assert!(table.contains_key(&"b".to_string()));
    assert!(!table.contains_key(&"c".to_string()));
}

#[test]
fn locals_keep_the_latest_distance() {
    let mut locals = Locals::new();
    assert_eq!(locals.get(4), None);
    locals.resolve(4, 2);
    locals.resolve(5, 0);
    locals.resolve(4, 1);
    assert_eq!(locals.get(4), Some(1));
    assert_eq!(locals.get(5), Some(0));
}

fn method(source: &str) -> Vec<std::rc::Rc<crafting_interpreters::stmt::FunctionStmt>> {
    let statements = Parser::new(scan(source).unwrap()).parse().unwrap();
    statements
        .iter()
        .map(|s| match s {
            Stmt::Function(f) => f.clone(),
            other => panic!("{:?}", other),
        })
        .collect()
}

#[test]
fn find_method_prefers_the_class_to_its_superclass() {
    let functions = method("fun a(){} fun b(){} fun c(){}");
    let mut base: Table<LoxFunction> = Table::new();
    base.insert("m".to_string(), LoxFunction::new(functions[0].clone(), 0, FunctionType::Method));
    base.insert("only".to_string(), LoxFunction::new(functions[1].clone(), 0, FunctionType::Method));
    let mut derived: Table<LoxFunction> = Table::new();
    derived.insert("m".to_string(), LoxFunction::new(functions[2].clone(), 7, FunctionType::GetterMethod));
    let classes = vec![
        LoxClass::new("Base".to_string(), None, base),
        LoxClass::new("Derived".to_string(), Some(0), derived),
    ];
    let m = LoxClass::find_method(&classes, 1, &"m".to_string()).unwrap();
    assert_eq!((m.closure, m.kind), (7, FunctionType::GetterMethod));
    let only = LoxClass::find_method(&classes, 1, &"only".to_string()).unwrap();
    assert_eq!(only.closure, 0);
    assert!(LoxClass::find_method(&classes, 1, &"none".to_string()).is_none());
    assert!(LoxClass::find_method(&classes, 5, &"m".to_string()).is_none());

    let mut instance = LoxInstance::new(1);
    instance.set("only".to_string(), Object::Number(3));
    instance.set("field".to_string(), Object::Nil);
    assert!(matches!(instance.get(&classes, &"m".to_string()), Property::Getter(_)));
    assert!(instance.get_getter(&classes, &"m".to_string()).is_some());
    assert!(instance.get_getter(&classes, &"only".to_string()).is_none());
    assert!(matches!(instance.get(&classes, &"only".to_string()), Property::Field(Object::Number(3))));
    assert!(matches!(instance.get(&classes, &"field".to_string()), Property::Field(Object::Nil)));
    assert!(matches!(instance.get(&classes, &"none".to_string()), Property::Missing));
    let plain = LoxInstance::new(0);
    assert!(matches!(plain.get(&classes, &"only".to_string()), Property::Method(_)));
}

#[test]
fn bind_makes_a_scope_with_this() {
    let functions = method("fun a(){}");
    let f = LoxFunction::new(functions[0].clone(), 0, FunctionType::Method);
    let mut environments = vec![Environment::new(None)];
    let bound = f.bind(&mut environments, 4);
    assert_eq!((bound.closure, bound.kind), (1, FunctionType::Method));
    assert_eq!(environments.len(), 2);
    assert_eq!(environments[1].enclosing, Some(0));
    let this = Token::new(TokenIdentity::This, TokenValue::String("this".to_string()), 0, 0);
    assert!(matches!(Environment::get(&environments, 1, &this), Ok(Object::Instance(4))));
}

#[test]
fn objects_convert_and_compare() {
    assert_eq!(Object::String("s".to_string()).maybe_to_string(), Some("s".to_string()));
    assert_eq!(Object::Nil.maybe_to_string(), None);
    assert_eq!(Object::Number(9).maybe_to_number(), Some(9));
    assert_eq!(Object::Boolean(true).maybe_to_number(), None);
    assert_eq!(Object::Boolean(true).maybe_to_boolean(), Some(true));
    assert_eq!(Object::Instance(2).maybe_to_instance(), Some(2));
    assert_eq!(Object::Class(3).maybe_to_class(), Some(3));
    assert_eq!(Object::Class(3).maybe_to_instance(), None);
    assert!(Object::Nil.maybe_to_function().is_none());
    assert!(matches!(Object::from(true), Object::Boolean(true)));
    assert!(Object::Number(0).is_truthy());
    assert!(Object::String(String::new()).is_truthy());
    assert!(!Object::Nil.is_truthy());
    assert!(!Object::Undefined.is_truthy());
    assert!(!Object::Boolean(false).is_truthy());
    assert!(matches!(Object::Nil.compare(&Object::Nil), Likeness::Equal));
    assert!(matches!(Object::Nil.compare(&Object::Boolean(false)), Likeness::Unequal));
    assert!(matches!(Object::Number(1).compare(&Object::Number(2)), Likeness::Numbers(1, 2)));
    assert!(matches!(Object::Instance(1).compare(&Object::Instance(1)), Likeness::Unequal));
    assert!(matches!(
        Object::String("a".to_string()).compare(&Object::String("a".to_string())),
        Likeness::Equal
    ));
}

#[test]
fn diagnostics_have_two_shapes() {
    let eof = Token::new(TokenIdentity::Eof, TokenValue::Nil, 12, 1);
    assert_eq!(ParsingError::new(eof.clone(), "Oops.").to_text(), "[line 12:1] Parsing error at end: Oops.");
    assert_eq!(RuntimeError::new(eof, "Oops.").to_text(), "[line 12:1] Runtime error at end: Oops.");
    let plus = Token::new(TokenIdentity::Plus, TokenValue::Nil, 1, 205);
    assert_eq!(ParsingError::new(plus, "Bad.").to_text(), "[line 1:205] Parsing error at '+': Bad.");
    assert_eq!(RuntimeError::new(name("x"), "Bad.").to_text(), "[line 3:4] Runtime error at 'x': Bad.");
}

#[test]
fn positions_are_written_in_decimal() {
    let far = Token::new(TokenIdentity::Plus, TokenValue::Nil, 1234567890, 0);
    assert_eq!(RuntimeError::new(far, "m").to_text(), "[line 1234567890:0] Runtime error at '+': m");
    let near = Token::new(TokenIdentity::Plus, TokenValue::Nil, 10, 7);
    assert_eq!(ParsingError::new(near, "m").to_text(), "[line 10:7] Parsing error at '+': m");
}

#[test]
fn function_kinds_have_names() {
    assert_eq!(FunctionType::default(), FunctionType::NoFunction);
    assert_eq!(FunctionType::Function.to_text(), "function");
    assert_eq!(FunctionType::Initializer.to_text(), "initializer");
    assert_eq!(FunctionType::Method.to_text(), "method");
    assert_eq!(FunctionType::StaticMethod.to_text(), "static method");
    assert_eq!(FunctionType::GetterMethod.to_text(), "getter method");
    assert_eq!(FunctionType::NoFunction.to_text(), "none");
}
