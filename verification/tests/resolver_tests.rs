use crafting_interpreters::expr::Expr;
use crafting_interpreters::parser::Parser;
use crafting_interpreters::resolver::{Locals, Resolver};
use crafting_interpreters::scanner::scan;
use crafting_interpreters::stmt::Stmt;

fn resolve(source: &str) -> (Vec<Stmt>, Locals) {
    let statements = Parser::new(scan(source).unwrap()).parse().unwrap();
    let mut locals = Locals::new();
    let mut resolver = Resolver::new();
    resolver.resolve_stmts(&statements, &mut locals).unwrap();
    (statements, locals)
}

fn block(statement: &Stmt) -> Vec<&Stmt> {
    match statement {
        Stmt::Block(b) => b.statements.items(),
        other => panic!("{:?}", other),
    }
}

fn expression(statement: &Stmt) -> &Expr {
    match statement {
        Stmt::Expression(e) => &e.expr,
        other => panic!("{:?}", other),
    }
}

fn id(e: &Expr) -> u64 {
    match e {
        Expr::Variable(v) => v.id,
        Expr::Assign(a) => a.id,
        Expr::This(t) => t.id,
        Expr::Super(s) => s.id,
        other => panic!("{:?}", other),
    }
}

#[test]
fn distance_counts_the_scopes_in_between() {
    let (statements, locals) = resolve("var g; { var a; { a; g; { a = 1; } } }");
    let outer = block(&statements[1]);
    let middle = block(outer[1]);
    assert_eq!(locals.get(id(expression(middle[0]))), Some(1));
    assert_eq!(locals.get(id(expression(middle[1]))), Some(2));
    let inner = block(middle[2]);
    assert_eq!(locals.get(id(expression(inner[0]))), Some(2));
}

#[test]
fn names_of_the_global_scope_have_distances_too() {
    let (statements, locals) = resolve("var x; x; y;");
    assert_eq!(locals.get(id(expression(&statements[1]))), Some(0));
    assert_eq!(locals.get(id(expression(&statements[2]))), None);
}

#[test]
fn parameters_and_body_share_one_scope() {
    let (statements, locals) = resolve("fun f(a){ a; var b; b; { a; } }");
    let body = match &statements[0] {
        Stmt::Function(f) => f.body.statements.items(),
        other => panic!("{:?}", other),
    };
    assert_eq!(locals.get(id(expression(body[0]))), Some(0));
    assert_eq!(locals.get(id(expression(body[2]))), Some(0));
    assert_eq!(locals.get(id(expression(block(body[3])[0]))), Some(1));
}

#[test]
fn this_stands_one_scope_out_and_super_two() {
    let (statements, locals) = resolve("class A{} class B<A{ m(){ this; super.m; } class s(){ A; } }");
    match &statements[1] {
        Stmt::Class(class) => {
            let method = class.methods.items()[0];
            let body = method.body.statements.items();
            assert_eq!(locals.get(id(expression(body[0]))), Some(1));
            assert_eq!(locals.get(id(expression(body[1]))), Some(2));
            let fixed = class.static_methods.items()[0];
            let body = fixed.body.statements.items();
            assert_eq!(locals.get(id(expression(body[0]))), Some(3));
            let above = class.superclass.as_ref().unwrap();
            assert_eq!(locals.get(above.id), Some(0));
        }
        other => panic!("{:?}", other),
    }
}

#[test]
fn resolver_keeps_what_it_declared_across_units() {
    let mut locals = Locals::new();
    let mut resolver = Resolver::new();
    let first = Parser::new(scan("var a;").unwrap()).parse().unwrap();
    resolver.resolve_stmts(&first, &mut locals).unwrap();
    let second = Parser::starting_at(scan("{ a; }").unwrap(), 10).parse().unwrap();
    resolver.resolve_stmts(&second, &mut locals).unwrap();
    assert_eq!(locals.get(id(expression(block(&second[0])[0]))), Some(1));
    let third = Parser::starting_at(scan("var a;").unwrap(), 20).parse().unwrap();
    let error = resolver.resolve_stmts(&third, &mut locals).unwrap_err();
    assert_eq!(
        error.to_text(),
        "[line 1:5] Runtime error at 'a': Already a variable with this name in this scope."
    );
}
