use crafting_interpreters::expr::Expr;
use crafting_interpreters::function::FunctionType;
use crafting_interpreters::parser::Parser;
use crafting_interpreters::scanner::scan;
use crafting_interpreters::stmt::Stmt;
use crafting_interpreters::token::{TokenIdentity, TokenValue};

fn parse(source: &str) -> Vec<Stmt> {
    Parser::new(scan(source).unwrap()).parse().unwrap()
}

fn parse_error(source: &str) -> String {
    Parser::new(scan(source).unwrap()).parse().unwrap_err().to_text()
}

fn expression(statement: &Stmt) -> &Expr {
    match statement {
        Stmt::Expression(e) => &e.expr,
        other => panic!("not an expression statement: {:?}", other),
    }
}

fn number(e: &Expr) -> String {
    match e {
        Expr::Literal(l) => match &l.value {
            TokenValue::Number(text) => text.clone(),
            other => panic!("not a number: {:?}", other),
        },
        other => panic!("not a literal: {:?}", other),
    }
}

#[test]
fn factor_binds_tighter_than_term() {
    let statements = parse("1+2*3;");
    match expression(&statements[0]) {
        Expr::Binary(sum) => {
            assert_eq!(sum.operator.id, TokenIdentity::Plus);
            assert_eq!(number(&sum.left), "1");
            match &sum.right {
                Expr::Binary(product) => {
                    assert_eq!(product.operator.id, TokenIdentity::Star);
                    assert_eq!(number(&product.left), "2");
                    assert_eq!(number(&product.right), "3");
                }
                other => panic!("{:?}", other),
            }
        }
        other => panic!("{:?}", other),
    }
}

#[test]
fn binary_operators_group_to_the_left() {
    let statements = parse("1-2-3;");
    match expression(&statements[0]) {
        Expr::Binary(outer) => {
            assert_eq!(number(&outer.right), "3");
            match &outer.left {
                Expr::Binary(inner) => {
                    assert_eq!(number(&inner.left), "1");
                    assert_eq!(number(&inner.right), "2");
                }
                other => panic!("{:?}", other),
            }
        }
        other => panic!("{:?}", other),
    }
}

#[test]
fn assignment_groups_to_the_right() {
    let statements = parse("a = b = 1;");
    match expression(&statements[0]) {
        Expr::Assign(outer) => {
            assert!(matches!(&outer.name.value, TokenValue::String(s) if s == "a"));
            assert!(matches!(&outer.value, Expr::Assign(inner)
                if matches!(&inner.name.value, TokenValue::String(s) if s == "b")));
        }
        other => panic!("{:?}", other),
    }
}

#[test]
fn property_assignment_becomes_a_property_write() {
    let statements = parse("a.b.c = 1;");
    match expression(&statements[0]) {
        Expr::SetProperty(set) => {
            assert!(matches!(&set.name.value, TokenValue::String(s) if s == "c"));
            assert!(matches!(&set.object, Expr::Get(_)));
        }
        other => panic!("{:?}", other),
    }
}

#[test]
fn logical_operators_make_logical_nodes() {
    let statements = parse("a or b and c;");
    match expression(&statements[0]) {
        Expr::Logical(or) => {
            assert_eq!(or.operator.id, TokenIdentity::Or);
            assert!(matches!(&or.right, Expr::Logical(and) if and.operator.id == TokenIdentity::And));
        }
        other => panic!("{:?}", other),
    }
}

#[test]
fn nodes_that_name_variables_are_numbered_by_their_token() {
    let statements = parse("a; this; b = a;");
    assert!(matches!(expression(&statements[0]), Expr::Variable(v) if v.id == 0));
    assert!(matches!(expression(&statements[1]), Expr::This(t) if t.id == 2));
    match expression(&statements[2]) {
        Expr::Assign(assign) => {
            assert_eq!(assign.id, 4);
            assert!(matches!(&assign.value, Expr::Variable(v) if v.id == 6));
        }
        other => panic!("{:?}", other),
    }
    let tokens = scan("a;").unwrap();
    let mut later = Parser::starting_at(tokens, 100);
    assert_eq!(later.next_id(), 103);
    let statements = later.parse().unwrap();
    assert!(matches!(expression(&statements[0]), Expr::Variable(v) if v.id == 100));
}

#[test]
fn comments_are_dropped() {
    let statements = parse("// first\nprint(1); // second\n// third");
    assert_eq!(statements.len(), 1);
    assert!(matches!(&statements[0], Stmt::Print(_)));
}

#[test]
fn for_becomes_a_block_with_a_while() {
    let statements = parse("for(var i=0;i<3;i=i+1){ print(i); }");
    match &statements[0] {
        Stmt::Block(block) => {
            let parts = block.statements.items();
            assert_eq!(parts.len(), 2);
            assert!(matches!(&parts[0], Stmt::Var(_)));
            match &parts[1] {
                Stmt::While(looping) => {
                    assert!(matches!(&looping.condition, Expr::Binary(_)));
                    let body = looping.body.statements.items();
                    assert_eq!(body.len(), 2);
                    assert!(matches!(&body[0], Stmt::Print(_)));
                    assert!(matches!(&body[1], Stmt::Expression(e) if matches!(&e.expr, Expr::Assign(_))));
                }
                other => panic!("{:?}", other),
            }
        }
        other => panic!("{:?}", other),
    }
}

#[test]
fn for_without_clauses_loops_on_true() {
    let statements = parse("for(;;){ break; }");
    match &statements[0] {
        Stmt::While(looping) => {
            assert!(matches!(&looping.condition, Expr::Literal(l)
                if matches!(l.value, TokenValue::Bool(true))));
            assert_eq!(looping.body.statements.items().len(), 1);
        }
        other => panic!("{:?}", other),
    }
}

#[test]
fn class_members_are_sorted_by_kind() {
    let statements = parse("class A < B { init(a){} plain(){} area{} class make(){} }");
    match &statements[0] {
        Stmt::Class(class) => {
            assert!(matches!(&class.superclass, Some(v)
                if matches!(&v.name.value, TokenValue::String(s) if s == "B")));
            let methods = class.methods.items();
            let statics = class.static_methods.items();
            let getters = class.getter_methods.items();
            assert_eq!(methods.len(), 2);
            assert_eq!(methods[0].kind, FunctionType::Initializer);
            assert_eq!(methods[1].kind, FunctionType::Method);
            assert_eq!(statics.len(), 1);
            assert_eq!(statics[0].kind, FunctionType::StaticMethod);
            assert_eq!(getters.len(), 1);
            assert_eq!(getters[0].kind, FunctionType::GetterMethod);
        }
        other => panic!("{:?}", other),
    }
}

#[test]
fn function_named_init_is_an_initializer() {
    let statements = parse("fun init(){} fun other(a, b){}");
    assert!(matches!(&statements[0], Stmt::Function(f) if f.kind == FunctionType::Initializer));
    match &statements[1] {
        Stmt::Function(f) => {
            assert_eq!(f.kind, FunctionType::Function);
            assert_eq!(f.params.items().len(), 2);
        }
        other => panic!("{:?}", other),
    }
}

#[test]
fn at_most_255_arguments_and_parameters() {
    let many = vec!["a"; 255].join(",");
    assert_eq!(parse(&format!("f({});", many)).len(), 1);
    let too_many = vec!["a"; 256].join(",");
    assert_eq!(
        parse_error(&format!("f({});", too_many)),
        "[line 1:513] Parsing error at 'a': Can't have more than 255 arguments."
    );
    let names: Vec<String> = (0..256).map(|_| "p".to_string()).collect();
    assert_eq!(
        parse_error(&format!("fun f({}){{}}", names.join(","))),
        "[line 1:517] Parsing error at 'p': Can't have more than 255 parameters."
    );
}

#[test]
fn statements_need_their_punctuation() {
    assert_eq!(parse_error("print 1;"), "[line 1:7] Parsing error at '1': Expect '(' after 'print'.");
    assert_eq!(parse_error("print(1)"), "[line 1:9] Parsing error at end: Expect ';' after print statement.");
    assert_eq!(parse_error("if(1) print(1);"), "[line 1:7] Parsing error at 'print': Expect '{' before if body.");
    assert_eq!(parse_error("if(1){} else 1;"), "[line 1:14] Parsing error at '1': Expect '{' before else body.");
    assert_eq!(parse_error("while(1) 1;"), "[line 1:10] Parsing error at '1': Expect '{' before while body.");
    assert_eq!(parse_error("for(;;) 1;"), "[line 1:9] Parsing error at '1': Expect '{' before for body.");
    assert_eq!(parse_error("{ 1;"), "[line 1:5] Parsing error at end: Expect '}' after block.");
    assert_eq!(parse_error("1"), "[line 1:2] Parsing error at end: Expect ';' after expression.");
    assert_eq!(parse_error("var a = 1"), "[line 1:10] Parsing error at end: Expect ';' after variable declaration.");
    assert_eq!(parse_error("fun f(a {}"), "[line 1:9] Parsing error at '{': Expect ')' after parameters.");
    assert_eq!(parse_error("fun f() 1"), "[line 1:9] Parsing error at '1': Expect '{' before function body.");
    assert_eq!(parse_error("class {}"), "[line 1:7] Parsing error at '{': Expect class name.");
    assert_eq!(parse_error("class A < {}"), "[line 1:11] Parsing error at '{': Expect superclass name.");
    assert_eq!(parse_error("class A ;"), "[line 1:9] Parsing error at ';': Expect '{' before class body.");
    assert_eq!(parse_error("class A { m() {} "), "[line 1:18] Parsing error at end: Expect '}' after class body.");
    assert_eq!(parse_error("super;"), "[line 1:6] Parsing error at ';': Expect '.' after 'super'.");
    assert_eq!(parse_error("super.;"), "[line 1:7] Parsing error at ';': Expect superclass method name.");
    assert_eq!(parse_error("a.1;"), "[line 1:3] Parsing error at '1': Expect property name after '.'.");
    assert_eq!(parse_error("a ? b;"), "[line 1:6] Parsing error at ';': Expect ':' after then branch.");
    assert_eq!(parse_error("(1;"), "[line 1:3] Parsing error at ';': Expect ')' after expression.");
    assert_eq!(parse_error("return 1"), "[line 1:9] Parsing error at end: Expect ';' after return value.");
    assert_eq!(parse_error("var x = fun a(){};"), "[line 1:13] Parsing error at 'a': Expect '(' after 'fun' for lambda.");
    assert_eq!(parse_error("x = fun(){};"), "[line 1:8] Parsing error at '(': Unexpected expression");
    assert_eq!(parse_error("while(1){ break }"), "[line 1:17] Parsing error at '}': Expect ';' after break.");
    assert_eq!(parse_error("while(1){ continue }"), "[line 1:20] Parsing error at '}': Expect ';' after continue.");
    assert_eq!(parse_error("for(var a=1; a<2 a=a+1){}"), "[line 1:18] Parsing error at 'a': Expect ';' after for condition.");
    assert_eq!(parse_error("for(;; 1 {}"), "[line 1:10] Parsing error at '{': Expect ')' after for clauses.");
    assert_eq!(parse_error("for {}"), "[line 1:5] Parsing error at '{': Expect '(' after 'for'.");
    assert_eq!(parse_error("if 1 {}"), "[line 1:4] Parsing error at '1': Expect '(' after 'if'.");
    assert_eq!(parse_error("if (1 {}"), "[line 1:7] Parsing error at '{': Expect ')' after if condition.");
    assert_eq!(parse_error("while 1 {}"), "[line 1:7] Parsing error at '1': Expect '(' after 'while'.");
    assert_eq!(parse_error("while (1 {}"), "[line 1:10] Parsing error at '{': Expect ')' after while condition.");
    assert_eq!(parse_error("class A { m( {} }"), "[line 1:14] Parsing error at '{': Expect parameter name.");
    assert_eq!(parse_error("class A { class s {} }"), "[line 1:19] Parsing error at '{': Expect '(' after static method name.");
    assert_eq!(parse_error("fun f(){ } fun g() ;"), "[line 1:20] Parsing error at ';': Expect '{' before function body.");
}
