use std::rc::Rc;

use crafting_interpreters::expr::{BinaryExpr, Expr, LiteralExpr};
use crafting_interpreters::interpreter::Rendering;
use crafting_interpreters::stmt::{ExpressionStmt, Stmt};
use crafting_interpreters::token::{Token, TokenIdentity, TokenValue};
use crafting_interpreters::machine::{Action, Event, Interpreter, NumberOperator, Request};
use crafting_interpreters::error::RuntimeException;
use crafting_interpreters::object::Object;
use crafting_interpreters::parser::Parser;
use crafting_interpreters::resolver::Resolver;
use crafting_interpreters::scanner::scan;

/// A host with a fixed clock: it does the arithmetic and gathers the output.
struct Host {
    interpreter: Interpreter,
    resolver: Resolver,
    next_id: u64,
    clock: f64,
    output: Vec<String>,
}

fn answer(request: &Request, clock: f64) -> Event {
    match request {
        Request::Parse(text) => Event::Number(text.parse::<f64>().unwrap().to_bits()),
        Request::Binary { operator, left, right } => {
            let a = f64::from_bits(*left);
            let b = f64::from_bits(*right);
            match operator {
                NumberOperator::Add => Event::Number((a + b).to_bits()),
                NumberOperator::Subtract => Event::Number((a - b).to_bits()),
                NumberOperator::Multiply => Event::Number((a * b).to_bits()),
                NumberOperator::Divide => Event::Number((a / b).to_bits()),
                NumberOperator::Greater => Event::Boolean(a > b),
                NumberOperator::GreaterEqual => Event::Boolean(a >= b),
                NumberOperator::Less => Event::Boolean(a < b),
                NumberOperator::LessEqual => Event::Boolean(a <= b),
                NumberOperator::Equal => Event::Boolean(a == b),
            }
        }
        Request::Negate(n) => Event::Number((-f64::from_bits(*n)).to_bits()),
        Request::IsZero(n) => Event::Boolean(f64::from_bits(*n) == 0.0),
        Request::Format(n) => Event::Text(format!("{}", f64::from_bits(*n))),
        Request::Clock => Event::Number(clock.to_bits()),
    }
}

impl Host {
    fn new() -> Host {
        Host {
            interpreter: Interpreter::new(),
            resolver: Resolver::new(),
            next_id: 0,
            clock: 1700000000.0,
            output: Vec::new(),
        }
    }

    /// Runs one unit of source within `budget` exchanges with the host;
    /// `false` where the budget ran out.
    fn run(&mut self, source: &str, budget: usize) -> bool {
        let tokens = scan(source).unwrap();
        let mut parser = Parser::starting_at(tokens, self.next_id);
        self.next_id = parser.next_id();
        let statements = match parser.parse() {
            Ok(statements) => statements,
            Err(e) => {
                self.output.push(e.to_text());
                return true;
            }
        };
        if let Err(e) = self.resolver.resolve_stmts(&statements, &mut self.interpreter.locals) {
            self.output.push(e.to_text());
            return true;
        }
        self.interpreter.interpret(statements);
        let mut event = Event::Nothing;
        for _ in 0..budget {
            match self.interpreter.advance(event, 1000) {
                Action::Continue => event = Event::Nothing,
                Action::Print(line) => {
                    self.output.push(line);
                    event = Event::Nothing;
                }
                Action::Ask(request) => event = answer(&request, self.clock),
                Action::Finished(result) => {
                    match result {
                        Ok(_) => {}
                        Err(RuntimeException::Error(e)) => self.output.push(e.to_text()),
                        Err(RuntimeException::Return(r)) => {
                            let line = match self.interpreter.render(&r.value) {
                                Rendering::Text(text) => text,
                                Rendering::Number(n) => format!("{}", f64::from_bits(n)),
                            };
                            self.output.push(line);
                        }
                        Err(RuntimeException::Break) => self.output.push("break".to_string()),
                        Err(RuntimeException::Continue) => self.output.push("continue".to_string()),
                    }
                    return true;
                }
            }
        }
        false
    }
}

fn run(source: &str) -> Vec<String> {
    let mut host = Host::new();
    assert!(host.run(source, 1_000_000), "the program did not end");
    host.output
}

#[test]
fn prints_arithmetic_with_precedence() {
    assert_eq!(run("print(1+2*3);"), vec!["7"]);
}

#[test]
fn inner_block_shadows_outer_variable() {
    assert_eq!(run("var a=1; {var a=2; print(a);} print(a);"), vec!["2", "1"]);
}

#[test]
fn closure_keeps_its_counter() {
    let source = "fun mk(){var c=0; fun inc(){c=c+1; return c;} return inc;} \
                  var f=mk(); print(f()); print(f()); print(f());";
    assert_eq!(run(source), vec!["1", "2", "3"]);
}

#[test]
fn initializer_sets_fields_that_methods_read() {
    let source = "class A{ init(x){this.x=x;} get(){return this.x;}} \
                  var a=A(42); print(a.get());";
    assert_eq!(run(source), vec!["42"]);
}

#[test]
fn super_calls_the_method_of_the_superclass() {
    let source = "class A{ hi(){print(\"A\");}} \
                  class B<A{ hi(){super.hi(); print(\"B\");}} B().hi();";
    assert_eq!(run(source), vec!["A", "B"]);
}

#[test]
fn continue_in_a_for_loop_skips_the_increment() {
    // The increment is the last statement of the loop's body, so `continue`
    // passes over it: the loop stays at `i == 1`.
    let mut host = Host::new();
    let ended = host.run("for(var i=0;i<3;i=i+1){ if(i==1){continue;} print(i);}", 100_000);
    assert!(!ended);
    assert_eq!(host.output, vec!["0"]);
}

#[test]
fn continue_skips_the_rest_of_a_while_body() {
    let source = "var i=0; while(i<3){ var j=i; i=i+1; if(j==1){continue;} print(j);}";
    assert_eq!(run(source), vec!["0", "2"]);
}

#[test]
fn for_loop_runs_initializer_condition_and_increment() {
    assert_eq!(run("for(var i=0;i<3;i=i+1){ print(i);}"), vec!["0", "1", "2"]);
}

#[test]
fn break_ends_an_endless_loop() {
    assert_eq!(run("while(true){break;} print(\"out\");"), vec!["out"]);
}

#[test]
fn break_inside_if_inside_while_leaves_the_loop() {
    let source = "var i=0; while(true){ i=i+1; if(i>2){break;} print(i);} print(\"end\");";
    assert_eq!(run(source), vec!["1", "2", "end"]);
}

#[test]
fn function_sees_the_scope_of_its_declaration() {
    let source = "{var a=\"g\"; fun f(){print(a);} {var a=\"b\"; f();}}";
    assert_eq!(run(source), vec!["g"]);
}

#[test]
fn initializer_gives_the_instance_even_after_return() {
    let source = "class C{ init(){ this.x=1; return; this.x=2; } } \
                  var c=C(); print(c.x); var d=c.init(); d.x=5; print(c.x);";
    assert_eq!(run(source), vec!["1", "5"]);
}

#[test]
fn bound_method_acts_on_its_instance() {
    let source = "class Counter{ init(){this.n=0;} bump(){this.n=this.n+1; return this.n;} } \
                  var c=Counter(); var m=c.bump; m(); c.bump(); print(m()); print(c.n);";
    assert_eq!(run(source), vec!["3", "3"]);
}

#[test]
fn super_method_runs_on_the_current_instance() {
    let source = "class A{ who(){ print(this.name); } } \
                  class B<A{ who(){ super.who(); } } \
                  var b=B(); b.name=\"bee\"; b.who();";
    assert_eq!(run(source), vec!["bee"]);
}

#[test]
fn inherited_method_is_found_through_the_superclass() {
    let source = "class A{ hi(){ print(\"hi\"); } } class B<A{} class C<B{} C().hi();";
    assert_eq!(run(source), vec!["hi"]);
}

#[test]
fn reading_a_variable_in_its_own_initializer_is_an_error() {
    assert_eq!(
        run("{ var a = a; }"),
        vec!["[line 1:11] Runtime error at 'a': Can't read local variable in its own initializer."]
    );
}

#[test]
fn same_program_and_clock_give_the_same_output() {
    let source = "var t=clock(); print(t); print(t+1); print(\"x\"+t);";
    let first = run(source);
    let second = run(source);
    assert_eq!(first, second);
    assert_eq!(first, vec!["1700000000", "1700000001", "x1700000000"]);
}

#[test]
fn strings_join_and_numbers_join_strings() {
    assert_eq!(run("print(\"a\"+\"b\"); print(\"n=\"+1.5);"), vec!["ab", "n=1.5"]);
}

#[test]
fn number_plus_string_is_an_error_that_names_both() {
    assert_eq!(
        run("print(1+\"a\");"),
        vec!["[line 1:8] Runtime error at '+': Invalid operands 1 and a for + operator."]
    );
    assert_eq!(
        run("print(nil+2);"),
        vec!["[line 1:10] Runtime error at '+': Invalid operands nil and 2 for + operator."]
    );
    assert_eq!(
        run("print(true+nil);"),
        vec!["[line 1:11] Runtime error at '+': Invalid operands true and nil for + operator."]
    );
    assert_eq!(
        run("print(1+nil);"),
        vec!["[line 1:8] Runtime error at '+': Invalid operands 1 and nil for + operator."]
    );
}

#[test]
fn division_by_zero_is_an_error() {
    assert_eq!(run("print(1/0);"), vec!["[line 1:8] Runtime error at '/': Divided by zero."]);
    assert_eq!(run("print(7/2);"), vec!["3.5"]);
}

#[test]
fn arithmetic_needs_numbers() {
    assert_eq!(
        run("print(\"a\"-1);"),
        vec!["[line 1:10] Runtime error at '-': Only support number operands."]
    );
    assert_eq!(
        run("print(nil*1);"),
        vec!["[line 1:10] Runtime error at '*': Only support number operands."]
    );
    assert_eq!(
        run("print(nil/1);"),
        vec!["[line 1:10] Runtime error at '/': Only support number operands."]
    );
    assert_eq!(
        run("print(-\"a\");"),
        vec!["[line 1:7] Runtime error at '-': Only support number operands."]
    );
    assert_eq!(run("print(-(3-5)); print(2*3);"), vec!["2", "6"]);
}

#[test]
fn comparisons_of_other_values_are_false() {
    assert_eq!(
        run("print(1<2); print(2<=2); print(3>4); print(4>=5); print(\"a\"<\"b\"); print(nil>=nil);"),
        vec!["true", "true", "false", "false", "false", "false"]
    );
}

#[test]
fn equality_holds_only_within_one_kind() {
    let source = "print(1==1); print(1==2); print(1!=2); print(\"a\"==\"a\"); print(\"a\"!=\"b\"); \
                  print(nil==nil); print(true==true); print(1==\"1\"); print(nil==false); \
                  fun f(){} print(f==f); class A{} print(A==A); var a=A(); print(a==a); print(a!=a);";
    assert_eq!(
        run(source),
        vec![
            "true", "false", "true", "true", "true", "true", "true", "false", "false", "false",
            "false", "false", "true"
        ]
    );
}

#[test]
fn zero_and_empty_string_are_truthy() {
    let source = "if(0){print(\"zero\");} if(\"\"){print(\"empty\");} \
                  if(nil){print(\"nil\");} else {print(\"not nil\");} \
                  if(false){print(\"false\");} print(!0); print(!nil);";
    assert_eq!(run(source), vec!["zero", "empty", "not nil", "false", "true"]);
}

#[test]
fn logical_operators_give_the_deciding_operand() {
    let source = "print(nil or \"x\"); print(1 or 2); print(nil and 1); print(1 and 2); \
                  print(false or false);";
    assert_eq!(run(source), vec!["x", "1", "nil", "2", "false"]);
}

#[test]
fn logical_operators_evaluate_the_right_side_only_when_needed() {
    let source = "fun loud(){ print(\"called\"); return true; } \
                  print(true or loud()); print(false and loud()); print(false or loud());";
    assert_eq!(run(source), vec!["true", "false", "called", "true"]);
}

#[test]
fn ternary_evaluates_one_branch() {
    let source = "fun a(){ print(\"a\"); return 1; } fun b(){ print(\"b\"); return 2; } \
                  print(true ? a() : b()); print(nil ? a() : b());";
    assert_eq!(run(source), vec!["a", "1", "b", "2"]);
}

#[test]
fn getter_is_invoked_on_read() {
    let source = "class Circle{ init(r){this.r=r;} area{ return 3*this.r*this.r; } } \
                  var c=Circle(2); print(c.area);";
    assert_eq!(run(source), vec!["12"]);
}

#[test]
fn static_method_is_read_from_the_class() {
    let source = "class Math{ class square(n){ return n*n; } } print(Math.square(3));";
    assert_eq!(run(source), vec!["9"]);
}

#[test]
fn field_is_read_before_a_method_of_the_same_name() {
    let source = "class A{ f(){ return \"method\"; } } var a=A(); print(a.f()); \
                  fun g(){ return \"field\"; } a.f=g; print(a.f());";
    assert_eq!(run(source), vec!["method", "field"]);
}

#[test]
fn values_are_written_out() {
    let source = "fun f(){} class A{} var a=A(); print(f); print(A); print(a); print(clock); \
                  print(nil); print(true); print(1.50); print(\"s\"); print(fun(){});";
    assert_eq!(
        run(source),
        vec!["<fn f>", "A", "<A instance>", "<fn native clock>", "nil", "true", "1.5", "s", "<fn lambda>"]
    );
}

#[test]
fn unknown_names_and_uninitialized_variables_are_errors() {
    assert_eq!(run("print(x);"), vec!["[line 1:7] Runtime error at 'x': Undefined variable."]);
    assert_eq!(
        run("var a; print(a);"),
        vec!["[line 1:14] Runtime error at 'a': The variable isn't initialized."]
    );
    assert_eq!(run("x = 1;"), vec!["[line 1:1] Runtime error at 'x': Unclarified variable."]);
    assert_eq!(run("var a; a = 3; print(a);"), vec!["3"]);
}

#[test]
fn only_functions_and_classes_are_called() {
    assert_eq!(
        run("var a=1; a();"),
        vec!["[line 1:12] Runtime error at ')': Can only call functions and classes."]
    );
}

#[test]
fn only_instances_have_properties() {
    assert_eq!(
        run("var a=1; print(a.b);"),
        vec!["[line 1:18] Runtime error at 'b': Only instances have properties."]
    );
    assert_eq!(
        run("var a=1; a.b=2;"),
        vec!["[line 1:12] Runtime error at 'b': Only instances have properties."]
    );
    assert_eq!(
        run("class A{} print(A().b);"),
        vec!["[line 1:21] Runtime error at 'b': Undefined property."]
    );
    assert_eq!(
        run("class A{} print(A.b);"),
        vec!["[line 1:19] Runtime error at 'b': Class A doesn't have a method named 'b'."]
    );
}

#[test]
fn superclass_must_be_a_class() {
    assert_eq!(
        run("var A=1; class B<A{}"),
        vec!["[line 1:18] Runtime error at 'A': Superclass must be a class."]
    );
    assert_eq!(
        run("class A{} class B<A{ m(){ super.none(); } } B().m();"),
        vec!["[line 1:33] Runtime error at 'none': Undefined property."]
    );
}

#[test]
fn resolver_rejects_misplaced_keywords() {
    assert_eq!(
        run("return 1;"),
        vec!["[line 1:1] Runtime error at 'return': Cannot return from top-level code."]
    );
    assert_eq!(
        run("class A{ init(){ return 1; } }"),
        vec!["[line 1:18] Runtime error at 'return': Cannot return a value from an initializer."]
    );
    assert_eq!(
        run("print(this);"),
        vec!["[line 1:7] Runtime error at 'this': Can't use 'this' outside of a class."]
    );
    assert_eq!(
        run("print(super.x);"),
        vec!["[line 1:7] Runtime error at 'super': Can't use 'super' outside of a class."]
    );
    assert_eq!(
        run("class A{ m(){ super.m(); } }"),
        vec!["[line 1:15] Runtime error at 'super': Can't use 'super' in a class with no superclass."]
    );
    assert_eq!(
        run("class A<A{}"),
        vec!["[line 1:9] Runtime error at 'A': A class cannot inherit from itself."]
    );
    assert_eq!(
        run("{ var a; var a; }"),
        vec!["[line 1:14] Runtime error at 'a': Already a variable with this name in this scope."]
    );
    assert_eq!(
        run("fun f(a, a){}"),
        vec!["[line 1:10] Runtime error at 'a': Already a variable with this name in this scope."]
    );
}

#[test]
fn resolver_looks_at_both_sides_of_a_logical_operator() {
    assert_eq!(
        run("print(this or 1);"),
        vec!["[line 1:7] Runtime error at 'this': Can't use 'this' outside of a class."]
    );
    assert_eq!(run("{ var a=1; { print(a and a); } }"), vec!["1"]);
}

#[test]
fn parser_reports_the_first_error() {
    assert_eq!(run("break;"), vec!["[line 1:1] Parsing error at 'break': Can only use 'break' inside loops."]);
    assert_eq!(
        run("while(true){ fun f(){ continue; } }"),
        vec!["[line 1:23] Parsing error at 'continue': Can only use 'continue' inside loops."]
    );
    assert_eq!(run("1 = 2;"), vec!["[line 1:3] Parsing error at '=': Invalid assignment target."]);
    assert_eq!(run("print(1"), vec!["[line 1:8] Parsing error at end: Expect ')' after arguments."]);
    assert_eq!(run("("), vec!["[line 1:2] Parsing error at end: Unexpected expression"]);
    assert_eq!(run("var 1;"), vec!["[line 1:5] Parsing error at '1': Expect variable name."]);
    assert_eq!(run("print(;);"), vec!["[line 1:8] Parsing error at ')': Unexpected expression"]);
    assert_eq!(run("class A{ class (){} }"), vec!["[line 1:16] Parsing error at '(': Expect static method name."]);
}

#[test]
fn extra_arguments_are_ignored_and_missing_ones_stay_unbound() {
    assert_eq!(run("fun f(a){ print(a); } f(1, 2);"), vec!["1"]);
    assert_eq!(
        run("fun f(a, b){ print(a); print(b); } f(1);"),
        vec!["1", "[line 1:30] Runtime error at 'b': Undefined variable."]
    );
}

#[test]
fn function_without_return_gives_nil() {
    assert_eq!(run("fun f(){} print(f()); fun g(){ return; } print(g());"), vec!["nil", "nil"]);
}

#[test]
fn lambda_sees_the_global_scope_only() {
    assert_eq!(run("var g=1; var f=fun(a){ return a+g; }; print(f(2));"), vec!["3"]);
    assert_eq!(
        run("{ var l=1; var f=fun(){ return l; }; print(f()); }"),
        vec!["[line 1:32] Runtime error at 'l': Undefined variable."]
    );
    assert_eq!(
        run("{ var l=1; { var f=fun(){ return l; }; print(f()); } }"),
        vec!["[line 1:34] Runtime error at 'l': The variable isn't declared."]
    );
}

#[test]
fn lambda_statement_needs_no_semicolon() {
    assert_eq!(run("fun (a) { print(a); } print(\"after\");"), vec!["after"]);
}

#[test]
fn recursion_works() {
    let source = "fun fib(n){ if(n<2){ return n; } return fib(n-1)+fib(n-2); } print(fib(12));";
    assert_eq!(run(source), vec!["144"]);
}

#[test]
fn state_persists_between_units() {
    let mut host = Host::new();
    assert!(host.run("var a=1; fun bump(){ a=a+1; return a; }", 10_000));
    assert!(host.run("print(bump());", 10_000));
    assert!(host.run("print(nope);", 10_000));
    assert!(host.run("print(bump()+a);", 10_000));
    assert_eq!(
        host.output,
        vec!["2", "[line 1:7] Runtime error at 'nope': Undefined variable.", "6"]
    );
}

#[test]
fn step_on_an_idle_evaluator_finishes_at_once() {
    let mut interpreter = Interpreter::new();
    assert!(matches!(interpreter.step(Event::Nothing), Action::Finished(Ok(Object::Undefined))));
}

#[test]
fn an_answer_of_the_wrong_kind_repeats_the_request() {
    let tokens = scan("print(2);").unwrap();
    let statements = Parser::new(tokens).parse().unwrap();
    let mut interpreter = Interpreter::new();
    interpreter.interpret(statements);
    let mut action = interpreter.step(Event::Nothing);
    while let Action::Continue = action {
        action = interpreter.step(Event::Nothing);
    }
    assert!(matches!(&action, Action::Ask(Request::Parse(text)) if text == "2"));
    let again = interpreter.step(Event::Boolean(true));
    assert!(matches!(&again, Action::Ask(Request::Parse(text)) if text == "2"));
    let next = interpreter.step(Event::Number(2.0_f64.to_bits()));
    assert!(matches!(next, Action::Continue));
}

#[test]
fn clock_is_asked_of_the_host() {
    let tokens = scan("clock();").unwrap();
    let statements = Parser::new(tokens).parse().unwrap();
    let mut interpreter = Interpreter::new();
    interpreter.interpret(statements);
    let mut action = interpreter.step(Event::Nothing);
    while let Action::Continue = action {
        action = interpreter.step(Event::Nothing);
    }
    assert!(matches!(action, Action::Ask(Request::Clock)));
}

#[test]
fn runtime_error_leaves_the_evaluator_in_the_global_scope() {
    let mut host = Host::new();
    assert!(host.run("var a=1; { var b=2; { print(c); } }", 10_000));
    assert!(host.run("print(a);", 10_000));
    assert_eq!(host.interpreter.environment, host.interpreter.global);
    assert_eq!(
        host.output,
        vec!["[line 1:29] Runtime error at 'c': Undefined variable.", "1"]
    );
}

#[test]
fn resolver_closes_its_scopes_after_an_error() {
    let mut host = Host::new();
    assert!(host.run("class A{ m(){ { { return nope(this, super.x); } } } }", 10_000));
    assert!(host.run("var a=1; { var b=2; { print(a+b); } } print(a);", 10_000));
    assert_eq!(
        host.output,
        vec![
            "[line 1:37] Runtime error at 'super': Can't use 'super' in a class with no superclass.",
            "3",
            "1"
        ]
    );
}

#[test]
fn arguments_are_evaluated_left_to_right_after_the_callee() {
    let source = "fun show(x){ print(x); return x; } fun f(a,b,c){ print(a+b+c); } \
                  show(f)(show(1), show(2), show(3));";
    assert_eq!(run(source), vec!["<fn f>", "1", "2", "3", "6"]);
}

#[test]
fn negative_zero_is_zero_for_division() {
    assert_eq!(run("print(1/-0);"), vec!["[line 1:8] Runtime error at '/': Divided by zero."]);
    assert_eq!(run("print(0/1);"), vec!["0"]);
}

#[test]
fn undefined_is_never_the_value_of_an_expression() {
    let source = "fun f(){ var a; } print(f()); var g=fun(){ 1; }; print(g()); \
                  class A{ init(){ } } print(A().init());";
    assert_eq!(run(source), vec!["nil", "nil", "<A instance>"]);
}

#[test]
fn return_leaves_nested_blocks_and_loops() {
    let source = "fun f(){ var i=0; while(true){ { i=i+1; if(i==3){ return i; } } } } \
                  var a=5; print(f()); print(a);";
    assert_eq!(run(source), vec!["3", "5"]);
}

#[test]
fn static_methods_see_the_scope_of_the_class() {
    let source = "var base=10; class M{ class add(n){ return base+n; } } print(M.add(1));";
    assert_eq!(run(source), vec!["11"]);
}

#[test]
fn getter_and_method_of_a_superclass_use_this() {
    let source = "class P{ init(){ this.n=2; } twice{ return this.n*2; } } \
                  class Q<P{ init(){ super.init(); this.m=1; } sum(){ return this.twice+this.m; } } \
                  print(Q().sum());";
    assert_eq!(run(source), vec!["5"]);
}

#[test]
fn advance_stops_when_its_budget_is_spent() {
    let tokens = scan("while(true){}").unwrap();
    let statements = Parser::new(tokens).parse().unwrap();
    let mut counted = Interpreter::new();
    counted.interpret(statements);
    let mut stepped = 0;
    // The condition `true` needs no host, so the loop goes on for ever.
    for _ in 0..50 {
        assert!(matches!(counted.step(Event::Nothing), Action::Continue));
        stepped += 1;
    }
    let tokens = scan("while(true){}").unwrap();
    let statements = Parser::new(tokens).parse().unwrap();
    let mut advanced = Interpreter::new();
    advanced.interpret(statements);
    assert!(matches!(advanced.advance(Event::Nothing, stepped - 1), Action::Continue));
    assert_eq!(advanced.frames.len(), counted.frames.len());
    assert_eq!(advanced.environments.len(), counted.environments.len());
}

#[test]
fn advance_stops_where_the_host_is_needed() {
    let tokens = scan("var a = \"x\"; print(a); print(1);").unwrap();
    let statements = Parser::new(tokens).parse().unwrap();
    let mut interpreter = Interpreter::new();
    interpreter.interpret(statements);
    assert!(matches!(interpreter.advance(Event::Nothing, 1000), Action::Print(line) if line == "x"));
    assert!(matches!(
        interpreter.advance(Event::Nothing, 1000),
        Action::Ask(Request::Parse(text)) if text == "1"
    ));
    assert!(matches!(
        interpreter.advance(Event::Number(1.0_f64.to_bits()), 1000),
        Action::Ask(Request::Format(n)) if n == 1.0_f64.to_bits()
    ));
    assert!(matches!(
        interpreter.advance(Event::Text("1".to_string()), 1000),
        Action::Print(line) if line == "1"
    ));
    assert!(matches!(interpreter.advance(Event::Nothing, 1000), Action::Finished(Ok(_))));
}

#[test]
fn static_method_has_no_this_for_super() {
    let source = "class A{ f(){} } class B<A{ class s(){ return super.f; } } B.s();";
    assert_eq!(run(source), vec!["[line 0:0] Runtime error at 'this': Undefined variable."]);
}

#[test]
fn operator_that_is_none_is_an_error() {
    let nil = || Expr::Literal(Rc::new(LiteralExpr::new(TokenValue::Nil)));
    let odd = Token::new(TokenIdentity::Comma, TokenValue::Nil, 2, 3);
    let binary = Expr::Binary(Rc::new(BinaryExpr::new(nil(), odd, nil())));
    let mut interpreter = Interpreter::new();
    interpreter.interpret(vec![Stmt::Expression(Rc::new(ExpressionStmt::new(binary)))]);
    match interpreter.advance(Event::Nothing, 1000) {
        Action::Finished(Err(RuntimeException::Error(e))) => {
            assert_eq!(e.to_text(), "[line 2:3] Runtime error at ',': Unsupported operator.");
        }
        other => panic!("{:?}", other),
    }
}

#[test]
fn linked_list_of_instances() {
    let source = "class Node{ init(v, next){ this.v=v; this.next=next; } } \
                  class Stack{ init(){ this.top=nil; this.size=0; } \
                    push(v){ this.top=Node(v, this.top); this.size=this.size+1; return this; } \
                    pop(){ var v=this.top.v; this.top=this.top.next; this.size=this.size-1; return v; } \
                    empty{ return this.size==0; } } \
                  var s=Stack(); s.push(1).push(2).push(3); \
                  while(!s.empty){ print(s.pop()); } print(s.size);";
    assert_eq!(run(source), vec!["3", "2", "1", "0"]);
}

#[test]
fn closures_made_in_a_loop_keep_their_own_scope() {
    let source = "var first; var second; var i=0; \
                  while(i<2){ var j=i*10; fun show(){ return j; } \
                    if(i==0){ first=show; } else { second=show; } i=i+1; } \
                  print(first()); print(second());";
    assert_eq!(run(source), vec!["0", "10"]);
}

#[test]
fn inner_function_shadows_and_updates_the_right_variable() {
    let source = "var x=\"global\"; \
                  fun outer(){ var x=\"outer\"; fun inner(){ x=\"changed\"; } inner(); return x; } \
                  print(outer()); print(x);";
    assert_eq!(run(source), vec!["changed", "global"]);
}

#[test]
fn initializer_chain_through_super() {
    let source = "class A{ init(n){ this.n=n; } describe(){ return \"A\"+this.n; } } \
                  class B<A{ init(n){ super.init(n+1); this.tag=\"b\"; } \
                             describe(){ return super.describe()+this.tag; } } \
                  class C<B{ describe(){ return \"<\"+super.describe()+\">\"; } } \
                  print(C(1).describe());";
    assert_eq!(run(source), vec!["<A2b>"]);
}

#[test]
fn ternary_and_logic_nest() {
    let source = "fun sign(n){ return n<0 ? \"neg\" : n==0 ? \"zero\" : \"pos\"; } \
                  print(sign(-1)); print(sign(0)); print(sign(5)); \
                  print((1<2 and 2<3) ? \"y\" : \"n\"); print((nil or false) ? \"y\" : \"n\");";
    assert_eq!(run(source), vec!["neg", "zero", "pos", "y", "n"]);
}

#[test]
fn while_with_break_and_nested_loops() {
    let source = "var i=0; while(i<3){ var j=0; while(true){ if(j==i){ break; } j=j+1; } \
                  print(\"i=\"+i+\" j=\"+j); i=i+1; }";
    assert_eq!(run(source), vec!["i=0 j=0", "i=1 j=1", "i=2 j=2"]);
}

#[test]
fn functions_are_values() {
    let source = "fun twice(f, x){ return f(f(x)); } fun inc(n){ return n+1; } \
                  print(twice(inc, 5)); var g=twice; print(g(inc, 0)); \
                  print(twice(fun(n){ return n*3; }, 2));";
    assert_eq!(run(source), vec!["7", "2", "18"]);
}

#[test]
fn methods_can_be_stored_in_fields_and_rebound() {
    let source = "class Dog{ init(name){ this.name=name; } speak(){ return this.name+\" barks\"; } } \
                  var a=Dog(\"Rex\"); var b=Dog(\"Fido\"); b.talk=a.speak; \
                  print(b.talk()); print(b.speak());";
    assert_eq!(run(source), vec!["Rex barks", "Fido barks"]);
}

#[test]
fn return_inside_a_lambda_ends_the_lambda() {
    let source = "fun f(){ var g=fun(){ return 1; }; var a=g(); return a+1; } print(f());";
    assert_eq!(run(source), vec!["2"]);
}

#[test]
fn numbers_are_doubles() {
    let source = "print(0.1+0.2); print(1/3); print(10/4); print(2*3.5); print(1000000*1000000); \
                  print(7-10); print(3==3.0); print(0.5<0.25);";
    assert_eq!(
        run(source),
        vec!["0.30000000000000004", "0.3333333333333333", "2.5", "7", "1000000000000", "-3", "true", "false"]
    );
}

#[test]
fn multi_line_source_reports_lines() {
    let source = "var a = 1;\nvar b = 2;\nprint(a + b);\nprint(c);\n";
    assert_eq!(
        run(source),
        vec!["3", "[line 4:7] Runtime error at 'c': Undefined variable."]
    );
}

#[test]
fn class_can_refer_to_itself_in_its_methods() {
    let source = "class Tree{ init(depth){ this.depth=depth; if(depth>0){ this.child=Tree(depth-1); } } \
                    count(){ if(this.depth==0){ return 1; } return 1+this.child.count(); } } \
                  print(Tree(3).count());";
    assert_eq!(run(source), vec!["4"]);
}
