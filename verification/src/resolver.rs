//! The resolver: a pass over the syntax tree that finds, for every use of a
//! variable, how many scopes lie between the use and the declaration.

use vstd::prelude::*;
use std::collections::HashMap;
use std::rc::Rc;
use crate::error::{Fault, RuntimeError};
use crate::expr::{Expr, VariableExpr};
use crate::function::FunctionType;
use crate::list::List;
use crate::scoping::{distance, key, ClassType, Scoping};
use crate::stmt::{BlockStmt, ClassStmt, FunctionStmt, Stmt};
use crate::table::Table;
use crate::token::Token;

verus! {

broadcast use vstd::std_specs::hash::group_hash_axioms;

/// The scope distances that the resolver found, by node.
pub struct Locals {
    depths: HashMap<u64, usize>,
}

impl View for Locals {
    type V = Map<u64, usize>;

    closed spec fn view(&self) -> Map<u64, usize> {
        self.depths@
    }
}

impl Locals {
    pub fn new() -> (locals: Self)
        ensures
            locals@ == Map::<u64, usize>::empty(),
    {
        Locals { depths: HashMap::new() }
    }

    /// Files `depth` under the node `id`.
    pub fn resolve(&mut self, id: u64, depth: usize)
        ensures
            final(self)@ == old(self)@.insert(id, depth),
    {
        self.depths.insert(id, depth);
    }

    /// The distance filed under `id`, if any.
    pub fn get(&self, id: u64) -> (depth: Option<usize>)
        ensures
            match depth {
                Some(d) => self@.contains_key(id) && self@[id] == d,
                None => !self@.contains_key(id),
            },
    {
        match self.depths.get(&id) {
            Some(d) => Some(*d),
            None => None,
        }
    }
}

/// `k` more than `d`, where there is a `d`.
pub open spec fn lifted(d: Option<nat>, k: nat) -> Option<nat> {
    match d {
        Some(d) => Some(d + k),
        None => None,
    }
}

/// Whether a result is the one that the scope rules give.
pub open spec fn settled(
    r: Result<(), RuntimeError>,
    state: Scoping,
    expected: Result<Scoping, Fault>,
) -> bool {
    match expected {
        Ok(s) => r is Ok && state == s,
        Err(f) => r matches Err(error) && error@ == f,
    }
}

/// The resolver's state between statements.
pub struct Resolver {
    scopes: Vec<Table<bool>>,
    current_function: FunctionType,
    current_class: ClassType,
}

impl Resolver {
    pub closed spec fn wf(&self) -> bool {
        forall|i: int| 0 <= i < self.scopes@.len() ==> (#[trigger] self.scopes@[i]).wf()
    }

    /// After a success as many scopes are open as before; after an error,
    /// at least as many.
    spec fn kept(self, after: Resolver, success: bool) -> bool {
        if success {
            after.scopes@.len() == self.scopes@.len()
        } else {
            after.scopes@.len() >= self.scopes@.len()
        }
    }

    /// How many scopes are open.
    pub closed spec fn depth(&self) -> nat {
        self.scopes@.len()
    }

    /// The kinds of the function and the class that enclose what is being
    /// resolved.
    pub closed spec fn kinds(&self) -> (FunctionType, ClassType) {
        (self.current_function, self.current_class)
    }

    /// The scopes as maps, innermost last.
    pub closed spec fn scopes(&self) -> Seq<Map<Seq<char>, bool>> {
        self.scopes@.map_values(|t: Table<bool>| t@)
    }

    /// The resolver's state together with the distances found so far.
    pub closed spec fn state(&self, locals: Map<u64, usize>) -> Scoping {
        Scoping {
            scopes: self.scopes(),
            function: self.current_function,
            class: self.current_class,
            locals,
        }
    }

    /// A resolver with the global scope alone, outside any function and
    /// class.
    pub fn new() -> (resolver: Self)
        ensures
            resolver.wf(),
            forall|locals: Map<u64, usize>|
                #![trigger resolver.state(locals)]
                resolver.state(locals) == (Scoping {
                    scopes: seq![Map::<Seq<char>, bool>::empty()],
                    function: FunctionType::NoFunction,
                    class: ClassType::NoClass,
                    locals,
                }),
    {
        let mut scopes: Vec<Table<bool>> = Vec::new();
        scopes.push(Table::new());
        let resolver = Resolver {
            scopes,
            current_function: FunctionType::NoFunction,
            current_class: ClassType::NoClass,
        };
        assert(resolver.scopes() =~= seq![Map::<Seq<char>, bool>::empty()]);
        resolver
    }

    /// Resolves the statements in order. The distances go into `locals`. The
    /// first error ends the pass: the scopes that it left open are closed,
    /// and the resolver stands outside the function and class that it was
    /// in; what was declared and found until then stays.
    pub fn resolve_stmts(&mut self, statements: &Vec<Stmt>, locals: &mut Locals) -> (r: Result<
        (),
        RuntimeError,
    >)
        requires
            old(self).wf(),
        ensures
            final(self).wf(),
            match old(self).state(old(locals)@).stmts(List::of(statements@)) {
                Ok(s) => r is Ok && final(self).state(final(locals)@) == s,
                Err(f) => {
                    &&& r matches Err(error)
                    &&& error@ == f
                    &&& final(self).depth() == old(self).depth()
                    &&& final(self).kinds() == old(self).kinds()
                },
            },
    {
        let ghost goal = self.state(locals@).stmts(List::of(statements@));
        let depth = self.scopes.len();
        let function = self.current_function;
        let class = self.current_class;
        let mut i: usize = 0;
        proof {
            assert(statements@.skip(0) =~= statements@);
        }
        while i < statements.len()
            invariant
                i <= statements.len(),
                self.wf(),
                depth == old(self).scopes@.len(),
                function == old(self).current_function,
                class == old(self).current_class,
                goal == old(self).state(old(locals)@).stmts(List::of(statements@)),
                goal == self.state(locals@).stmts(List::of(statements@.skip(i as int))),
                self.scopes@.len() == depth,
            decreases statements.len() - i,
        {
            proof {
                assert(statements@.skip(i as int).drop_first() =~= statements@.skip(i + 1));
            }
            match self.resolve_stmt(&statements[i], locals) {
                Ok(_) => {},
                Err(error) => {
                    self.cut_back(depth);
                    self.current_function = function;
                    self.current_class = class;
                    return Err(error);
                },
            }
            i += 1;
        }
        Ok(())
    }

    /// Closes scopes until `depth` are left.
    fn cut_back(&mut self, depth: usize)
        requires
            old(self).wf(),
        ensures
            final(self).wf(),
            final(self).current_function == old(self).current_function,
            final(self).current_class == old(self).current_class,
            final(self).scopes@.len() == if old(self).scopes@.len() > depth {
                depth as int
            } else {
                old(self).scopes@.len() as int
            },
    {
        while self.scopes.len() > depth
            invariant
                self.wf(),
                self.current_function == old(self).current_function,
                self.current_class == old(self).current_class,
                self.scopes@.len() <= old(self).scopes@.len(),
                old(self).scopes@.len() <= depth ==> self.scopes@.len() == old(self).scopes@.len(),
                old(self).scopes@.len() > depth ==> self.scopes@.len() >= depth,
            decreases self.scopes@.len(),
        {
            self.scopes.pop();
        }
    }

    fn begin_scope(&mut self, Ghost(found): Ghost<Map<u64, usize>>)
        requires
            old(self).wf(),
        ensures
            final(self).wf(),
            final(self).scopes@.len() == old(self).scopes@.len() + 1,
            final(self).state(found) == old(self).state(found).begin(),
    {
        self.scopes.push(Table::new());
        proof {
            assert(self.scopes() =~= old(self).scopes().push(Map::empty()));
        }
    }

    fn end_scope(&mut self, Ghost(found): Ghost<Map<u64, usize>>)
        requires
            old(self).wf(),
        ensures
            final(self).wf(),
            old(self).scopes@.len() > 0 ==> final(self).scopes@.len() == old(self).scopes@.len() - 1,
            final(self).state(found) == old(self).state(found).end(),
    {
        self.scopes.pop();
        proof {
            if old(self).scopes@.len() > 0 {
                assert(self.scopes() =~= old(self).scopes().drop_last());
            }
        }
    }

    fn bind(&mut self, name: String, defined: bool, Ghost(found): Ghost<Map<u64, usize>>)
        requires
            old(self).wf(),
        ensures
            final(self).wf(),
            final(self).scopes@.len() == old(self).scopes@.len(),
            final(self).state(found) == old(self).state(found).bind(name@, defined),
    {
        let n = self.scopes.len();
        if n > 0 {
            let mut scope = self.scopes.pop().unwrap();
            scope.insert(name, defined);
            self.scopes.push(scope);
            proof {
                assert(self.scopes() =~= old(self).scopes().update(
                    n - 1,
                    old(self).scopes().last().insert(name@, defined),
                ));
            }
        }
    }

    fn declare(&mut self, name: &Token, Ghost(found): Ghost<Map<u64, usize>>) -> (r: Result<
        (),
        RuntimeError,
    >)
        requires
            old(self).wf(),
        ensures
            final(self).wf(),
            old(self).kept(*final(self), r is Ok),
            settled(r, final(self).state(found), old(self).state(found).declare(*name)),
    {
        let text = name.value.to_text();
        let n = self.scopes.len();
        if n > 0 && self.scopes[n - 1].contains_key(&text) {
            return Err(
                RuntimeError::new(
                    name.clone(),
                    "Already a variable with this name in this scope.",
                ),
            );
        }
        self.bind(text, false, Ghost(found));
        Ok(())
    }

    fn define(&mut self, name: &Token, Ghost(found): Ghost<Map<u64, usize>>)
        requires
            old(self).wf(),
        ensures
            final(self).wf(),
            final(self).scopes@.len() == old(self).scopes@.len(),
            final(self).state(found) == old(self).state(found).define(*name),
    {
        self.bind(name.value.to_text(), true, Ghost(found));
    }

    fn resolve_local(&self, id: u64, name: &Token, locals: &mut Locals)
        requires
            self.wf(),
        ensures
            self.state(final(locals)@) == self.state(old(locals)@).resolve_local(id, *name),
    {
        let text = name.value.to_text();
        let n = self.scopes.len();
        let mut i: usize = n;
        proof {
            assert(self.scopes().take(n as int) =~= self.scopes());
        }
        while i > 0
            invariant
                i <= n,
                n == self.scopes@.len(),
                self.wf(),
                text@ == key(*name),
                locals@ == old(locals)@,
                distance(self.scopes(), text@) == lifted(
                    distance(self.scopes().take(i as int), text@),
                    (n - i) as nat,
                ),
            decreases i,
        {
            proof {
                assert(self.scopes().take(i as int).drop_last() =~= self.scopes().take(i - 1));
            }
            i -= 1;
            if self.scopes[i].contains_key(&text) {
                locals.resolve(id, n - 1 - i);
                return ;
            }
        }
    }

    fn resolve_parameters(
        &mut self,
        params: &List<Token>,
        Ghost(found): Ghost<Map<u64, usize>>,
    ) -> (r: Result<(), RuntimeError>)
        requires
            old(self).wf(),
        ensures
            final(self).wf(),
            old(self).kept(*final(self), r is Ok),
            settled(r, final(self).state(found), old(self).state(found).parameters(*params)),
        decreases params,
    {
        match params {
            List::Nil => Ok(()),
            List::Cons(node) => {
                self.declare(&node.head, Ghost(found))?;
                self.define(&node.head, Ghost(found));
                self.resolve_parameters(&node.tail, Ghost(found))
            },
        }
    }

    fn resolve_variable(&self, variable: &VariableExpr, locals: &mut Locals) -> (r: Result<
        (),
        RuntimeError,
    >)
        requires
            self.wf(),
        ensures
            settled(
                r,
                self.state(final(locals)@),
                self.state(old(locals)@).variable(*variable),
            ),
    {
        let n = self.scopes.len();
        if n > 0 {
            let text = variable.name.value.to_text();
            if let Some(defined) = self.scopes[n - 1].get(&text) {
                if !*defined {
                    return Err(
                        RuntimeError::new(
                            variable.name.clone(),
                            "Can't read local variable in its own initializer.",
                        ),
                    );
                }
            }
        }
        self.resolve_local(variable.id, &variable.name, locals);
        Ok(())
    }

    fn resolve_expr(&mut self, e: &Expr, locals: &mut Locals) -> (r: Result<(), RuntimeError>)
        requires
            old(self).wf(),
        ensures
            final(self).wf(),
            old(self).kept(*final(self), r is Ok),
            settled(r, final(self).state(final(locals)@), old(self).state(old(locals)@).expr(*e)),
        decreases e,
    {
        match e {
            Expr::Assign(a) => {
                self.resolve_expr(&a.value, locals)?;
                self.resolve_local(a.id, &a.name, locals);
                Ok(())
            },
            Expr::Binary(b) => {
                self.resolve_expr(&b.left, locals)?;
                self.resolve_expr(&b.right, locals)
            },
            Expr::Call(c) => {
                self.resolve_expr(&c.callee, locals)?;
                self.resolve_exprs(&c.arguments, locals)
            },
            Expr::Get(g) => self.resolve_expr(&g.object, locals),
            Expr::Grouping(g) => self.resolve_expr(&g.expression, locals),
            Expr::Lambda(l) => self.resolve_callable(
                FunctionType::Function,
                &l.params,
                &l.body,
                locals,
            ),
            Expr::Literal(_) => Ok(()),
            Expr::Logical(l) => {
                self.resolve_expr(&l.left, locals)?;
                self.resolve_expr(&l.right, locals)
            },
            Expr::SetProperty(p) => {
                self.resolve_expr(&p.value, locals)?;
                self.resolve_expr(&p.object, locals)
            },
            Expr::Super(s) => {
                if self.current_class == ClassType::NoClass {
                    return Err(
                        RuntimeError::new(
                            s.keyword.clone(),
                            "Can't use 'super' outside of a class.",
                        ),
                    );
                }
                if self.current_class != ClassType::Subclass {
                    return Err(
                        RuntimeError::new(
                            s.keyword.clone(),
                            "Can't use 'super' in a class with no superclass.",
                        ),
                    );
                }
                self.resolve_local(s.id, &s.keyword, locals);
                Ok(())
            },
            Expr::This(t) => {
                if self.current_class == ClassType::NoClass {
                    return Err(
                        RuntimeError::new(
                            t.keyword.clone(),
                            "Can't use 'this' outside of a class.",
                        ),
                    );
                }
                self.resolve_local(t.id, &t.keyword, locals);
                Ok(())
            },
            Expr::Ternary(t) => {
                self.resolve_expr(&t.condition, locals)?;
                self.resolve_expr(&t.then_branch, locals)?;
                self.resolve_expr(&t.else_branch, locals)
            },
            Expr::Unary(u) => self.resolve_expr(&u.right, locals),
            Expr::Variable(v) => self.resolve_variable(v, locals),
        }
    }

    fn resolve_exprs(&mut self, es: &List<Expr>, locals: &mut Locals) -> (r: Result<
        (),
        RuntimeError,
    >)
        requires
            old(self).wf(),
        ensures
            final(self).wf(),
            old(self).kept(*final(self), r is Ok),
            settled(r, final(self).state(final(locals)@), old(self).state(old(locals)@).exprs(*es)),
        decreases es,
    {
        match es {
            List::Nil => Ok(()),
            List::Cons(node) => {
                self.resolve_expr(&node.head, locals)?;
                self.resolve_exprs(&node.tail, locals)
            },
        }
    }

    fn resolve_callable(
        &mut self,
        kind: FunctionType,
        params: &List<Token>,
        body: &BlockStmt,
        locals: &mut Locals,
    ) -> (r: Result<(), RuntimeError>)
        requires
            old(self).wf(),
        ensures
            final(self).wf(),
            old(self).kept(*final(self), r is Ok),
            settled(
                r,
                final(self).state(final(locals)@),
                old(self).state(old(locals)@).callable(kind, *params, *body),
            ),
        decreases body,
    {
        let enclosing_function = self.current_function;
        self.current_function = kind;
        self.begin_scope(Ghost(locals@));
        self.resolve_parameters(params, Ghost(locals@))?;
        self.resolve_list(&body.statements, locals)?;
        self.end_scope(Ghost(locals@));
        self.current_function = enclosing_function;
        Ok(())
    }

    fn resolve_functions(&mut self, fs: &List<Rc<FunctionStmt>>, locals: &mut Locals) -> (r: Result<
        (),
        RuntimeError,
    >)
        requires
            old(self).wf(),
        ensures
            final(self).wf(),
            old(self).kept(*final(self), r is Ok),
            settled(
                r,
                final(self).state(final(locals)@),
                old(self).state(old(locals)@).functions(*fs),
            ),
        decreases fs,
    {
        match fs {
            List::Nil => Ok(()),
            List::Cons(node) => {
                self.resolve_callable(node.head.kind, &node.head.params, &node.head.body, locals)?;
                self.resolve_functions(&node.tail, locals)
            },
        }
    }

    fn resolve_block(&mut self, b: &BlockStmt, locals: &mut Locals) -> (r: Result<
        (),
        RuntimeError,
    >)
        requires
            old(self).wf(),
        ensures
            final(self).wf(),
            old(self).kept(*final(self), r is Ok),
            settled(r, final(self).state(final(locals)@), old(self).state(old(locals)@).block(*b)),
        decreases b,
    {
        self.begin_scope(Ghost(locals@));
        self.resolve_list(&b.statements, locals)?;
        self.end_scope(Ghost(locals@));
        Ok(())
    }

    fn resolve_class(&mut self, c: &ClassStmt, locals: &mut Locals) -> (r: Result<
        (),
        RuntimeError,
    >)
        requires
            old(self).wf(),
        ensures
            final(self).wf(),
            old(self).kept(*final(self), r is Ok),
            settled(r, final(self).state(final(locals)@), old(self).state(old(locals)@).class(*c)),
        decreases c,
    {
        let enclosing_class = self.current_class;
        self.current_class = ClassType::Class;
        self.declare(&c.name, Ghost(locals@))?;
        self.define(&c.name, Ghost(locals@));
        if let Some(superclass) = &c.superclass {
            if c.name.value.same(&superclass.name.value) {
                return Err(
                    RuntimeError::new(
                        superclass.name.clone(),
                        "A class cannot inherit from itself.",
                    ),
                );
            }
            self.current_class = ClassType::Subclass;
            self.resolve_variable(superclass, locals)?;
            self.begin_scope(Ghost(locals@));
            self.bind(String::from_str("super"), true, Ghost(locals@));
        }
        self.begin_scope(Ghost(locals@));
        self.bind(String::from_str("this"), true, Ghost(locals@));
        self.resolve_functions(&c.methods, locals)?;
        self.resolve_functions(&c.getter_methods, locals)?;
        self.end_scope(Ghost(locals@));
        self.begin_scope(Ghost(locals@));
        self.resolve_functions(&c.static_methods, locals)?;
        self.end_scope(Ghost(locals@));
        if c.superclass.is_some() {
            self.end_scope(Ghost(locals@));
        }
        self.current_class = enclosing_class;
        Ok(())
    }

    fn resolve_function(&mut self, f: &Rc<FunctionStmt>, locals: &mut Locals) -> (r: Result<
        (),
        RuntimeError,
    >)
        requires
            old(self).wf(),
        ensures
            final(self).wf(),
            old(self).kept(*final(self), r is Ok),
            settled(
                r,
                final(self).state(final(locals)@),
                old(self).state(old(locals)@).stmt(Stmt::Function(*f)),
            ),
        decreases f,
    {
        self.declare(&f.name, Ghost(locals@))?;
        self.define(&f.name, Ghost(locals@));
        self.resolve_callable(f.kind, &f.params, &f.body, locals)
    }

    fn resolve_if(&mut self, i: &Rc<crate::stmt::IfStmt>, locals: &mut Locals) -> (r: Result<
        (),
        RuntimeError,
    >)
        requires
            old(self).wf(),
        ensures
            final(self).wf(),
            old(self).kept(*final(self), r is Ok),
            settled(
                r,
                final(self).state(final(locals)@),
                old(self).state(old(locals)@).stmt(Stmt::If(*i)),
            ),
        decreases i,
    {
        self.resolve_expr(&i.condition, locals)?;
        self.resolve_block(&i.then_branch, locals)?;
        match &i.else_branch {
            Some(else_branch) => self.resolve_block(else_branch, locals),
            None => Ok(()),
        }
    }

    fn resolve_return(&mut self, r: &Rc<crate::stmt::ReturnStmt>, locals: &mut Locals) -> (out:
        Result<(), RuntimeError>)
        requires
            old(self).wf(),
        ensures
            final(self).wf(),
            old(self).kept(*final(self), out is Ok),
            settled(
                out,
                final(self).state(final(locals)@),
                old(self).state(old(locals)@).stmt(Stmt::Return(*r)),
            ),
        decreases r,
    {
        if self.current_function == FunctionType::NoFunction {
            return Err(RuntimeError::new(r.keyword.clone(), "Cannot return from top-level code."));
        }
        match &r.value {
            Some(value) => {
                if self.current_function == FunctionType::Initializer {
                    return Err(
                        RuntimeError::new(
                            r.keyword.clone(),
                            "Cannot return a value from an initializer.",
                        ),
                    );
                }
                self.resolve_expr(value, locals)
            },
            None => Ok(()),
        }
    }

    fn resolve_var(&mut self, v: &Rc<crate::stmt::VarStmt>, locals: &mut Locals) -> (r: Result<
        (),
        RuntimeError,
    >)
        requires
            old(self).wf(),
        ensures
            final(self).wf(),
            old(self).kept(*final(self), r is Ok),
            settled(
                r,
                final(self).state(final(locals)@),
                old(self).state(old(locals)@).stmt(Stmt::Var(*v)),
            ),
        decreases v,
    {
        self.declare(&v.name, Ghost(locals@))?;
        if let Some(initializer) = &v.initializer {
            self.resolve_expr(initializer, locals)?;
        }
        self.define(&v.name, Ghost(locals@));
        Ok(())
    }

    fn resolve_stmt(&mut self, statement: &Stmt, locals: &mut Locals) -> (r: Result<
        (),
        RuntimeError,
    >)
        requires
            old(self).wf(),
        ensures
            final(self).wf(),
            old(self).kept(*final(self), r is Ok),
            settled(
                r,
                final(self).state(final(locals)@),
                old(self).state(old(locals)@).stmt(*statement),
            ),
        decreases statement,
    {
        match statement {
            Stmt::Block(b) => self.resolve_block(b, locals),
            Stmt::Break => Ok(()),
            Stmt::Continue => Ok(()),
            Stmt::Class(c) => self.resolve_class(c, locals),
            Stmt::Expression(e) => self.resolve_expr(&e.expr, locals),
            Stmt::Function(f) => self.resolve_function(f, locals),
            Stmt::If(i) => self.resolve_if(i, locals),
            Stmt::Print(p) => self.resolve_expr(&p.expr, locals),
            Stmt::Return(r) => self.resolve_return(r, locals),
            Stmt::Var(v) => self.resolve_var(v, locals),
            Stmt::While(w) => {
                self.resolve_expr(&w.condition, locals)?;
                self.resolve_block(&w.body, locals)
            },
        }
    }

    fn resolve_list(&mut self, statements: &List<Stmt>, locals: &mut Locals) -> (r: Result<
        (),
        RuntimeError,
    >)
        requires
            old(self).wf(),
        ensures
            final(self).wf(),
            old(self).kept(*final(self), r is Ok),
            settled(
                r,
                final(self).state(final(locals)@),
                old(self).state(old(locals)@).stmts(*statements),
            ),
        decreases statements,
    {
        match statements {
            List::Nil => Ok(()),
            List::Cons(node) => {
                self.resolve_stmt(&node.head, locals)?;
                self.resolve_list(&node.tail, locals)
            },
        }
    }
}

} // verus!
