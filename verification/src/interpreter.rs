//! The tree-walking evaluator.
//!
//! The interpreter owns an arena of scopes (`envs`); a scope refers to
//! its enclosing scope by arena index, the current scope by
//! `environment`, and a closure by the index it captured. Evaluation
//! is given a fuel budget and consumes one unit per recursive step;
//! an exhausted budget surfaces as `RuntimeEvent::OutOfFuel`. Every
//! method is proved to compute exactly the transition of the
//! functional semantics in `semantics`.

use vstd::prelude::*;

use std::rc::Rc;

use crate::ast::{Expr, Stmt, exprs_view, lemma_exprs_view, lemma_stmts_view, stmts_view,
    tokens_view};
use crate::environment::{Environment, ScopeModel, assign_chain, lookup_chain};
use crate::error::{ErrorHandler, EventModel, HandlerModel, RuntimeEvent};
use crate::numbers::{num_add, num_div, num_le, num_lt, num_mul, num_neg, num_sub, usize_repr};
use crate::semantics::{
    StateModel,
    bind_args_upto,
    sem_binary,
    sem_call,
    sem_eval,
    sem_eval_list,
    sem_exec,
    sem_exec_seq,
    sem_interpret,
    sem_while,
};
use crate::token::{Token, TokenKind};
use crate::value::{Interpretable, LoxFunction, NativeKind, UserCallable, ValueModel, values_view};
use crate::value::FunModel;

verus! {

/// Model of an evaluation outcome.
pub open spec fn res_view(r: Result<Interpretable, RuntimeEvent>) -> Result<
    ValueModel,
    EventModel,
> {
    match r {
        Ok(v) => Ok(v@),
        Err(e) => Err(e@),
    }
}

/// The state a fresh interpreter starts in: one global scope that
/// binds `clock`, nothing printed, a clock reading of zero.
pub open spec fn initial_state() -> StateModel {
    StateModel {
        envs: seq![
            ScopeModel {
                bindings: Map::empty().insert(
                    "clock"@,
                    ValueModel::Fun(FunModel::Native { arity: 0, kind: NativeKind::Clock }),
                ),
                parent: None,
            },
        ],
        current: 0,
        output: Seq::empty(),
        clock: 0,
    }
}

/// Relies on Rc::deref: the borrowed list is the shared one.
#[verifier::external_body]
fn borrow_stmts(v: &Rc<Vec<Stmt>>) -> (r: &Vec<Stmt>)
    ensures
        r@ == v@,
{
    v
}

/// Relies on Rc::deref: the borrowed list is the shared one.
#[verifier::external_body]
fn borrow_tokens(v: &Rc<Vec<Token>>) -> (r: &Vec<Token>)
    ensures
        r@ == v@,
{
    v
}

/// The evaluator and its whole runtime state.
#[derive(Debug)]
pub struct Interpreter {
    /// Every scope created so far; never shrinks, since function
    /// values may keep referring to earlier scopes.
    pub envs: Vec<Environment>,
    /// Arena index of the global scope.
    pub globals: usize,
    /// Arena index of the scope statements currently execute in.
    pub environment: usize,
    /// The lines printed so far.
    pub output: Vec<String>,
    /// What the `clock` native returns: seconds since the epoch as
    /// double bits, as last reported by the host.
    pub clock_bits: u64,
    /// Where runtime errors are reported.
    pub error_handler: ErrorHandler,
}

impl View for Interpreter {
    type V = StateModel;

    open spec fn view(&self) -> StateModel {
        StateModel {
            envs: self.envs@.map_values(|e: Environment| e@),
            current: self.environment as int,
            output: self.output@.map_values(|s: String| s@),
            clock: self.clock_bits,
        }
    }
}

/// The native `clock` function: the host-reported time the
/// interpreter currently holds.
pub fn native_clock_call(interpreter: &mut Interpreter, _args: &Vec<Interpretable>) -> (r: Result<
    Interpretable,
    RuntimeEvent,
>)
    ensures
        *final(interpreter) == *old(interpreter),
        res_view(r) == Result::<ValueModel, EventModel>::Ok(
            ValueModel::Num(old(interpreter)@.clock),
        ),
{
    Ok(Interpretable::Number(interpreter.clock_bits))
}

impl Interpreter {
    /// A fresh interpreter: one global scope with the `clock` native
    /// defined, and a clock reading of zero until the host supplies
    /// one.
    pub fn new() -> (r: Self)
        ensures
            r@ == initial_state(),
            r.error_handler@ == (HandlerModel { had_error: false, log: Seq::empty() }),
            r.globals == 0,
    {
        let mut globals_env = Environment::new();
        let clock_fn = LoxFunction::new_native_function(0, NativeKind::Clock);
        globals_env.values.define("clock".to_owned(), Interpretable::Callable(clock_fn));
        let mut envs: Vec<Environment> = Vec::new();
        envs.push(globals_env);
        let instance = Interpreter {
            envs,
            globals: 0,
            environment: 0,
            output: Vec::new(),
            clock_bits: 0,
            error_handler: ErrorHandler::new(),
        };
        proof {
            assert(instance@.envs =~= initial_state().envs);
            assert(instance@.output =~= initial_state().output);
            assert(instance@ =~= initial_state());
        }
        instance
    }

    /// Install the host's current time, as double bits.
    pub fn set_clock(&mut self, bits: u64)
        ensures
            final(self)@ == (StateModel { clock: bits, ..old(self)@ }),
            final(self).error_handler == old(self).error_handler,
    {
        self.clock_bits = bits;
    }

    /// The value of a variable, found by walking outward along the
    /// scope chain from the current scope.
    fn lookup_variable(&self, name: &Token) -> (r: Option<Interpretable>)
        ensures
            match r {
                Some(v) => lookup_chain(self@.envs, self@.current, name@.lexeme) == Some(v@),
                None => lookup_chain(self@.envs, self@.current, name@.lexeme) is None,
            },
    {
        let ghost k = name@.lexeme;
        let mut i: usize = self.environment;
        loop
            invariant
                k == name@.lexeme,
                lookup_chain(self@.envs, self@.current, k) == lookup_chain(
                    self@.envs,
                    i as int,
                    k,
                ),
            decreases i,
        {
            if i >= self.envs.len() {
                return None;
            }
            let maybe = self.envs[i].values.get(name);
            match maybe {
                Some(v) => {
                    return Some(v.clone());
                },
                None => {},
            }
            match self.envs[i].enclosing {
                Some(p) => {
                    if p < i {
                        i = p;
                    } else {
                        return None;
                    }
                },
                None => {
                    return None;
                },
            }
        }
    }

    /// Rebind a variable in the nearest scope on the chain that binds
    /// it; the previous value comes back. `None` if no scope binds it.
    fn assign_variable(&mut self, name: &Token, value: &Interpretable) -> (r: Option<
        Interpretable,
    >)
        ensures
            final(self).error_handler == old(self).error_handler,
            match assign_chain(old(self)@.envs, old(self)@.current, name@.lexeme, value@) {
                Some((envs2, prev)) => {
                    &&& r matches Some(p) && p@ == prev
                    &&& final(self)@ == (StateModel { envs: envs2, ..old(self)@ })
                },
                None => r is None && final(self)@ == old(self)@,
            },
    {
        let ghost k = name@.lexeme;
        let mut i: usize = self.environment;
        loop
            invariant
                k == name@.lexeme,
                self@ == old(self)@,
                self.error_handler == old(self).error_handler,
                assign_chain(old(self)@.envs, old(self)@.current, k, value@) == assign_chain(
                    old(self)@.envs,
                    i as int,
                    k,
                    value@,
                ),
            decreases i,
        {
            if i >= self.envs.len() {
                return None;
            }
            let ghost scope_before = self@.envs[i as int];
            let res = self.envs[i].values.assign(name, value);
            match res {
                Some(prev) => {
                    proof {
                        assert(self@.envs =~= old(self)@.envs.update(
                            i as int,
                            ScopeModel {
                                bindings: scope_before.bindings.insert(k, value@),
                                parent: scope_before.parent,
                            },
                        ));
                    }
                    return Some(prev);
                },
                None => {
                    proof {
                        assert(self@.envs =~= old(self)@.envs);
                        assert(self@ =~= old(self)@);
                    }
                },
            }
            match self.envs[i].enclosing {
                Some(p) => {
                    if p < i {
                        i = p;
                    } else {
                        return None;
                    }
                },
                None => {
                    return None;
                },
            }
        }
    }

    /// Bind a name in the current scope, shadowing any outer binding.
    fn define_current(&mut self, name: String, value: Interpretable)
        ensures
            final(self)@ == crate::semantics::define_in(old(self)@, name@, value@),
            final(self).error_handler == old(self).error_handler,
    {
        if self.environment < self.envs.len() {
            let idx = self.environment;
            self.envs[idx].values.define(name, value);
            proof {
                assert(self@.envs =~= crate::semantics::define_in(
                    old(self)@,
                    name@,
                    value@,
                ).envs);
            }
        }
    }

    /// Evaluate an expression with the given fuel budget.
    pub fn evaluate(&mut self, expression: &Expr, fuel: u64) -> (r: Result<
        Interpretable,
        RuntimeEvent,
    >)
        ensures
            ({
                let (s2, m) = sem_eval(old(self)@, expression@, fuel as nat);
                &&& final(self)@ == s2
                &&& res_view(r) == m
                &&& final(self).error_handler == old(self).error_handler
            }),
        decreases fuel, 1int,
    {
        if fuel == 0 {
            return Err(RuntimeEvent::OutOfFuel);
        }
        let fl = fuel - 1;
        match expression {
            Expr::LiteralValue { value } => {
                let v = match value {
                    crate::token::Literal::String(s) => Interpretable::String(s.clone()),
                    crate::token::Literal::Number(n) => Interpretable::Number(*n),
                    crate::token::Literal::Boolean(b) => Interpretable::Boolean(*b),
                    crate::token::Literal::Nil => Interpretable::Nil,
                };
                Ok(v)
            },
            Expr::Grouping { expression: inner } => self.evaluate(inner, fl),
            Expr::Unary { operator, right } => {
                let rv = match self.evaluate(right, fl) {
                    Ok(v) => v,
                    Err(e) => {
                        return Err(e);
                    },
                };
                match operator.kind {
                    TokenKind::Minus => match rv {
                        Interpretable::Number(n) => Ok(Interpretable::Number(num_neg(n))),
                        _ => Err(
                            RuntimeEvent::interpreter_error(
                                operator.clone(),
                                "Cannot handle '-' on non-number type",
                            ),
                        ),
                    },
                    TokenKind::Bang => Ok(Interpretable::Boolean(!rv.is_truthy())),
                    _ => Err(
                        RuntimeEvent::interpreter_error(
                            operator.clone(),
                            "Unexpected operator for a unary expression.",
                        ),
                    ),
                }
            },
            Expr::Binary { left, operator, right } => {
                let lv = match self.evaluate(left, fl) {
                    Ok(v) => v,
                    Err(e) => {
                        return Err(e);
                    },
                };
                let rv = match self.evaluate(right, fl) {
                    Ok(v) => v,
                    Err(e) => {
                        return Err(e);
                    },
                };
                self.apply_binary(left, operator, right, lv, rv)
            },
            Expr::Logical { left, operator, right } => {
                let lv = match self.evaluate(left, fl) {
                    Ok(v) => v,
                    Err(e) => {
                        return Err(e);
                    },
                };
                match operator.kind {
                    TokenKind::And => {
                        if !lv.is_truthy() {
                            Ok(lv)
                        } else {
                            self.evaluate(right, fl)
                        }
                    },
                    TokenKind::Or => {
                        if lv.is_truthy() {
                            Ok(lv)
                        } else {
                            self.evaluate(right, fl)
                        }
                    },
                    _ => {
                        let mut m = "Unexpected logical operator ".to_owned();
                        m.append(operator.lexeme.as_str());
                        Err(RuntimeEvent::interpreter_error(operator.clone(), m.as_str()))
                    },
                }
            },
            Expr::Variable { name } => match self.lookup_variable(name) {
                Some(v) => Ok(v),
                None => {
                    let mut m = "Undefined variable '".to_owned();
                    m.append(name.lexeme.as_str());
                    m.append("'.");
                    Err(RuntimeEvent::interpreter_error(name.clone(), m.as_str()))
                },
            },
            Expr::Assignment { name, value } => {
                let v = match self.evaluate(value, fl) {
                    Ok(v) => v,
                    Err(e) => {
                        return Err(e);
                    },
                };
                match self.assign_variable(name, &v) {
                    Some(prev) => Ok(prev),
                    None => {
                        let mut m = "Undefined variable '".to_owned();
                        m.append(name.lexeme.as_str());
                        m.append("'.");
                        Err(RuntimeEvent::interpreter_error(name.clone(), m.as_str()))
                    },
                }
            },
            Expr::Call { callee, paren, arguments } => {
                let callee_eval = match self.evaluate(callee, fl) {
                    Ok(v) => v,
                    Err(e) => {
                        return Err(e);
                    },
                };
                let args_eval = match self.evaluate_arguments(arguments, 0, fl) {
                    Ok(vs) => vs,
                    Err(e) => {
                        return Err(e);
                    },
                };
                match callee_eval {
                    Interpretable::Callable(function) => {
                        if args_eval.len() != function.arity() {
                            let mut m = "Expected ".to_owned();
                            let expected = usize_repr(function.arity());
                            m.append(expected.as_str());
                            m.append("  arguments, but got ");
                            let got = usize_repr(args_eval.len());
                            m.append(got.as_str());
                            m.append(".");
                            Err(RuntimeEvent::interpreter_error(paren.clone(), m.as_str()))
                        } else {
                            function.call(self, &args_eval, fl)
                        }
                    },
                    _ => Err(
                        RuntimeEvent::interpreter_error(
                            paren.clone(),
                            "Can only call functions and classes",
                        ),
                    ),
                }
            },
            Expr::Nil => Err(RuntimeEvent::parse_error("Can't visit Nil expression!")),
        }
    }

    /// What a binary operator yields on two evaluated operands.
    fn apply_binary(
        &self,
        left: &Expr,
        operator: &Token,
        right: &Expr,
        lv: Interpretable,
        rv: Interpretable,
    ) -> (r: Result<Interpretable, RuntimeEvent>)
        ensures
            res_view(r) == sem_binary(operator@, left@, right@, lv@, rv@),
    {
        match (operator.kind, lv, rv) {
            (TokenKind::Minus, Interpretable::Number(a), Interpretable::Number(b)) => Ok(
                Interpretable::Number(num_sub(a, b)),
            ),
            (TokenKind::Star, Interpretable::Number(a), Interpretable::Number(b)) => Ok(
                Interpretable::Number(num_mul(a, b)),
            ),
            (TokenKind::Slash, Interpretable::Number(a), Interpretable::Number(b)) => Ok(
                Interpretable::Number(num_div(a, b)),
            ),
            (TokenKind::Plus, Interpretable::Number(a), Interpretable::Number(b)) => Ok(
                Interpretable::Number(num_add(a, b)),
            ),
            (TokenKind::Plus, Interpretable::String(a), Interpretable::String(b)) => Ok(
                Interpretable::String(a.concat(b.as_str())),
            ),
            (TokenKind::Greater, Interpretable::Number(a), Interpretable::Number(b)) => Ok(
                Interpretable::Boolean(num_lt(b, a)),
            ),
            (TokenKind::GreaterEqual, Interpretable::Number(a), Interpretable::Number(b)) => Ok(
                Interpretable::Boolean(num_le(b, a)),
            ),
            (TokenKind::Less, Interpretable::Number(a), Interpretable::Number(b)) => Ok(
                Interpretable::Boolean(num_lt(a, b)),
            ),
            (TokenKind::LessEqual, Interpretable::Number(a), Interpretable::Number(b)) => Ok(
                Interpretable::Boolean(num_le(a, b)),
            ),
            (TokenKind::BangEqual, a, b) => Ok(Interpretable::Boolean(!a.equals(&b))),
            (TokenKind::EqualEqual, a, b) => Ok(Interpretable::Boolean(a.equals(&b))),
            (_, a, b) => {
                let mut m = "Invalid operands ".to_owned();
                let ls = left.repr();
                m.append(ls.as_str());
                m.append(" and ");
                let rs = right.repr();
                m.append(rs.as_str());
                m.append(" to operator '");
                m.append(operator.lexeme.as_str());
                m.append("'");
                Err(RuntimeEvent::interpreter_error(operator.clone(), m.as_str()))
            },
        }
    }

    /// Evaluate the arguments from index `i` on, left to right.
    fn evaluate_arguments(&mut self, arguments: &Vec<Expr>, i: usize, fuel: u64) -> (r: Result<
        Vec<Interpretable>,
        RuntimeEvent,
    >)
        ensures
            ({
                let (s2, m) = sem_eval_list(
                    old(self)@,
                    exprs_view(arguments@),
                    i as int,
                    fuel as nat,
                );
                &&& final(self)@ == s2
                &&& final(self).error_handler == old(self).error_handler
                &&& match (r, m) {
                    (Ok(vs), Ok(ms)) => values_view(vs@) == ms,
                    (Err(e), Err(em)) => e@ == em,
                    _ => false,
                }
            }),
        decreases fuel, 0int,
    {
        proof {
            lemma_exprs_view(arguments@);
        }
        if fuel == 0 {
            return Err(RuntimeEvent::OutOfFuel);
        }
        if i >= arguments.len() {
            let empty: Vec<Interpretable> = Vec::new();
            proof {
                assert(values_view(empty@) =~= Seq::<ValueModel>::empty());
            }
            return Ok(empty);
        }
        let fl = fuel - 1;
        let v = match self.evaluate(&arguments[i], fl) {
            Ok(v) => v,
            Err(e) => {
                return Err(e);
            },
        };
        let mut rest = match self.evaluate_arguments(arguments, i + 1, fl) {
            Ok(vs) => vs,
            Err(e) => {
                return Err(e);
            },
        };
        let ghost rest_models = values_view(rest@);
        let ghost vm = v@;
        rest.insert(0, v);
        proof {
            assert(values_view(rest@) =~= seq![vm] + rest_models);
        }
        Ok(rest)
    }

    /// Execute one statement with the given fuel budget.
    pub fn execute(&mut self, statement: &Stmt, fuel: u64) -> (r: Result<
        Interpretable,
        RuntimeEvent,
    >)
        ensures
            ({
                let (s2, m) = sem_exec(old(self)@, statement@, fuel as nat);
                &&& final(self)@ == s2
                &&& res_view(r) == m
                &&& final(self).error_handler == old(self).error_handler
            }),
        decreases fuel, 1int,
    {
        if fuel == 0 {
            return Err(RuntimeEvent::OutOfFuel);
        }
        let fl = fuel - 1;
        match statement {
            Stmt::ExprStmt { expr } => self.evaluate(expr, fl),
            Stmt::PrintStmt { expr } => {
                let v = match self.evaluate(expr, fl) {
                    Ok(v) => v,
                    Err(e) => {
                        return Err(e);
                    },
                };
                let line = v.repr();
                let ghost before = self@.output;
                self.output.push(line);
                proof {
                    assert(self@.output =~= before.push(crate::value::spec_val_repr(v@)));
                }
                Ok(v)
            },
            Stmt::VarStmt { name, initializer } => {
                let value = match initializer {
                    Some(e) => match self.evaluate(e, fl) {
                        Ok(v) => v,
                        Err(e) => {
                            return Err(e);
                        },
                    },
                    None => Interpretable::Nil,
                };
                self.define_current(name.lexeme.clone(), value);
                Ok(Interpretable::Nil)
            },
            Stmt::BlockStmt { declarations } => {
                let enclosing = Environment::from(self.environment);
                self.execute_block(declarations, enclosing, fl)
            },
            Stmt::IfStmt { condition, then_branch, else_branch } => {
                let c = match self.evaluate(condition, fl) {
                    Ok(v) => v,
                    Err(e) => {
                        return Err(e);
                    },
                };
                if c.is_truthy() {
                    self.execute(then_branch, fl)
                } else {
                    match &**else_branch {
                        Some(e) => self.execute(e, fl),
                        None => Ok(Interpretable::Nil),
                    }
                }
            },
            Stmt::WhileStmt { condition, body } => self.execute_while(condition, body, fl),
            Stmt::FunctionStmt { name, parameters, body } => {
                let function = LoxFunction::new_user_function(
                    name,
                    parameters,
                    body,
                    self.environment,
                );
                self.define_current(name.lexeme.clone(), Interpretable::Callable(function));
                Ok(Interpretable::Nil)
            },
            Stmt::ReturnStmt { keyword, value } => {
                proof {
                    crate::ast::lemma_expr_view_nil(**value);
                }
                let result = match &**value {
                    Expr::Nil => Interpretable::Nil,
                    _ => match self.evaluate(value, fl) {
                        Ok(v) => v,
                        Err(e) => {
                            return Err(e);
                        },
                    },
                };
                Err(RuntimeEvent::new_return(result))
            },
        }
    }

    /// Run a while loop: test, run the body, repeat; any out-of-band
    /// event, the `return` signal included, propagates.
    fn execute_while(&mut self, condition: &Expr, body: &Stmt, fuel: u64) -> (r: Result<
        Interpretable,
        RuntimeEvent,
    >)
        ensures
            ({
                let (s2, m) = sem_while(old(self)@, condition@, body@, fuel as nat);
                &&& final(self)@ == s2
                &&& res_view(r) == m
                &&& final(self).error_handler == old(self).error_handler
            }),
        decreases fuel, 0int,
    {
        let ghost s0 = self@;
        let ghost eh0 = self.error_handler;
        let mut fuel_left = fuel;
        loop
            invariant
                fuel_left <= fuel,
                s0 == old(self)@,
                eh0 == old(self).error_handler,
                self.error_handler == eh0,
                sem_while(s0, condition@, body@, fuel as nat) == sem_while(
                    self@,
                    condition@,
                    body@,
                    fuel_left as nat,
                ),
            decreases fuel_left,
        {
            if fuel_left == 0 {
                return Err(RuntimeEvent::OutOfFuel);
            }
            let fl = fuel_left - 1;
            let c = match self.evaluate(condition, fl) {
                Ok(v) => v,
                Err(e) => {
                    return Err(e);
                },
            };
            if !c.is_truthy() {
                return Ok(Interpretable::Nil);
            }
            match self.execute(body, fl) {
                Ok(_) => {},
                Err(e) => {
                    return Err(e);
                },
            }
            fuel_left = fl;
        }
    }

    /// Run statements in a fresh scope pushed onto the arena; the
    /// previous scope is current again afterwards, whatever the
    /// outcome.
    pub fn execute_block(
        &mut self,
        statements: &Vec<Stmt>,
        enclosing: Environment,
        fuel: u64,
    ) -> (r: Result<Interpretable, RuntimeEvent>)
        ensures
            ({
                let s1 = StateModel {
                    envs: old(self)@.envs.push(enclosing@),
                    current: old(self)@.envs.len() as int,
                    ..old(self)@
                };
                let (s2, m) = sem_exec_seq(s1, stmts_view(statements@), 0, fuel as nat);
                &&& final(self)@ == (StateModel { current: old(self)@.current, ..s2 })
                &&& res_view(r) == m
                &&& final(self).error_handler == old(self).error_handler
            }),
        decreases fuel, 3int,
    {
        let previous = self.environment;
        let new_idx = self.envs.len();
        self.envs.push(enclosing);
        self.environment = new_idx;
        proof {
            assert(self@.envs =~= old(self)@.envs.push(enclosing@));
        }
        let result = self.execute_statements(statements, 0, fuel);
        self.environment = previous;
        result
    }

    /// Execute the statements from index `i` on, in the current scope,
    /// stopping at the first out-of-band event.
    fn execute_statements(&mut self, statements: &Vec<Stmt>, i: usize, fuel: u64) -> (r: Result<
        Interpretable,
        RuntimeEvent,
    >)
        ensures
            ({
                let (s2, m) = sem_exec_seq(old(self)@, stmts_view(statements@), i as int, fuel as nat);
                &&& final(self)@ == s2
                &&& res_view(r) == m
                &&& final(self).error_handler == old(self).error_handler
            }),
        decreases fuel, 2int,
    {
        proof {
            lemma_stmts_view(statements@);
        }
        if fuel == 0 {
            return Err(RuntimeEvent::OutOfFuel);
        }
        if i >= statements.len() {
            return Ok(Interpretable::Nil);
        }
        let fl = fuel - 1;
        let v = match self.execute(&statements[i], fl) {
            Ok(v) => v,
            Err(e) => {
                return Err(e);
            },
        };
        if i + 1 >= statements.len() {
            Ok(v)
        } else {
            self.execute_statements(statements, i + 1, fl)
        }
    }

    /// Run a program: execute each top-level statement with the full
    /// budget, reporting any out-of-band event to the diagnostics
    /// sink and carrying on with the next statement.
    pub fn interpret(&mut self, statements: &Vec<Stmt>, fuel: u64)
        ensures
            ({
                let (s2, h2) = sem_interpret(
                    old(self)@,
                    old(self).error_handler@,
                    stmts_view(statements@),
                    0,
                    fuel as nat,
                );
                &&& final(self)@ == s2
                &&& final(self).error_handler@ == h2
            }),
    {
        let ghost s0 = self@;
        let ghost h0 = self.error_handler@;
        let ghost models = stmts_view(statements@);
        proof {
            lemma_stmts_view(statements@);
        }
        let mut i: usize = 0;
        while i < statements.len()
            invariant
                0 <= i <= statements.len(),
                models == stmts_view(statements@),
                models.len() == statements@.len(),
                forall|j: int| 0 <= j < statements@.len() ==> #[trigger] models[j]
                    == crate::ast::stmt_view(statements@[j]),
                sem_interpret(s0, h0, models, 0, fuel as nat) == sem_interpret(
                    self@,
                    self.error_handler@,
                    models,
                    i as int,
                    fuel as nat,
                ),
            decreases statements.len() - i,
        {
            let result = self.execute(&statements[i], fuel);
            match result {
                Ok(_) => {},
                Err(e) => {
                    self.error_handler.runtime_error(e);
                },
            }
            i = i + 1;
        }
    }
}

impl LoxFunction {
    /// Invoke this callable on evaluated arguments.
    pub fn call(
        &self,
        interpreter: &mut Interpreter,
        arguments: &Vec<Interpretable>,
        fuel: u64,
    ) -> (r: Result<Interpretable, RuntimeEvent>)
        ensures
            ({
                let (s2, m) = sem_call(
                    old(interpreter)@,
                    self@,
                    values_view(arguments@),
                    fuel as nat,
                );
                &&& final(interpreter)@ == s2
                &&& res_view(r) == m
                &&& final(interpreter).error_handler == old(interpreter).error_handler
            }),
        decreases fuel, 0int,
    {
        if fuel == 0 {
            return Err(RuntimeEvent::OutOfFuel);
        }
        let fl = fuel - 1;
        match self {
            LoxFunction::NativeFunction(n) => match n.kind {
                NativeKind::Clock => native_clock_call(interpreter, arguments),
            },
            LoxFunction::UserFunction(u) => u.call(interpreter, arguments, fl),
        }
    }
}

impl UserCallable {
    /// Run this function's body in a fresh scope chained to the scope
    /// it captured, with each parameter bound to its argument. A
    /// caught `return` signal is the call's value; a body that falls
    /// through yields nil.
    pub fn call(
        &self,
        interpreter: &mut Interpreter,
        arguments: &Vec<Interpretable>,
        fuel: u64,
    ) -> (r: Result<Interpretable, RuntimeEvent>)
        ensures
            ({
                let s1 = crate::semantics::push_scope(
                    old(interpreter)@,
                    crate::semantics::bind_args(
                        tokens_view(self.parameters@),
                        values_view(arguments@),
                    ),
                    self.closure as int,
                );
                let (s2, m0) = sem_exec_seq(s1, stmts_view(self.body@), 0, fuel as nat);
                let s3 = StateModel { current: old(interpreter)@.current, ..s2 };
                &&& final(interpreter)@ == s3
                &&& final(interpreter).error_handler == old(interpreter).error_handler
                &&& res_view(r) == (match m0 {
                    Err(EventModel::Ret(v)) => Result::<ValueModel, EventModel>::Ok(v),
                    Err(ev) => Err(ev),
                    Ok(_) => Ok(ValueModel::Nil),
                })
            }),
        decreases fuel, 4int,
    {
        let mut environment = Environment::from(self.closure);
        let params = borrow_tokens(&self.parameters);
        let ghost pms = tokens_view(self.parameters@);
        let ghost ams = values_view(arguments@);
        let mut i: usize = 0;
        while i < params.len() && i < arguments.len()
            invariant
                0 <= i <= params.len(),
                i <= arguments.len(),
                params@ == self.parameters@,
                pms == tokens_view(self.parameters@),
                ams == values_view(arguments@),
                environment@.parent == Some(self.closure as int),
                environment@.bindings == bind_args_upto(pms, ams, i as int),
            decreases params.len() - i,
        {
            environment.values.define(params[i].lexeme.clone(), arguments[i].clone());
            i = i + 1;
        }
        proof {
            assert(environment@.bindings == crate::semantics::bind_args(pms, ams));
        }
        let body = borrow_stmts(&self.body);
        match interpreter.execute_block(body, environment, fuel) {
            Err(RuntimeEvent::Return(value)) => Ok(value),
            Err(other) => Err(other),
            Ok(_) => Ok(Interpretable::Nil),
        }
    }
}

} // verus!
