//! The language's big-step semantics, as a functional model.
//!
//! Evaluation is defined over the ghost syntax models and a ghost
//! state: the scope arena, the index of the current scope, the lines
//! printed so far, and the host-reported clock reading. Every
//! recursive step consumes one unit of fuel, so the model is total;
//! running out of fuel is the distinct outcome `EventModel::Halt`.
//! The executable interpreter is proved to compute exactly these
//! transitions.

use vstd::prelude::*;

use crate::ast::{ExprModel, StmtModel};
use crate::environment::{ScopeModel, assign_chain, lookup_chain};
use crate::error::{DiagModel, EventModel, HandlerModel};
use crate::numbers::{
    spec_nat_repr,
    spec_num_add,
    spec_num_div,
    spec_num_le,
    spec_num_lt,
    spec_num_mul,
    spec_num_neg,
    spec_num_sub,
};
use crate::printer::spec_expr_repr;
use crate::token::{LitModel, TokenKind, TokenModel};
use crate::value::{
    FunModel,
    NativeKind,
    ValueModel,
    spec_arity,
    spec_truthy,
    spec_val_eq,
    spec_val_repr,
};

verus! {

/// Model of the interpreter's mutable state.
#[verifier::ext_equal]
pub ghost struct StateModel {
    /// Every scope ever created, in creation order; index 0 is the
    /// global scope. A scope is never removed: a closure may still
    /// refer to it.
    pub envs: Seq<ScopeModel>,
    /// Index of the scope statements currently execute in.
    pub current: int,
    /// The lines printed so far.
    pub output: Seq<Seq<char>>,
    /// Seconds since the epoch as the host last reported them, as
    /// double bits; what the `clock` native returns.
    pub clock: u64,
}

/// The runtime value of a literal.
pub open spec fn lit_value(l: LitModel) -> ValueModel {
    match l {
        LitModel::Str(s) => ValueModel::Str(s),
        LitModel::Num(n) => ValueModel::Num(n),
        LitModel::Bool(b) => ValueModel::Bool(b),
        LitModel::Nil => ValueModel::Nil,
    }
}

pub open spec fn msg_undefined_variable(name: Seq<char>) -> Seq<char> {
    "Undefined variable '"@ + name + "'."@
}

pub open spec fn msg_invalid_operands(le: ExprModel, re: ExprModel, op: Seq<char>) -> Seq<char> {
    "Invalid operands "@ + spec_expr_repr(le) + " and "@ + spec_expr_repr(re) + " to operator '"@
        + op + "'"@
}

pub open spec fn msg_arity(expected: int, got: int) -> Seq<char> {
    "Expected "@ + spec_nat_repr(expected) + "  arguments, but got "@ + spec_nat_repr(got) + "."@
}

/// The binding table after pairing the first `n` parameters with the
/// first `n` arguments, in order; with a repeated parameter name the
/// later argument wins.
pub open spec fn bind_args_upto(
    params: Seq<TokenModel>,
    args: Seq<ValueModel>,
    n: int,
) -> Map<Seq<char>, ValueModel>
    decreases n,
{
    if n <= 0 {
        Map::empty()
    } else {
        bind_args_upto(params, args, n - 1).insert(params[n - 1].lexeme, args[n - 1])
    }
}

/// The binding table a call starts from: each parameter bound to the
/// argument in its position. The two sequences have equal length:
/// arity was checked.
pub open spec fn bind_args(params: Seq<TokenModel>, args: Seq<ValueModel>) -> Map<
    Seq<char>,
    ValueModel,
> {
    bind_args_upto(
        params,
        args,
        if params.len() <= args.len() {
            params.len() as int
        } else {
            args.len() as int
        },
    )
}

/// Bind a name in the current scope, shadowing any outer binding of
/// it. A current index outside the arena leaves the state unchanged;
/// the interpreter never produces one.
pub open spec fn define_in(s: StateModel, name: Seq<char>, v: ValueModel) -> StateModel {
    if 0 <= s.current < s.envs.len() {
        let sc = s.envs[s.current];
        StateModel {
            envs: s.envs.update(
                s.current,
                ScopeModel { bindings: sc.bindings.insert(name, v), parent: sc.parent },
            ),
            ..s
        }
    } else {
        s
    }
}

/// The state a block or call body starts in: a fresh scope whose
/// parent is `parent`, pushed onto the arena and made current.
pub open spec fn push_scope(
    s: StateModel,
    bindings: Map<Seq<char>, ValueModel>,
    parent: int,
) -> StateModel {
    StateModel {
        envs: s.envs.push(ScopeModel { bindings, parent: Some(parent) }),
        current: s.envs.len() as int,
        ..s
    }
}

/// What a binary operator yields on two evaluated operands, or the
/// error naming the operand expressions.
pub open spec fn sem_binary(
    op: TokenModel,
    le: ExprModel,
    re: ExprModel,
    l: ValueModel,
    r: ValueModel,
) -> Result<ValueModel, EventModel> {
    match (op.kind, l, r) {
        (TokenKind::Minus, ValueModel::Num(a), ValueModel::Num(b)) => Ok(
            ValueModel::Num(spec_num_sub(a, b)),
        ),
        (TokenKind::Star, ValueModel::Num(a), ValueModel::Num(b)) => Ok(
            ValueModel::Num(spec_num_mul(a, b)),
        ),
        (TokenKind::Slash, ValueModel::Num(a), ValueModel::Num(b)) => Ok(
            ValueModel::Num(spec_num_div(a, b)),
        ),
        (TokenKind::Plus, ValueModel::Num(a), ValueModel::Num(b)) => Ok(
            ValueModel::Num(spec_num_add(a, b)),
        ),
        (TokenKind::Plus, ValueModel::Str(a), ValueModel::Str(b)) => Ok(ValueModel::Str(a + b)),
        (TokenKind::Greater, ValueModel::Num(a), ValueModel::Num(b)) => Ok(
            ValueModel::Bool(spec_num_lt(b, a)),
        ),
        (TokenKind::GreaterEqual, ValueModel::Num(a), ValueModel::Num(b)) => Ok(
            ValueModel::Bool(spec_num_le(b, a)),
        ),
        (TokenKind::Less, ValueModel::Num(a), ValueModel::Num(b)) => Ok(
            ValueModel::Bool(spec_num_lt(a, b)),
        ),
        (TokenKind::LessEqual, ValueModel::Num(a), ValueModel::Num(b)) => Ok(
            ValueModel::Bool(spec_num_le(a, b)),
        ),
        (TokenKind::BangEqual, a, b) => Ok(ValueModel::Bool(!spec_val_eq(a, b))),
        (TokenKind::EqualEqual, a, b) => Ok(ValueModel::Bool(spec_val_eq(a, b))),
        _ => Err(
            EventModel::RunErr { token: op, message: msg_invalid_operands(le, re, op.lexeme) },
        ),
    }
}

/// Evaluate an expression. Consumes one unit of fuel per recursive
/// step; with no fuel left the outcome is `Halt`.
pub open spec fn sem_eval(s: StateModel, e: ExprModel, fuel: nat) -> (StateModel, Result<
    ValueModel,
    EventModel,
>)
    decreases fuel,
{
    if fuel == 0 {
        (s, Err(EventModel::Halt))
    } else {
        let fl = (fuel - 1) as nat;
        match e {
            ExprModel::LiteralValue { value } => (s, Ok(lit_value(value))),
            ExprModel::Grouping { expression } => sem_eval(s, *expression, fl),
            ExprModel::Unary { operator, right } => {
                let (s1, r) = sem_eval(s, *right, fl);
                match r {
                    Err(ev) => (s1, Err(ev)),
                    Ok(v) => match operator.kind {
                        TokenKind::Minus => match v {
                            ValueModel::Num(n) => (s1, Ok(ValueModel::Num(spec_num_neg(n)))),
                            _ => (
                                s1,
                                Err(
                                    EventModel::RunErr {
                                        token: operator,
                                        message: "Cannot handle '-' on non-number type"@,
                                    },
                                ),
                            ),
                        },
                        TokenKind::Bang => (s1, Ok(ValueModel::Bool(!spec_truthy(v)))),
                        _ => (
                            s1,
                            Err(
                                EventModel::RunErr {
                                    token: operator,
                                    message: "Unexpected operator for a unary expression."@,
                                },
                            ),
                        ),
                    },
                }
            },
            ExprModel::Binary { left, operator, right } => {
                let (s1, rl) = sem_eval(s, *left, fl);
                match rl {
                    Err(ev) => (s1, Err(ev)),
                    Ok(lv) => {
                        let (s2, rr) = sem_eval(s1, *right, fl);
                        match rr {
                            Err(ev) => (s2, Err(ev)),
                            Ok(rv) => (s2, sem_binary(operator, *left, *right, lv, rv)),
                        }
                    },
                }
            },
            ExprModel::Logical { left, operator, right } => {
                let (s1, rl) = sem_eval(s, *left, fl);
                match rl {
                    Err(ev) => (s1, Err(ev)),
                    Ok(lv) => match operator.kind {
                        TokenKind::And => if !spec_truthy(lv) {
                            (s1, Ok(lv))
                        } else {
                            sem_eval(s1, *right, fl)
                        },
                        TokenKind::Or => if spec_truthy(lv) {
                            (s1, Ok(lv))
                        } else {
                            sem_eval(s1, *right, fl)
                        },
                        _ => (
                            s1,
                            Err(
                                EventModel::RunErr {
                                    token: operator,
                                    message: "Unexpected logical operator "@ + operator.lexeme,
                                },
                            ),
                        ),
                    },
                }
            },
            ExprModel::Variable { name } => match lookup_chain(s.envs, s.current, name.lexeme) {
                Some(v) => (s, Ok(v)),
                None => (
                    s,
                    Err(
                        EventModel::RunErr {
                            token: name,
                            message: msg_undefined_variable(name.lexeme),
                        },
                    ),
                ),
            },
            ExprModel::Assignment { name, value } => {
                let (s1, r) = sem_eval(s, *value, fl);
                match r {
                    Err(ev) => (s1, Err(ev)),
                    Ok(v) => match assign_chain(s1.envs, s1.current, name.lexeme, v) {
                        Some((envs2, prev)) => (StateModel { envs: envs2, ..s1 }, Ok(prev)),
                        None => (
                            s1,
                            Err(
                                EventModel::RunErr {
                                    token: name,
                                    message: msg_undefined_variable(name.lexeme),
                                },
                            ),
                        ),
                    },
                }
            },
            ExprModel::Call { callee, paren, arguments } => {
                let (s1, rc) = sem_eval(s, *callee, fl);
                match rc {
                    Err(ev) => (s1, Err(ev)),
                    Ok(cv) => {
                        let (s2, ra) = sem_eval_list(s1, arguments, 0, fl);
                        match ra {
                            Err(ev) => (s2, Err(ev)),
                            Ok(avs) => match cv {
                                ValueModel::Fun(f) => if avs.len() != spec_arity(f) {
                                    (
                                        s2,
                                        Err(
                                            EventModel::RunErr {
                                                token: paren,
                                                message: msg_arity(
                                                    spec_arity(f),
                                                    avs.len() as int,
                                                ),
                                            },
                                        ),
                                    )
                                } else {
                                    sem_call(s2, f, avs, fl)
                                },
                                _ => (
                                    s2,
                                    Err(
                                        EventModel::RunErr {
                                            token: paren,
                                            message: "Can only call functions and classes"@,
                                        },
                                    ),
                                ),
                            },
                        }
                    },
                }
            },
            ExprModel::Nil => (s, Err(EventModel::ParseErr("Can't visit Nil expression!"@))),
        }
    }
}

/// Evaluate the expressions from index `i` on, left to right,
/// collecting their values.
pub open spec fn sem_eval_list(s: StateModel, es: Seq<ExprModel>, i: int, fuel: nat) -> (
    StateModel,
    Result<Seq<ValueModel>, EventModel>,
)
    decreases fuel,
{
    if fuel == 0 {
        (s, Err(EventModel::Halt))
    } else if i < 0 || i >= es.len() {
        (s, Ok(Seq::empty()))
    } else {
        let fl = (fuel - 1) as nat;
        let (s1, r) = sem_eval(s, es[i], fl);
        match r {
            Err(ev) => (s1, Err(ev)),
            Ok(v) => {
                let (s2, rr) = sem_eval_list(s1, es, i + 1, fl);
                match rr {
                    Err(ev) => (s2, Err(ev)),
                    Ok(vs) => (s2, Ok(seq![v] + vs)),
                }
            },
        }
    }
}

/// Invoke a callable on evaluated arguments. The native clock returns
/// the state's clock reading; a user function runs its body in a
/// fresh scope chained to the scope it captured, and the caller's
/// scope is current again afterwards. A caught `Ret` event becomes
/// the call's value; a body that falls through yields nil.
pub open spec fn sem_call(s: StateModel, f: FunModel, args: Seq<ValueModel>, fuel: nat) -> (
    StateModel,
    Result<ValueModel, EventModel>,
)
    decreases fuel,
{
    if fuel == 0 {
        (s, Err(EventModel::Halt))
    } else {
        let fl = (fuel - 1) as nat;
        match f {
            FunModel::Native { kind, .. } => match kind {
                NativeKind::Clock => (s, Ok(ValueModel::Num(s.clock))),
            },
            FunModel::User { params, body, closure, .. } => {
                let s1 = push_scope(s, bind_args(params, args), closure);
                let (s2, r) = sem_exec_seq(s1, body, 0, fl);
                let s3 = StateModel { current: s.current, ..s2 };
                match r {
                    Err(EventModel::Ret(v)) => (s3, Ok(v)),
                    Err(ev) => (s3, Err(ev)),
                    Ok(_) => (s3, Ok(ValueModel::Nil)),
                }
            },
        }
    }
}

/// Execute one statement.
pub open spec fn sem_exec(s: StateModel, st: StmtModel, fuel: nat) -> (StateModel, Result<
    ValueModel,
    EventModel,
>)
    decreases fuel,
{
    if fuel == 0 {
        (s, Err(EventModel::Halt))
    } else {
        let fl = (fuel - 1) as nat;
        match st {
            StmtModel::ExprStmt { expr } => sem_eval(s, expr, fl),
            StmtModel::PrintStmt { expr } => {
                let (s1, r) = sem_eval(s, expr, fl);
                match r {
                    Err(ev) => (s1, Err(ev)),
                    Ok(v) => (
                        StateModel { output: s1.output.push(spec_val_repr(v)), ..s1 },
                        Ok(v),
                    ),
                }
            },
            StmtModel::VarStmt { name, initializer } => match initializer {
                None => (define_in(s, name.lexeme, ValueModel::Nil), Ok(ValueModel::Nil)),
                Some(e) => {
                    let (s1, r) = sem_eval(s, e, fl);
                    match r {
                        Err(ev) => (s1, Err(ev)),
                        Ok(v) => (define_in(s1, name.lexeme, v), Ok(ValueModel::Nil)),
                    }
                },
            },
            StmtModel::BlockStmt { declarations } => {
                let s1 = push_scope(s, Map::empty(), s.current);
                let (s2, r) = sem_exec_seq(s1, declarations, 0, fl);
                (StateModel { current: s.current, ..s2 }, r)
            },
            StmtModel::IfStmt { condition, then_branch, else_branch } => {
                let (s1, r) = sem_eval(s, condition, fl);
                match r {
                    Err(ev) => (s1, Err(ev)),
                    Ok(v) => if spec_truthy(v) {
                        sem_exec(s1, *then_branch, fl)
                    } else {
                        match else_branch {
                            Some(e) => sem_exec(s1, *e, fl),
                            None => (s1, Ok(ValueModel::Nil)),
                        }
                    },
                }
            },
            StmtModel::WhileStmt { condition, body } => sem_while(s, condition, *body, fl),
            StmtModel::FunctionStmt { name, parameters, body } => {
                let f = ValueModel::Fun(
                    FunModel::User { name, params: parameters, body, closure: s.current },
                );
                (define_in(s, name.lexeme, f), Ok(ValueModel::Nil))
            },
            StmtModel::ReturnStmt { keyword, value } => {
                if value == ExprModel::Nil {
                    (s, Err(EventModel::Ret(ValueModel::Nil)))
                } else {
                    let (s1, r) = sem_eval(s, value, fl);
                    match r {
                        Err(ev) => (s1, Err(ev)),
                        Ok(v) => (s1, Err(EventModel::Ret(v))),
                    }
                }
            },
        }
    }
}

/// Execute the statements from index `i` on, in the current scope,
/// stopping at the first out-of-band event. The value is the last
/// statement's value, or nil for an empty sequence.
pub open spec fn sem_exec_seq(s: StateModel, ss: Seq<StmtModel>, i: int, fuel: nat) -> (
    StateModel,
    Result<ValueModel, EventModel>,
)
    decreases fuel,
{
    if fuel == 0 {
        (s, Err(EventModel::Halt))
    } else if i < 0 || i >= ss.len() {
        (s, Ok(ValueModel::Nil))
    } else {
        let fl = (fuel - 1) as nat;
        let (s1, r) = sem_exec(s, ss[i], fl);
        match r {
            Err(ev) => (s1, Err(ev)),
            Ok(v) => if i + 1 >= ss.len() {
                (s1, Ok(v))
            } else {
                sem_exec_seq(s1, ss, i + 1, fl)
            },
        }
    }
}

/// Run the top-level statements from index `i` on, each with the full
/// budget. An out-of-band event — a runtime error, a stray `return`,
/// or fuel exhaustion — is reported to the diagnostics sink and
/// execution continues with the next statement.
pub open spec fn sem_interpret(
    s: StateModel,
    h: HandlerModel,
    ss: Seq<StmtModel>,
    i: int,
    fuel: nat,
) -> (StateModel, HandlerModel)
    decreases ss.len() - i,
{
    if i < 0 || i >= ss.len() {
        (s, h)
    } else {
        let (s1, r) = sem_exec(s, ss[i], fuel);
        let h1 = match r {
            Ok(_) => h,
            Err(ev) => HandlerModel {
                had_error: true,
                log: h.log.push(DiagModel::Runtime { event: ev }),
            },
        };
        sem_interpret(s1, h1, ss, i + 1, fuel)
    }
}

/// Run a while loop: evaluate the condition, stop with nil once it is
/// falsy, otherwise run the body and loop. Any out-of-band event from
/// condition or body, the `return` signal included, propagates.
pub open spec fn sem_while(s: StateModel, condition: ExprModel, body: StmtModel, fuel: nat) -> (
    StateModel,
    Result<ValueModel, EventModel>,
)
    decreases fuel,
{
    if fuel == 0 {
        (s, Err(EventModel::Halt))
    } else {
        let fl = (fuel - 1) as nat;
        let (s1, r) = sem_eval(s, condition, fl);
        match r {
            Err(ev) => (s1, Err(ev)),
            Ok(v) => if !spec_truthy(v) {
                (s1, Ok(ValueModel::Nil))
            } else {
                let (s2, rb) = sem_exec(s1, body, fl);
                match rb {
                    Err(ev) => (s2, Err(ev)),
                    Ok(_) => sem_while(s2, condition, body, fl),
                }
            },
        }
    }
}

} // verus!
