//! Laws of the language, stated over the semantic model and proved
//! from it.

use vstd::prelude::*;

use crate::ast::{ExprModel, StmtModel};
use crate::error::EventModel;
use crate::numbers::{spec_is_nan, spec_num_add};
use crate::semantics::{
    StateModel,
    bind_args,
    define_in,
    msg_invalid_operands,
    push_scope,
    sem_binary,
    sem_call,
    sem_exec,
    sem_exec_seq,
    sem_eval,
    sem_while,
};
use crate::token::{TokenKind, TokenModel};
use crate::value::{FunModel, ValueModel, spec_truthy, spec_val_eq};

verus! {

/// `+` on two numbers adds them as IEEE-754 doubles.
pub proof fn lemma_plus_adds_numbers(op: TokenModel, le: ExprModel, re: ExprModel, a: u64, b: u64)
    requires
        op.kind == TokenKind::Plus,
    ensures
        sem_binary(op, le, re, ValueModel::Num(a), ValueModel::Num(b)) == Result::<
            ValueModel,
            EventModel,
        >::Ok(ValueModel::Num(spec_num_add(a, b))),
{
}

/// `+` on two strings concatenates them.
pub proof fn lemma_plus_concatenates_strings(
    op: TokenModel,
    le: ExprModel,
    re: ExprModel,
    x: Seq<char>,
    y: Seq<char>,
)
    requires
        op.kind == TokenKind::Plus,
    ensures
        sem_binary(op, le, re, ValueModel::Str(x), ValueModel::Str(y)) == Result::<
            ValueModel,
            EventModel,
        >::Ok(ValueModel::Str(x + y)),
{
}

/// `+` on any other pairing of operand types is a type error naming
/// the operator and both operand expressions.
pub proof fn lemma_plus_type_error(op: TokenModel, le: ExprModel, re: ExprModel, l: ValueModel, r: ValueModel)
    requires
        op.kind == TokenKind::Plus,
        !(l is Num && r is Num),
        !(l is Str && r is Str),
    ensures
        sem_binary(op, le, re, l, r) == Result::<ValueModel, EventModel>::Err(
            EventModel::RunErr { token: op, message: msg_invalid_operands(le, re, op.lexeme) },
        ),
{
}

/// Truthiness: nil and false are the only falsy values; zero, the
/// empty string, and every callable are truthy.
pub proof fn lemma_truthiness(v: ValueModel)
    ensures
        spec_truthy(v) <==> !(v == ValueModel::Nil || v == ValueModel::Bool(false)),
{
}

/// Equality is type-strict: values of different types are never
/// equal; in particular a number never equals a string. Nil equals
/// nil.
pub proof fn lemma_equality_type_strict(a: ValueModel, b: ValueModel)
    ensures
        spec_val_eq(a, b) ==> ((a is Num && b is Num) || (a is Str && b is Str) || (a is Bool
            && b is Bool) || (a is Nil && b is Nil)),
        spec_val_eq(ValueModel::Nil, ValueModel::Nil),
{
}

/// Equality is reflexive on every value that is not a callable and
/// not a NaN number. (Callables are never equal to one another, and a
/// NaN compares unequal even to itself, as IEEE-754 prescribes.)
pub proof fn lemma_equality_reflexive(v: ValueModel)
    requires
        !(v is Fun),
        match v {
            ValueModel::Num(n) => !spec_is_nan(n),
            _ => true,
        },
    ensures
        spec_val_eq(v, v),
{
}

/// Equality is symmetric.
pub proof fn lemma_equality_symmetric(a: ValueModel, b: ValueModel)
    ensures
        spec_val_eq(a, b) == spec_val_eq(b, a),
{
}

/// A block executes in a scope of its own: whatever its statements
/// did, the scope that was current before the block is current again
/// after it, so names declared inside the block are invisible after
/// it ends.
pub proof fn lemma_block_restores_scope(s: StateModel, decls: Seq<StmtModel>, fuel: nat)
    ensures
        sem_exec(s, StmtModel::BlockStmt { declarations: decls }, fuel).0.current == s.current,
{
}

/// A declaration writes the innermost scope alone: every other scope
/// keeps its table, so re-declaring a shadowed name never mutates the
/// outer binding.
pub proof fn lemma_declaration_is_local(s: StateModel, name: Seq<char>, v: ValueModel)
    ensures
        define_in(s, name, v).envs.len() == s.envs.len(),
        forall|j: int| 0 <= j < s.envs.len() && j != s.current ==> define_in(s, name, v).envs[j]
            == s.envs[j],
        0 <= s.current < s.envs.len() ==> define_in(s, name, v).envs[s.current].bindings == s.envs[
            s.current
        ].bindings.insert(name, v),
        define_in(s, name, v).current == s.current,
{
}

/// Declaring a function captures the scope current at the
/// declaration, by reference: the function value records the scope's
/// index, not a copy of its contents.
pub proof fn lemma_function_captures_current_scope(
    s: StateModel,
    name: TokenModel,
    params: Seq<TokenModel>,
    body: Seq<StmtModel>,
    fuel: nat,
)
    requires
        fuel > 0,
    ensures
        sem_exec(s, StmtModel::FunctionStmt { name, parameters: params, body }, fuel) == (
            define_in(
                s,
                name.lexeme,
                ValueModel::Fun(
                    FunModel::User { name, params, body, closure: s.current },
                ),
            ),
            Result::<ValueModel, EventModel>::Ok(ValueModel::Nil),
        ),
{
}

/// Calling a function runs its body in a fresh scope chained to the
/// scope the function captured — not to the caller's scope — with the
/// parameters bound to the arguments; afterwards the caller's scope
/// is current again. A `return` signal caught at this boundary is the
/// call's value; a body that falls through yields nil.
pub proof fn lemma_call_uses_closure_scope(
    s: StateModel,
    name: TokenModel,
    params: Seq<TokenModel>,
    body: Seq<StmtModel>,
    closure: int,
    args: Seq<ValueModel>,
    fuel: nat,
)
    requires
        fuel > 0,
    ensures
        ({
            let s1 = push_scope(s, bind_args(params, args), closure);
            let (s2, r) = sem_exec_seq(s1, body, 0, (fuel - 1) as nat);
            let s3 = StateModel { current: s.current, ..s2 };
            &&& s1.envs[s1.current].parent == Some(closure)
            &&& sem_call(s, FunModel::User { name, params, body, closure }, args, fuel) == (
                s3,
                match r {
                    Err(EventModel::Ret(v)) => Result::<ValueModel, EventModel>::Ok(v),
                    Err(ev) => Err(ev),
                    Ok(_) => Ok(ValueModel::Nil),
                },
            )
        }),
{
}

/// A while loop stops, leaving the state exactly as the condition's
/// evaluation left it, as soon as the condition turns falsy.
pub proof fn lemma_while_stops_on_falsy(
    s: StateModel,
    condition: ExprModel,
    body: StmtModel,
    fuel: nat,
)
    requires
        fuel > 0,
        sem_eval(s, condition, (fuel - 1) as nat).1 matches Ok(v) && !spec_truthy(v),
    ensures
        sem_while(s, condition, body, fuel) == (
            sem_eval(s, condition, (fuel - 1) as nat).0,
            Result::<ValueModel, EventModel>::Ok(ValueModel::Nil),
        ),
{
}

} // verus!
