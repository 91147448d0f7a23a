//! Runtime values: strings, numbers, booleans, callables and nil,
//! together with truthiness, the language's equality, and text
//! rendering.
//!
//! A user function shares its parameter list and body with the
//! declaration that produced it through `Rc`, and records the scope it
//! captured as an index into the interpreter's scope arena.

use vstd::prelude::*;

use std::rc::Rc;

use crate::ast::{Stmt, StmtModel, stmts_view, tokens_view};
use crate::numbers::{spec_num_eq, spec_num_repr, num_eq, num_repr};
use crate::token::{Token, TokenModel};

verus! {

/// The host-provided functions an interpreter offers.
#[derive(Clone, Copy, PartialEq, Eq, Structural, Debug)]
pub enum NativeKind {
    /// Seconds since the epoch, as the host last reported them.
    Clock,
}

/// A host-provided function.
#[derive(PartialEq, Debug)]
pub struct NativeCallable {
    pub arity: usize,
    pub kind: NativeKind,
}

/// A function declared by the program: its name, parameters, body, and
/// the scope it captured at declaration time.
#[derive(PartialEq, Debug)]
pub struct UserCallable {
    pub name: Token,
    pub parameters: Rc<Vec<Token>>,
    pub body: Rc<Vec<Stmt>>,
    pub closure: usize,
}

/// A callable value.
#[derive(PartialEq, Debug)]
pub enum LoxFunction {
    NativeFunction(NativeCallable),
    UserFunction(UserCallable),
}

/// A runtime value. A number holds the bit pattern of an IEEE-754
/// double.
#[derive(PartialEq, Debug)]
pub enum Interpretable {
    String(String),
    Number(u64),
    Boolean(bool),
    Callable(LoxFunction),
    Nil,
}

/// Mathematical model of a callable.
#[verifier::ext_equal]
pub ghost enum FunModel {
    Native { arity: int, kind: NativeKind },
    User { name: TokenModel, params: Seq<TokenModel>, body: Seq<StmtModel>, closure: int },
}

/// Mathematical model of a runtime value.
#[verifier::ext_equal]
pub ghost enum ValueModel {
    Str(Seq<char>),
    Num(u64),
    Bool(bool),
    Fun(FunModel),
    Nil,
}

impl View for UserCallable {
    type V = FunModel;

    open spec fn view(&self) -> FunModel {
        FunModel::User {
            name: self.name@,
            params: tokens_view(self.parameters@),
            body: stmts_view(self.body@),
            closure: self.closure as int,
        }
    }
}

impl View for LoxFunction {
    type V = FunModel;

    open spec fn view(&self) -> FunModel {
        match self {
            LoxFunction::NativeFunction(n) => FunModel::Native {
                arity: n.arity as int,
                kind: n.kind,
            },
            LoxFunction::UserFunction(u) => u@,
        }
    }
}

impl View for Interpretable {
    type V = ValueModel;

    open spec fn view(&self) -> ValueModel {
        match self {
            Interpretable::String(s) => ValueModel::Str(s@),
            Interpretable::Number(n) => ValueModel::Num(*n),
            Interpretable::Boolean(b) => ValueModel::Bool(*b),
            Interpretable::Callable(f) => ValueModel::Fun(f@),
            Interpretable::Nil => ValueModel::Nil,
        }
    }
}

/// Relies on Rc::clone: the returned handle refers to the same list.
#[verifier::external_body]
fn share_tokens(v: &Rc<Vec<Token>>) -> (r: Rc<Vec<Token>>)
    ensures
        r == v,
{
    Rc::clone(v)
}

/// Relies on Rc::clone: the returned handle refers to the same list.
#[verifier::external_body]
fn share_stmts(v: &Rc<Vec<Stmt>>) -> (r: Rc<Vec<Stmt>>)
    ensures
        r == v,
{
    Rc::clone(v)
}

impl Clone for UserCallable {
    fn clone(&self) -> (r: Self)
        ensures
            r@ == self@,
    {
        UserCallable {
            name: self.name.clone(),
            parameters: share_tokens(&self.parameters),
            body: share_stmts(&self.body),
            closure: self.closure,
        }
    }
}

impl Clone for LoxFunction {
    fn clone(&self) -> (r: Self)
        ensures
            r@ == self@,
    {
        match self {
            LoxFunction::NativeFunction(n) => LoxFunction::NativeFunction(NativeCallable {
                arity: n.arity,
                kind: n.kind,
            }),
            LoxFunction::UserFunction(u) => LoxFunction::UserFunction(u.clone()),
        }
    }
}

impl Clone for Interpretable {
    fn clone(&self) -> (r: Self)
        ensures
            r@ == self@,
    {
        match self {
            Interpretable::String(s) => Interpretable::String(s.clone()),
            Interpretable::Number(n) => Interpretable::Number(*n),
            Interpretable::Boolean(b) => Interpretable::Boolean(*b),
            Interpretable::Callable(f) => Interpretable::Callable(f.clone()),
            Interpretable::Nil => Interpretable::Nil,
        }
    }
}

/// Models of a sequence of values, elementwise.
pub open spec fn values_view(vs: Seq<Interpretable>) -> Seq<ValueModel> {
    vs.map_values(|v: Interpretable| v@)
}

/// Truthiness: nil and false are falsy; every other value, including
/// zero and the empty string, is truthy.
pub open spec fn spec_truthy(v: ValueModel) -> bool {
    match v {
        ValueModel::Bool(b) => b,
        ValueModel::Nil => false,
        _ => true,
    }
}

/// The language's equality: nil equals only nil; booleans and strings
/// compare by value; numbers compare as IEEE-754 doubles; values of
/// different types are never equal; callables are never equal to one
/// another.
pub open spec fn spec_val_eq(a: ValueModel, b: ValueModel) -> bool {
    match (a, b) {
        (ValueModel::Str(x), ValueModel::Str(y)) => x == y,
        (ValueModel::Num(x), ValueModel::Num(y)) => spec_num_eq(x, y),
        (ValueModel::Bool(x), ValueModel::Bool(y)) => x == y,
        (ValueModel::Nil, ValueModel::Nil) => true,
        _ => false,
    }
}

/// Arity of a callable.
pub open spec fn spec_arity(f: FunModel) -> int {
    match f {
        FunModel::Native { arity, .. } => arity,
        FunModel::User { params, .. } => params.len() as int,
    }
}

/// Text of a callable.
pub open spec fn spec_fun_repr(f: FunModel) -> Seq<char> {
    match f {
        FunModel::Native { .. } => "<fn native>"@,
        FunModel::User { name, .. } => "<fn "@ + name.lexeme + ">"@,
    }
}

/// Text of a value, as the `print` statement shows it: strings are
/// quoted, numbers take their shortest decimal form, nil prints as
/// `nil`.
pub open spec fn spec_val_repr(v: ValueModel) -> Seq<char> {
    match v {
        ValueModel::Str(s) => "\""@ + s + "\""@,
        ValueModel::Num(n) => spec_num_repr(n),
        ValueModel::Bool(b) => if b {
            "true"@
        } else {
            "false"@
        },
        ValueModel::Fun(f) => spec_fun_repr(f),
        ValueModel::Nil => "nil"@,
    }
}

impl LoxFunction {
    pub fn new_native_function(arity: usize, kind: NativeKind) -> (r: Self)
        ensures
            r@ == (FunModel::Native { arity: arity as int, kind }),
    {
        LoxFunction::NativeFunction(NativeCallable { arity, kind })
    }

    pub fn new_user_function(
        name: &Token,
        parameters: &Rc<Vec<Token>>,
        body: &Rc<Vec<Stmt>>,
        closure: usize,
    ) -> (r: Self)
        ensures
            r@ == (FunModel::User {
                name: name@,
                params: tokens_view(parameters@),
                body: stmts_view(body@),
                closure: closure as int,
            }),
    {
        LoxFunction::UserFunction(UserCallable {
            name: name.clone(),
            parameters: share_tokens(parameters),
            body: share_stmts(body),
            closure,
        })
    }

    /// The number of arguments this callable accepts.
    pub fn arity(&self) -> (r: usize)
        ensures
            r as int == spec_arity(self@),
    {
        match self {
            LoxFunction::NativeFunction(n) => n.arity,
            LoxFunction::UserFunction(u) => u.parameters.len(),
        }
    }

    /// Text of this callable.
    pub fn repr(&self) -> (r: String)
        ensures
            r@ == spec_fun_repr(self@),
    {
        match self {
            LoxFunction::NativeFunction(_) => "<fn native>".to_owned(),
            LoxFunction::UserFunction(u) => {
                let mut out = "<fn ".to_owned();
                out.append(u.name.lexeme.as_str());
                out.append(">");
                out
            },
        }
    }
}

impl Interpretable {
    /// Whether the value counts as true in a condition.
    pub fn is_truthy(&self) -> (r: bool)
        ensures
            r == spec_truthy(self@),
    {
        match self {
            Interpretable::Boolean(b) => *b,
            Interpretable::Nil => false,
            _ => true,
        }
    }

    /// Whether this value equals the other under the language's
    /// equality.
    pub fn equals(&self, other: &Interpretable) -> (r: bool)
        ensures
            r == spec_val_eq(self@, other@),
    {
        match (self, other) {
            (Interpretable::String(x), Interpretable::String(y)) => *x == *y,
            (Interpretable::Number(x), Interpretable::Number(y)) => num_eq(*x, *y),
            (Interpretable::Boolean(x), Interpretable::Boolean(y)) => x == y,
            (Interpretable::Nil, Interpretable::Nil) => true,
            _ => false,
        }
    }

    /// Text of this value.
    pub fn repr(&self) -> (r: String)
        ensures
            r@ == spec_val_repr(self@),
    {
        match self {
            Interpretable::String(s) => {
                let mut out = "\"".to_owned();
                out.append(s.as_str());
                out.append("\"");
                out
            },
            Interpretable::Number(n) => num_repr(*n),
            Interpretable::Boolean(b) => if *b {
                "true".to_owned()
            } else {
                "false".to_owned()
            },
            Interpretable::Callable(f) => f.repr(),
            Interpretable::Nil => "nil".to_owned(),
        }
    }
}

} // verus!
