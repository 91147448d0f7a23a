//! The abstract syntax tree: expression and statement nodes as the
//! parser builds them, and their ghost models.
//!
//! Nodes own their children; a function declaration shares its
//! parameter list and body through `Rc` so that a function value can
//! capture them without copying the tree.

use vstd::prelude::*;

use std::rc::Rc;

use crate::token::{Literal, LitModel, Token, TokenModel};

verus! {

/// An expression node. `Nil` is the sentinel for an absent expression,
/// used by `return` statements without a value.
#[derive(PartialEq, Debug)]
pub enum Expr {
    Binary { left: Box<Expr>, operator: Token, right: Box<Expr> },
    Call { callee: Box<Expr>, paren: Token, arguments: Vec<Expr> },
    Grouping { expression: Box<Expr> },
    LiteralValue { value: Literal },
    Unary { operator: Token, right: Box<Expr> },
    Variable { name: Token },
    Assignment { name: Token, value: Box<Expr> },
    Logical { left: Box<Expr>, operator: Token, right: Box<Expr> },
    Nil,
}

/// A statement node.
#[derive(PartialEq, Debug)]
pub enum Stmt {
    ExprStmt { expr: Box<Expr> },
    IfStmt { condition: Box<Expr>, then_branch: Box<Stmt>, else_branch: Box<Option<Stmt>> },
    PrintStmt { expr: Box<Expr> },
    VarStmt { name: Token, initializer: Option<Expr> },
    BlockStmt { declarations: Vec<Stmt> },
    WhileStmt { condition: Box<Expr>, body: Box<Stmt> },
    FunctionStmt { name: Token, parameters: Rc<Vec<Token>>, body: Rc<Vec<Stmt>> },
    ReturnStmt { keyword: Token, value: Box<Expr> },
}

/// Mathematical model of an expression.
#[verifier::ext_equal]
pub ghost enum ExprModel {
    Binary { left: Box<ExprModel>, operator: TokenModel, right: Box<ExprModel> },
    Call { callee: Box<ExprModel>, paren: TokenModel, arguments: Seq<ExprModel> },
    Grouping { expression: Box<ExprModel> },
    LiteralValue { value: LitModel },
    Unary { operator: TokenModel, right: Box<ExprModel> },
    Variable { name: TokenModel },
    Assignment { name: TokenModel, value: Box<ExprModel> },
    Logical { left: Box<ExprModel>, operator: TokenModel, right: Box<ExprModel> },
    Nil,
}

/// Mathematical model of a statement.
#[verifier::ext_equal]
pub ghost enum StmtModel {
    ExprStmt { expr: ExprModel },
    IfStmt { condition: ExprModel, then_branch: Box<StmtModel>, else_branch: Option<Box<StmtModel>> },
    PrintStmt { expr: ExprModel },
    VarStmt { name: TokenModel, initializer: Option<ExprModel> },
    BlockStmt { declarations: Seq<StmtModel> },
    WhileStmt { condition: ExprModel, body: Box<StmtModel> },
    FunctionStmt { name: TokenModel, parameters: Seq<TokenModel>, body: Seq<StmtModel> },
    ReturnStmt { keyword: TokenModel, value: ExprModel },
}

/// Model of an expression tree.
pub open spec fn expr_view(e: Expr) -> ExprModel
    decreases e,
{
    match e {
        Expr::Binary { left, operator, right } => ExprModel::Binary {
            left: Box::new(expr_view(*left)),
            operator: operator@,
            right: Box::new(expr_view(*right)),
        },
        Expr::Call { callee, paren, arguments } => ExprModel::Call {
            callee: Box::new(expr_view(*callee)),
            paren: paren@,
            arguments: exprs_view(arguments@),
        },
        Expr::Grouping { expression } => ExprModel::Grouping {
            expression: Box::new(expr_view(*expression)),
        },
        Expr::LiteralValue { value } => ExprModel::LiteralValue { value: value@ },
        Expr::Unary { operator, right } => ExprModel::Unary {
            operator: operator@,
            right: Box::new(expr_view(*right)),
        },
        Expr::Variable { name } => ExprModel::Variable { name: name@ },
        Expr::Assignment { name, value } => ExprModel::Assignment {
            name: name@,
            value: Box::new(expr_view(*value)),
        },
        Expr::Logical { left, operator, right } => ExprModel::Logical {
            left: Box::new(expr_view(*left)),
            operator: operator@,
            right: Box::new(expr_view(*right)),
        },
        Expr::Nil => ExprModel::Nil,
    }
}

/// Models of a sequence of expressions, elementwise.
pub open spec fn exprs_view(es: Seq<Expr>) -> Seq<ExprModel>
    decreases es,
{
    if es.len() == 0 {
        Seq::empty()
    } else {
        exprs_view(es.subrange(0, es.len() - 1)).push(expr_view(es[es.len() - 1]))
    }
}

/// Model of a statement tree.
pub open spec fn stmt_view(s: Stmt) -> StmtModel
    decreases s,
{
    match s {
        Stmt::ExprStmt { expr } => StmtModel::ExprStmt { expr: expr_view(*expr) },
        Stmt::IfStmt { condition, then_branch, else_branch } => StmtModel::IfStmt {
            condition: expr_view(*condition),
            then_branch: Box::new(stmt_view(*then_branch)),
            else_branch: match *else_branch {
                Some(e) => Some(Box::new(stmt_view(e))),
                None => None,
            },
        },
        Stmt::PrintStmt { expr } => StmtModel::PrintStmt { expr: expr_view(*expr) },
        Stmt::VarStmt { name, initializer } => StmtModel::VarStmt {
            name: name@,
            initializer: match initializer {
                Some(e) => Some(expr_view(e)),
                None => None,
            },
        },
        Stmt::BlockStmt { declarations } => StmtModel::BlockStmt {
            declarations: stmts_view(declarations@),
        },
        Stmt::WhileStmt { condition, body } => StmtModel::WhileStmt {
            condition: expr_view(*condition),
            body: Box::new(stmt_view(*body)),
        },
        Stmt::FunctionStmt { name, parameters, body } => StmtModel::FunctionStmt {
            name: name@,
            parameters: tokens_view(parameters@),
            body: stmts_view(body@),
        },
        Stmt::ReturnStmt { keyword, value } => StmtModel::ReturnStmt {
            keyword: keyword@,
            value: expr_view(*value),
        },
    }
}

/// Models of a sequence of statements, elementwise.
pub open spec fn stmts_view(ss: Seq<Stmt>) -> Seq<StmtModel>
    decreases ss,
{
    if ss.len() == 0 {
        Seq::empty()
    } else {
        stmts_view(ss.subrange(0, ss.len() - 1)).push(stmt_view(ss[ss.len() - 1]))
    }
}

/// Models of a sequence of tokens, elementwise.
pub open spec fn tokens_view(ts: Seq<Token>) -> Seq<TokenModel> {
    ts.map_values(|t: Token| t@)
}

impl View for Expr {
    type V = ExprModel;

    open spec fn view(&self) -> ExprModel {
        expr_view(*self)
    }
}

impl View for Stmt {
    type V = StmtModel;

    open spec fn view(&self) -> StmtModel {
        stmt_view(*self)
    }
}

/// The models of a sequence of expressions line up with the models of
/// its elements.
pub proof fn lemma_exprs_view(es: Seq<Expr>)
    ensures
        exprs_view(es).len() == es.len(),
        forall|i: int| 0 <= i < es.len() ==> #[trigger] exprs_view(es)[i] == expr_view(es[i]),
    decreases es.len(),
{
    if es.len() > 0 {
        lemma_exprs_view(es.subrange(0, es.len() - 1));
    }
}

/// The models of a sequence of statements line up with the models of
/// its elements.
pub proof fn lemma_stmts_view(ss: Seq<Stmt>)
    ensures
        stmts_view(ss).len() == ss.len(),
        forall|i: int| 0 <= i < ss.len() ==> #[trigger] stmts_view(ss)[i] == stmt_view(ss[i]),
    decreases ss.len(),
{
    if ss.len() > 0 {
        lemma_stmts_view(ss.subrange(0, ss.len() - 1));
    }
}

/// Appending an expression appends its model.
pub proof fn lemma_exprs_view_push(es: Seq<Expr>, x: Expr)
    ensures
        exprs_view(es.push(x)) == exprs_view(es).push(expr_view(x)),
{
    assert(es.push(x).subrange(0, es.len() as int) =~= es);
}

/// Appending a statement appends its model.
pub proof fn lemma_stmts_view_push(ss: Seq<Stmt>, x: Stmt)
    ensures
        stmts_view(ss.push(x)) == stmts_view(ss).push(stmt_view(x)),
{
    assert(ss.push(x).subrange(0, ss.len() as int) =~= ss);
}

/// Prepending a statement prepends its model.
pub proof fn lemma_stmts_view_prepend(ss: Seq<Stmt>, x: Stmt)
    ensures
        stmts_view(ss.insert(0, x)) == seq![stmt_view(x)] + stmts_view(ss),
    decreases ss.len(),
{
    lemma_stmts_view(ss.insert(0, x));
    lemma_stmts_view(ss);
    assert(stmts_view(ss.insert(0, x)) =~= seq![stmt_view(x)] + stmts_view(ss));
}

/// An expression models to the absent-expression sentinel exactly
/// when it is the sentinel.
pub proof fn lemma_expr_view_nil(e: Expr)
    ensures
        (expr_view(e) == ExprModel::Nil) <==> (e matches Expr::Nil),
{
    match e {
        Expr::Binary { .. } => {},
        Expr::Call { .. } => {},
        Expr::Grouping { .. } => {},
        Expr::LiteralValue { .. } => {},
        Expr::Unary { .. } => {},
        Expr::Variable { .. } => {},
        Expr::Assignment { .. } => {},
        Expr::Logical { .. } => {},
        Expr::Nil => {},
    }
}

impl Expr {
    pub fn new_binary(left: Expr, operator: Token, right: Expr) -> (r: Self)
        ensures
            r@ == (ExprModel::Binary {
                left: Box::new(left@),
                operator: operator@,
                right: Box::new(right@),
            }),
    {
        Expr::Binary { left: Box::new(left), operator, right: Box::new(right) }
    }

    pub fn new_call(callee: Expr, paren: Token, arguments: Vec<Expr>) -> (r: Self)
        ensures
            r@ == (ExprModel::Call {
                callee: Box::new(callee@),
                paren: paren@,
                arguments: exprs_view(arguments@),
            }),
    {
        Expr::Call { callee: Box::new(callee), paren, arguments }
    }

    pub fn new_grouping(expression: Expr) -> (r: Self)
        ensures
            r@ == (ExprModel::Grouping { expression: Box::new(expression@) }),
    {
        Expr::Grouping { expression: Box::new(expression) }
    }

    pub fn new_literal(value: Literal) -> (r: Self)
        ensures
            r@ == (ExprModel::LiteralValue { value: value@ }),
    {
        Expr::LiteralValue { value }
    }

    pub fn new_unary(operator: Token, right: Expr) -> (r: Self)
        ensures
            r@ == (ExprModel::Unary { operator: operator@, right: Box::new(right@) }),
    {
        Expr::Unary { operator, right: Box::new(right) }
    }

    pub fn new_variable(name: Token) -> (r: Self)
        ensures
            r@ == (ExprModel::Variable { name: name@ }),
    {
        Expr::Variable { name }
    }

    pub fn new_assignment(name: Token, value: Expr) -> (r: Self)
        ensures
            r@ == (ExprModel::Assignment { name: name@, value: Box::new(value@) }),
    {
        Expr::Assignment { name, value: Box::new(value) }
    }

    pub fn new_logical(left: Expr, operator: Token, right: Expr) -> (r: Self)
        ensures
            r@ == (ExprModel::Logical {
                left: Box::new(left@),
                operator: operator@,
                right: Box::new(right@),
            }),
    {
        Expr::Logical { left: Box::new(left), operator, right: Box::new(right) }
    }
}

impl Stmt {
    pub fn new_expr_stmt(expr: Expr) -> (r: Self)
        ensures
            r@ == (StmtModel::ExprStmt { expr: expr@ }),
    {
        Stmt::ExprStmt { expr: Box::new(expr) }
    }

    pub fn new_if_stmt(condition: Expr, then_branch: Stmt, else_branch: Option<Stmt>) -> (r: Self)
        ensures
            r@ == (StmtModel::IfStmt {
                condition: condition@,
                then_branch: Box::new(then_branch@),
                else_branch: match else_branch {
                    Some(e) => Some(Box::new(e@)),
                    None => None,
                },
            }),
    {
        Stmt::IfStmt {
            condition: Box::new(condition),
            then_branch: Box::new(then_branch),
            else_branch: Box::new(else_branch),
        }
    }

    pub fn new_print_stmt(expr: Expr) -> (r: Self)
        ensures
            r@ == (StmtModel::PrintStmt { expr: expr@ }),
    {
        Stmt::PrintStmt { expr: Box::new(expr) }
    }

    pub fn new_var_stmt(name: Token, initializer: Option<Expr>) -> (r: Self)
        ensures
            r@ == (StmtModel::VarStmt {
                name: name@,
                initializer: match initializer {
                    Some(e) => Some(e@),
                    None => None,
                },
            }),
    {
        Stmt::VarStmt { name, initializer }
    }

    pub fn new_block_stmt(declarations: Vec<Stmt>) -> (r: Self)
        ensures
            r@ == (StmtModel::BlockStmt { declarations: stmts_view(declarations@) }),
    {
        Stmt::BlockStmt { declarations }
    }

    pub fn new_while_stmt(condition: Expr, body: Stmt) -> (r: Self)
        ensures
            r@ == (StmtModel::WhileStmt { condition: condition@, body: Box::new(body@) }),
    {
        Stmt::WhileStmt { condition: Box::new(condition), body: Box::new(body) }
    }

    pub fn new_function(name: Token, parameters: Rc<Vec<Token>>, body: Rc<Vec<Stmt>>) -> (r: Self)
        ensures
            r@ == (StmtModel::FunctionStmt {
                name: name@,
                parameters: tokens_view(parameters@),
                body: stmts_view(body@),
            }),
    {
        Stmt::FunctionStmt { name, parameters, body }
    }

    pub fn new_return_stmt(keyword: Token, value: Expr) -> (r: Self)
        ensures
            r@ == (StmtModel::ReturnStmt { keyword: keyword@, value: value@ }),
    {
        Stmt::ReturnStmt { keyword, value: Box::new(value) }
    }
}

} // verus!
