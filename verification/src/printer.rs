//! Rendering of syntax trees as text: a parenthesized, operator-first
//! form for compound expressions, used by diagnostics and by the tree
//! formatter.

use vstd::prelude::*;

use crate::ast::{Expr, ExprModel, exprs_view, lemma_exprs_view};
use crate::numbers::spec_num_repr;
use crate::numbers::num_repr;
use crate::token::{Literal, LitModel};

verus! {

/// Text of a literal: strings are quoted, numbers take their shortest
/// decimal form, an absent value prints as `Nil`.
pub open spec fn spec_lit_repr(l: LitModel) -> Seq<char> {
    match l {
        LitModel::Str(s) => "\""@ + s + "\""@,
        LitModel::Num(n) => spec_num_repr(n),
        LitModel::Bool(b) => if b {
            "true"@
        } else {
            "false"@
        },
        LitModel::Nil => "Nil"@,
    }
}

/// Text of an expression tree.
pub open spec fn spec_expr_repr(e: ExprModel) -> Seq<char>
    decreases e,
{
    match e {
        ExprModel::Binary { left, operator, right } => "("@ + operator.lexeme + " "@
            + spec_expr_repr(*left) + " "@ + spec_expr_repr(*right) + ")"@,
        ExprModel::Call { callee, paren, arguments } => "(call "@ + spec_expr_repr(*callee)
            + " ["@ + spec_args_repr(arguments) + "])"@,
        ExprModel::Grouping { expression } => "(group "@ + spec_expr_repr(*expression) + ")"@,
        ExprModel::LiteralValue { value } => spec_lit_repr(value),
        ExprModel::Unary { operator, right } => "("@ + operator.lexeme + " "@ + spec_expr_repr(
            *right,
        ) + ")"@,
        ExprModel::Variable { name } => name.lexeme,
        ExprModel::Assignment { name, value } => name.lexeme + " = "@ + spec_expr_repr(*value),
        ExprModel::Logical { left, operator, right } => spec_expr_repr(*left) + " "@
            + operator.lexeme + " "@ + spec_expr_repr(*right),
        ExprModel::Nil => "Nil"@,
    }
}

/// Text of an argument list, comma separated.
pub open spec fn spec_args_repr(args: Seq<ExprModel>) -> Seq<char>
    decreases args,
{
    if args.len() == 0 {
        Seq::empty()
    } else if args.len() == 1 {
        spec_expr_repr(args[0])
    } else {
        spec_args_repr(args.subrange(0, args.len() - 1)) + ", "@ + spec_expr_repr(
            args[args.len() - 1],
        )
    }
}

impl Literal {
    /// Text of this literal.
    pub fn repr(&self) -> (r: String)
        ensures
            r@ == spec_lit_repr(self@),
    {
        match self {
            Literal::String(s) => {
                let mut out = "\"".to_owned();
                out.append(s.as_str());
                out.append("\"");
                out
            },
            Literal::Number(n) => num_repr(*n),
            Literal::Boolean(b) => if *b {
                "true".to_owned()
            } else {
                "false".to_owned()
            },
            Literal::Nil => "Nil".to_owned(),
        }
    }
}

impl Expr {
    /// Text of this expression tree.
    #[verifier::loop_isolation(false)]
    pub fn repr(&self) -> (r: String)
        ensures
            r@ == spec_expr_repr(self@),
        decreases *self,
    {
        match self {
            Expr::Binary { left, operator, right } => {
                let mut out = "(".to_owned();
                out.append(operator.lexeme.as_str());
                out.append(" ");
                let l = left.repr();
                out.append(l.as_str());
                out.append(" ");
                let rr = right.repr();
                out.append(rr.as_str());
                out.append(")");
                out
            },
            Expr::Call { callee, paren, arguments } => {
                let mut out = "(call ".to_owned();
                let c = callee.repr();
                out.append(c.as_str());
                out.append(" [");
                let ghost models = exprs_view(arguments@);
                proof {
                    lemma_exprs_view(arguments@);
                }
                let mut i: usize = 0;
                let mut joined = "".to_owned();
                proof {
                    reveal_strlit("");
                    assert(joined@ =~= Seq::<char>::empty());
                    assert(models.subrange(0, 0) =~= Seq::<ExprModel>::empty());
                }
                while i < arguments.len()
                    invariant
                        0 <= i <= arguments.len(),
                        models == exprs_view(arguments@),
                        models.len() == arguments@.len(),
                        forall|j: int| 0 <= j < arguments@.len() ==> #[trigger] models[j]
                            == crate::ast::expr_view(arguments@[j]),
                        joined@ == spec_args_repr(models.subrange(0, i as int)),
                        forall|j: int| 0 <= j < arguments@.len() ==> arguments@[j] == arguments[j],
                    decreases arguments.len() - i,
                {
                    if i > 0 {
                        joined.append(", ");
                    }
                    proof {
                        assert(decreases_to!(*self => (*self)->arguments));
                        assert((*self)->arguments == *arguments);
                        assert(decreases_to!(*arguments => arguments@));
                        assert(decreases_to!(arguments@ => arguments@[i as int]));
                    }
                    let a = arguments[i].repr();
                    joined.append(a.as_str());
                    proof {
                        let sub1 = models.subrange(0, i + 1int);
                        assert(sub1.subrange(0, i as int) =~= models.subrange(0, i as int));
                        assert(sub1[i as int] == models[i as int]);
                        if i == 0 {
                            assert(joined@ =~= spec_args_repr(sub1));
                        } else {
                            assert(joined@ =~= spec_args_repr(sub1));
                        }
                    }
                    i = i + 1;
                }
                proof {
                    assert(models.subrange(0, models.len() as int) =~= models);
                }
                out.append(joined.as_str());
                out.append("])");
                out
            },
            Expr::Grouping { expression } => {
                let mut out = "(group ".to_owned();
                let inner = expression.repr();
                out.append(inner.as_str());
                out.append(")");
                out
            },
            Expr::LiteralValue { value } => value.repr(),
            Expr::Unary { operator, right } => {
                let mut out = "(".to_owned();
                out.append(operator.lexeme.as_str());
                out.append(" ");
                let rr = right.repr();
                out.append(rr.as_str());
                out.append(")");
                out
            },
            Expr::Variable { name } => name.lexeme.clone(),
            Expr::Assignment { name, value } => {
                let mut out = name.lexeme.clone();
                out.append(" = ");
                let v = value.repr();
                out.append(v.as_str());
                out
            },
            Expr::Logical { left, operator, right } => {
                let mut out = left.repr();
                out.append(" ");
                out.append(operator.lexeme.as_str());
                out.append(" ");
                let rr = right.repr();
                out.append(rr.as_str());
                out
            },
            Expr::Nil => "Nil".to_owned(),
        }
    }
}

/// Formats expression trees for display.
pub struct AstFormatter;

impl AstFormatter {
    /// Text of the expression tree.
    pub fn format(&self, e: &Expr) -> (r: String)
        ensures
            r@ == spec_expr_repr(e@),
    {
        e.repr()
    }
}

} // verus!
