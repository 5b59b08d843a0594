//! The two statement rewrites that make a player's inner block safe to run
//! outside a browser.
use vstd::prelude::*;
use crate::ast::{AssignOp, AssignTarget, BinOp, Expr, Stmt};
use crate::text::is_text;

verus! {

/// Whether `e` is `this || self`.
pub open spec fn is_this_or_self(e: Expr) -> bool {
    match e {
        Expr::Bin { op: BinOp::LogicalOr, left, right } => *left is This && match *right {
            Expr::Ident(name) => name@ == "self"@,
            _ => false,
        },
        _ => false,
    }
}

/// `x = this || self` becomes `x = self`; every other statement is left as it is.
pub open spec fn this_or_self_rewrite(s: Stmt) -> Stmt {
    match s {
        Stmt::Expr(Expr::Assign { op, target, right }) => if is_this_or_self(*right) {
            match *right {
                Expr::Bin { right: alt, .. } => Stmt::Expr(Expr::Assign { op, target, right: alt }),
                _ => s,
            }
        } else {
            s
        },
        _ => s,
    }
}

/// `function g(...) {...}` becomes `g = function(...) {...}`; every other statement
/// is left as it is.
pub open spec fn g_decl_rewrite(s: Stmt) -> Stmt {
    match s {
        Stmt::FnDecl { ident, function } => if ident@ == "g"@ {
            Stmt::Expr(Expr::Assign {
                op: AssignOp::Assign,
                target: AssignTarget::Ident(ident),
                right: Box::new(Expr::Fn { ident: None, function }),
            })
        } else {
            s
        },
        _ => s,
    }
}

/// Both rewrites, in turn.
pub open spec fn rewrite(s: Stmt) -> Stmt {
    g_decl_rewrite(this_or_self_rewrite(s))
}

/// Rewriting a statement a second time changes nothing.
pub proof fn lemma_rewrite_idempotent(s: Stmt)
    ensures
        rewrite(rewrite(s)) == rewrite(s),
{
}

fn this_or_self(e: &Expr) -> (r: bool)
    ensures
        r == is_this_or_self(*e),
{
    match e {
        Expr::Bin { op: BinOp::LogicalOr, left, right } => {
            if !matches!(&**left, Expr::This) {
                return false;
            }
            match &**right {
                Expr::Ident(name) => is_text(name, "self"),
                _ => false,
            }
        },
        _ => false,
    }
}

/// Replaces the right-hand side `this || self` of an assignment statement by `self`.
pub fn transform_this_or_self(stmt: Stmt) -> (r: Stmt)
    ensures
        r == this_or_self_rewrite(stmt),
{
    match stmt {
        Stmt::Expr(Expr::Assign { op, target, right }) => {
            if this_or_self(&*right) {
                match *right {
                    Expr::Bin { right: alt, .. } => Stmt::Expr(Expr::Assign { op, target, right: alt }),
                    other => Stmt::Expr(Expr::Assign { op, target, right: Box::new(other) }),
                }
            } else {
                Stmt::Expr(Expr::Assign { op, target, right })
            }
        },
        other => other,
    }
}

/// Turns a declaration of a function named `g` into an assignment of an anonymous
/// function expression to `g`.
pub fn transform_g_decl(stmt: Stmt) -> (r: Stmt)
    ensures
        r == g_decl_rewrite(stmt),
{
    match stmt {
        Stmt::FnDecl { ident, function } => {
            if is_text(&ident, "g") {
                Stmt::Expr(Expr::Assign {
                    op: AssignOp::Assign,
                    target: AssignTarget::Ident(ident),
                    right: Box::new(Expr::Fn { ident: None, function }),
                })
            } else {
                Stmt::FnDecl { ident, function }
            }
        },
        other => other,
    }
}

/// Applies both rewrites to one statement.
pub fn rewrite_statement(stmt: Stmt) -> (r: Stmt)
    ensures
        r == rewrite(stmt),
{
    transform_g_decl(transform_this_or_self(stmt))
}

} // verus!
