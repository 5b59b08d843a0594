//! Small queries on syntax-tree nodes.
use vstd::prelude::*;
use crate::ast::{Expr, Pat};
use crate::text::is_text;

verus! {

/// Whether `expr` is the identifier `name`.
pub fn is_identifier(expr: &Expr, name: &str) -> (r: bool)
    ensures
        r == (expr matches Expr::Ident(n) && n@ == name@),
{
    match expr {
        Expr::Ident(n) => is_text(n, name),
        _ => false,
    }
}

/// The name of an identifier expression.
pub fn get_ident_name(expr: &Expr) -> (r: Option<&str>)
    ensures
        match *expr {
            Expr::Ident(n) => r matches Some(s) && s@ == n@,
            _ => r is None,
        },
{
    match expr {
        Expr::Ident(n) => Some(n.as_str()),
        _ => None,
    }
}

/// The name of an identifier pattern.
pub fn get_pat_ident_name(pat: &Pat) -> (r: Option<&str>)
    ensures
        match *pat {
            Pat::Ident(n) => r matches Some(s) && s@ == n@,
            _ => r is None,
        },
{
    match pat {
        Pat::Ident(n) => Some(n.as_str()),
        _ => None,
    }
}

} // verus!
