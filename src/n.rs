//! Recognizes the `n` routine, either exposed through a one-element array
//! (`var X = [f];`, `X = [f];`) or as a one-parameter function whose
//! second-to-last statement is a `try` whose handler returns `X[<number>] + Y`.
use vstd::prelude::*;
use crate::ast::{opt_text, AssignOp, AssignTarget, BinOp, Expr, MemberProp, Stmt, VarDeclarator, VarKind};

verus! {

/// The identifier that `e` wraps, if `e` is a one-element array holding a bare
/// identifier (not spread).
pub open spec fn array_ident(e: Expr) -> Option<Seq<char>> {
    match e {
        Expr::Array(elems) => if elems.len() == 1 {
            match elems[0] {
                Some(arg) => if arg.spread {
                    None
                } else {
                    match arg.expr {
                        Expr::Ident(name) => Some(name@),
                        _ => None,
                    }
                },
                None => None,
            }
        } else {
            None
        },
        _ => None,
    }
}

/// The identifier wrapped by the first declarator of `decls` initialized with a
/// one-element identifier array.
pub open spec fn first_array_ident(decls: Seq<VarDeclarator>) -> Option<Seq<char>>
    decreases decls.len(),
{
    if decls.len() == 0 {
        None
    } else {
        match decls[0].init {
            Some(e) => match array_ident(e) {
                Some(name) => Some(name),
                None => first_array_ident(decls.drop_first()),
            },
            None => first_array_ident(decls.drop_first()),
        }
    }
}

/// The routine's name under the array pattern: a `var` declaration (not `let` or
/// `const`) or a plain assignment to an identifier.
pub open spec fn n_array(s: Stmt) -> Option<Seq<char>> {
    match s {
        Stmt::Var { kind: VarKind::Var, decls } => first_array_ident(decls@),
        Stmt::Expr(Expr::Assign { op: AssignOp::Assign, target: AssignTarget::Ident(_), right }) => array_ident(*right),
        _ => None,
    }
}

/// The name and body of the one-parameter function that `s` defines, as a
/// declaration or as a plain assignment to an identifier.
pub open spec fn n_host(s: Stmt) -> Option<(Seq<char>, Seq<Stmt>)> {
    match s {
        Stmt::Expr(Expr::Assign { op: AssignOp::Assign, target: AssignTarget::Ident(name), right }) => match *right {
            Expr::Fn { function, .. } => if function.params.len() == 1 {
                match function.body {
                    Some(b) => Some((name@, b@)),
                    None => None,
                }
            } else {
                None
            },
            _ => None,
        },
        Stmt::FnDecl { ident, function } => if function.params.len() == 1 {
            match function.body {
                Some(b) => Some((ident@, b@)),
                None => None,
            }
        } else {
            None
        },
        _ => None,
    }
}

/// Whether `e` is `X[<number literal>] + Y`.
pub open spec fn is_indexed_sum(e: Expr) -> bool {
    match e {
        Expr::Bin { op: BinOp::Add, left, .. } => match *left {
            Expr::Member { prop: MemberProp::Computed(index), .. } => *index is Num,
            _ => false,
        },
        _ => false,
    }
}

/// Whether the second-to-last statement of `body` is a `try` whose handler holds
/// exactly `return X[<number literal>] + Y`.
pub open spec fn try_gate(body: Seq<Stmt>) -> bool {
    &&& body.len() >= 2
    &&& match body[body.len() - 2] {
        Stmt::Try { handler: Some(h), .. } => h.body.len() == 1 && match h.body[0] {
            Stmt::Return(Some(e)) => is_indexed_sum(e),
            _ => false,
        },
        _ => false,
    }
}

/// The routine's name under the try/catch pattern.
pub open spec fn n_try(s: Stmt) -> Option<Seq<char>> {
    match n_host(s) {
        Some((name, body)) => if try_gate(body) { Some(name) } else { None },
        None => None,
    }
}

/// The thunk calling `f` on the challenge.
pub open spec fn n_thunk(f: Seq<char>) -> Seq<char> {
    "(n) => "@ + f + "(n)"@
}

/// The n thunk that statement `s` contributes, if any; the array pattern wins.
pub open spec fn n_candidate(s: Stmt) -> Option<Seq<char>> {
    match n_array(s) {
        Some(name) => Some(n_thunk(name)),
        None => match n_try(s) {
            Some(name) => Some(n_thunk(name)),
            None => None,
        },
    }
}

fn array_name(e: &Expr) -> (r: Option<String>)
    ensures
        opt_text(r) == array_ident(*e),
{
    match e {
        Expr::Array(elems) => {
            if elems.len() != 1 {
                return None;
            }
            match &elems[0] {
                Some(arg) => {
                    if arg.spread {
                        return None;
                    }
                    match &arg.expr {
                        Expr::Ident(name) => Some(name.clone()),
                        _ => None,
                    }
                },
                None => None,
            }
        },
        _ => None,
    }
}

fn first_array_name(decls: &Vec<VarDeclarator>) -> (r: Option<String>)
    ensures
        opt_text(r) == first_array_ident(decls@),
{
    let mut i: usize = 0;
    assert(decls@.subrange(0, decls@.len() as int) =~= decls@);
    while i < decls.len()
        invariant
            i <= decls@.len(),
            first_array_ident(decls@) == first_array_ident(decls@.subrange(i as int, decls@.len() as int)),
        decreases decls.len() - i,
    {
        let ghost rest = decls@.subrange(i as int, decls@.len() as int);
        assert(rest[0] == decls@[i as int]);
        assert(rest.drop_first() =~= decls@.subrange(i + 1, decls@.len() as int));
        match &decls[i].init {
            Some(init) => {
                let found = array_name(init);
                if found.is_some() {
                    return found;
                }
            },
            None => {},
        }
        i = i + 1;
    }
    None
}

/// The name of the routine exposed through a one-element array, if `stmt` is such
/// an exposure.
pub fn extract_array_pattern(stmt: &Stmt) -> (r: Option<String>)
    ensures
        opt_text(r) == n_array(*stmt),
{
    match stmt {
        Stmt::Var { kind: VarKind::Var, decls } => first_array_name(decls),
        Stmt::Expr(Expr::Assign { op: AssignOp::Assign, target: AssignTarget::Ident(_), right }) => array_name(&**right),
        _ => None,
    }
}

fn indexed_sum(e: &Expr) -> (r: bool)
    ensures
        r == is_indexed_sum(*e),
{
    match e {
        Expr::Bin { op: BinOp::Add, left, .. } => match &**left {
            Expr::Member { prop: MemberProp::Computed(index), .. } => matches!(&**index, Expr::Num { .. }),
            _ => false,
        },
        _ => false,
    }
}

fn has_try_gate(body: &Vec<Stmt>) -> (r: bool)
    ensures
        r == try_gate(body@),
{
    let n = body.len();
    if n < 2 {
        return false;
    }
    match &body[n - 2] {
        Stmt::Try { handler: Some(h), .. } => {
            if h.body.len() != 1 {
                return false;
            }
            match &h.body[0] {
                Stmt::Return(Some(e)) => indexed_sum(e),
                _ => false,
            }
        },
        _ => false,
    }
}

/// The name of the one-parameter routine with the try/catch fallback, if `stmt`
/// defines it.
pub fn extract_try_catch_pattern(stmt: &Stmt) -> (r: Option<String>)
    ensures
        opt_text(r) == n_try(*stmt),
{
    match stmt {
        Stmt::Expr(Expr::Assign { op: AssignOp::Assign, target: AssignTarget::Ident(name), right }) => {
            match &**right {
                Expr::Fn { function, .. } => {
                    if function.params.len() != 1 {
                        return None;
                    }
                    match &function.body {
                        Some(b) => if has_try_gate(b) { Some(name.clone()) } else { None },
                        None => None,
                    }
                },
                _ => None,
            }
        },
        Stmt::FnDecl { ident, function } => {
            if function.params.len() != 1 {
                return None;
            }
            match &function.body {
                Some(b) => if has_try_gate(b) { Some(ident.clone()) } else { None },
                None => None,
            }
        },
        _ => None,
    }
}

/// The thunk `(n) => name(n)`.
pub fn make_solver_func(name: &str) -> (r: String)
    ensures
        r@ == n_thunk(name@),
{
    let mut t = String::from_str("(n) => ");
    t.append(name);
    t.append("(n)");
    t
}

/// The thunk for the `n` routine if `stmt` defines or exposes it, else `None`.
pub fn extract(stmt: &Stmt) -> (r: Option<String>)
    ensures
        opt_text(r) == n_candidate(*stmt),
{
    match extract_array_pattern(stmt) {
        Some(name) => Some(make_solver_func(name.as_str())),
        None => match extract_try_catch_pattern(stmt) {
            Some(name) => Some(make_solver_func(name.as_str())),
            None => None,
        },
    }
}

} // verus!
