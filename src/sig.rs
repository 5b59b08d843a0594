//! Recognizes the signature routine: a three-parameter function whose
//! second-to-last statement is `x && (y = f(..., decodeURIComponent(...), ...), ...)`.
use vstd::prelude::*;
use crate::ast::{body_of, opt_text, unparen, Arg, AssignOp, AssignTarget, BinOp, Expr, Function, Stmt, VarDeclarator};
use crate::text::{is_text, quote, quoted};

verus! {

/// Whether a declarator's initializer is a function expression with `n` parameters.
pub open spec fn inits_fn_with(d: VarDeclarator, n: nat) -> bool {
    match d.init {
        Some(Expr::Fn { function, .. }) => function.params.len() == n,
        _ => false,
    }
}

/// The function initializing the first declarator of `decls` that holds a function
/// expression with `n` parameters.
pub open spec fn first_fn_init(decls: Seq<VarDeclarator>, n: nat) -> Option<Function>
    decreases decls.len(),
{
    if decls.len() == 0 {
        None
    } else if inits_fn_with(decls[0], n) {
        match decls[0].init {
            Some(Expr::Fn { function, .. }) => Some(function),
            _ => None,
        }
    } else {
        first_fn_init(decls.drop_first(), n)
    }
}

/// The body of the three-parameter function that `s` defines, as a declaration,
/// a `var` initializer or a plain assignment to an identifier.
pub open spec fn sig_host(s: Stmt) -> Option<Seq<Stmt>> {
    match s {
        Stmt::FnDecl { function, .. } => {
            if function.params.len() == 3 { body_of(function) } else { None }
        },
        Stmt::Var { decls, .. } => match first_fn_init(decls@, 3) {
            Some(f) => body_of(f),
            None => None,
        },
        Stmt::Expr(Expr::Assign { op: AssignOp::Assign, target: AssignTarget::Ident(_), right }) => {
            match *right {
                Expr::Fn { function, .. } => {
                    if function.params.len() == 3 { body_of(function) } else { None }
                },
                _ => None,
            }
        },
        _ => None,
    }
}

/// Whether `e` is a call whose callee is the identifier `decodeURIComponent`.
pub open spec fn is_decode_call(e: Expr) -> bool {
    match e {
        Expr::Call { callee, .. } => match *callee {
            Expr::Ident(name) => name@ == "decodeURIComponent"@,
            _ => false,
        },
        _ => false,
    }
}

/// Whether one of `args` is a call of `decodeURIComponent`.
pub open spec fn has_decode(args: Seq<Arg>) -> bool {
    exists|i: int| 0 <= i < args.len() && is_decode_call(#[trigger] args[i].expr)
}

/// The source text that stands for a gate call's first argument.
pub open spec fn literal_text(e: Expr) -> Seq<char> {
    match e {
        Expr::Num { value, .. } => value@,
        Expr::Str { value, .. } => quoted(value@),
        Expr::Ident(name) => name@,
        _ => "null"@,
    }
}

/// The thunk calling `f` on the challenge alone.
pub open spec fn sig_thunk_plain(f: Seq<char>) -> Seq<char> {
    "(sig) => "@ + f + "(sig)"@
}

/// The thunk calling `f` with the first argument `a` and the challenge.
pub open spec fn sig_thunk_with(f: Seq<char>, a: Seq<char>) -> Seq<char> {
    "(sig) => "@ + f + "("@ + a + ", sig)"@
}

/// The thunk for a gate call `f(args)`, if it qualifies.
pub open spec fn gate_thunk(callee: Expr, args: Seq<Arg>) -> Option<Seq<char>> {
    if !has_decode(args) {
        None
    } else {
        match callee {
            Expr::Ident(f) => if args.len() == 1 {
                Some(sig_thunk_plain(f@))
            } else {
                Some(sig_thunk_with(f@, literal_text(args[0].expr)))
            },
            _ => None,
        }
    }
}

/// The sig thunk of a host function body, read off its gate statement.
pub open spec fn sig_gate(body: Seq<Stmt>) -> Option<Seq<char>> {
    if body.len() < 2 {
        None
    } else {
        match body[body.len() - 2] {
            Stmt::Expr(Expr::Bin { op: BinOp::LogicalAnd, right, .. }) => match unparen(*right) {
                Expr::Sequence(es) => if es.len() == 0 {
                    None
                } else {
                    match es[0] {
                        Expr::Assign { right: value, .. } => match *value {
                            Expr::Call { callee, args } => gate_thunk(*callee, args@),
                            _ => None,
                        },
                        _ => None,
                    }
                },
                _ => None,
            },
            _ => None,
        }
    }
}

/// The sig thunk that statement `s` contributes, if any.
pub open spec fn sig_candidate(s: Stmt) -> Option<Seq<char>> {
    match sig_host(s) {
        Some(body) => sig_gate(body),
        None => None,
    }
}

fn fn_body_with(e: &Expr, n: usize) -> (r: Option<&Vec<Stmt>>)
    ensures
        match *e {
            Expr::Fn { function, .. } => if function.params.len() == n {
                opt_body(r) == body_of(function)
            } else {
                r is None
            },
            _ => r is None,
        },
{
    match e {
        Expr::Fn { function, .. } => {
            if function.params.len() == n {
                match &function.body {
                    Some(b) => Some(b),
                    None => None,
                }
            } else {
                None
            }
        },
        _ => None,
    }
}

/// The statements behind an optional reference to a body.
pub open spec fn opt_body(r: Option<&Vec<Stmt>>) -> Option<Seq<Stmt>> {
    match r {
        Some(b) => Some(b@),
        None => None,
    }
}

fn first_fn_body(decls: &Vec<VarDeclarator>, n: usize) -> (r: Option<&Vec<Stmt>>)
    ensures
        opt_body(r) == match first_fn_init(decls@, n as nat) {
            Some(f) => body_of(f),
            None => None,
        },
{
    let mut i: usize = 0;
    assert(decls@.subrange(0, decls@.len() as int) =~= decls@);
    while i < decls.len()
        invariant
            i <= decls@.len(),
            first_fn_init(decls@, n as nat) == first_fn_init(decls@.subrange(i as int, decls@.len() as int), n as nat),
        decreases decls.len() - i,
    {
        let d = &decls[i];
        let ghost rest = decls@.subrange(i as int, decls@.len() as int);
        assert(rest[0] == *d);
        assert(rest.drop_first() =~= decls@.subrange(i + 1, decls@.len() as int));
        match &d.init {
            Some(init) => {
                match init {
                    Expr::Fn { function, .. } => {
                        if function.params.len() == n {
                            return match &function.body {
                                Some(b) => Some(b),
                                None => None,
                            };
                        }
                    },
                    _ => {},
                }
            },
            None => {},
        }
        i = i + 1;
    }
    assert(decls@.subrange(i as int, decls@.len() as int).len() == 0);
    None
}

fn host_body(stmt: &Stmt) -> (r: Option<&Vec<Stmt>>)
    ensures
        opt_body(r) == sig_host(*stmt),
{
    match stmt {
        Stmt::FnDecl { function, .. } => {
            if function.params.len() == 3 {
                match &function.body {
                    Some(b) => Some(b),
                    None => None,
                }
            } else {
                None
            }
        },
        Stmt::Var { decls, .. } => first_fn_body(decls, 3),
        Stmt::Expr(Expr::Assign { op, target, right }) => {
            match (op, target) {
                (AssignOp::Assign, AssignTarget::Ident(_)) => fn_body_with(&**right, 3),
                _ => None,
            }
        },
        _ => None,
    }
}

fn is_decode(e: &Expr) -> (r: bool)
    ensures
        r == is_decode_call(*e),
{
    match e {
        Expr::Call { callee, .. } => match &**callee {
            Expr::Ident(name) => is_text(name, "decodeURIComponent"),
            _ => false,
        },
        _ => false,
    }
}

fn any_decode(args: &Vec<Arg>) -> (r: bool)
    ensures
        r == has_decode(args@),
{
    let mut i: usize = 0;
    while i < args.len()
        invariant
            i <= args@.len(),
            forall|j: int| 0 <= j < i ==> !is_decode_call(#[trigger] args@[j].expr),
        decreases args.len() - i,
    {
        if is_decode(&args[i].expr) {
            return true;
        }
        i = i + 1;
    }
    false
}

/// Renders a gate call's first argument: a number as its decimal text, a string
/// as a quoted literal, an identifier as its name, and anything else as `null`.
pub fn generate_expr(e: &Expr) -> (r: String)
    ensures
        r@ == literal_text(*e),
{
    match e {
        Expr::Num { value, .. } => value.clone(),
        Expr::Str { value, .. } => quote(value.as_str()),
        Expr::Ident(name) => name.clone(),
        _ => String::from_str("null"),
    }
}

fn gate_call_thunk(callee: &Expr, args: &Vec<Arg>) -> (r: Option<String>)
    ensures
        opt_text(r) == gate_thunk(*callee, args@),
{
    if !any_decode(args) {
        return None;
    }
    match callee {
        Expr::Ident(f) => {
            let mut t = String::from_str("(sig) => ");
            t.append(f.as_str());
            if args.len() == 1 {
                t.append("(sig)");
            } else {
                let a = generate_expr(&args[0].expr);
                t.append("(");
                t.append(a.as_str());
                t.append(", sig)");
            }
            Some(t)
        },
        _ => None,
    }
}

fn gate(body: &Vec<Stmt>) -> (r: Option<String>)
    ensures
        opt_text(r) == sig_gate(body@),
{
    let n = body.len();
    if n < 2 {
        return None;
    }
    match &body[n - 2] {
        Stmt::Expr(Expr::Bin { op: BinOp::LogicalAnd, right, .. }) => {
            let inner: &Expr = match &**right {
                Expr::Paren(e) => &**e,
                other => other,
            };
            match inner {
                Expr::Sequence(es) => {
                    if es.len() == 0 {
                        return None;
                    }
                    match &es[0] {
                        Expr::Assign { right: value, .. } => match &**value {
                            Expr::Call { callee, args } => gate_call_thunk(&**callee, args),
                            _ => None,
                        },
                        _ => None,
                    }
                },
                _ => None,
            }
        },
        _ => None,
    }
}

/// The thunk for the signature routine if `stmt` defines it, else `None`.
pub fn extract(stmt: &Stmt) -> (r: Option<String>)
    ensures
        opt_text(r) == sig_candidate(*stmt),
{
    match host_body(stmt) {
        Some(body) => gate(body),
        None => None,
    }
}

} // verus!
