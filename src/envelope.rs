//! Unwraps the function expression that envelops a player's code and yields the
//! statements of its body.
use vstd::prelude::*;
use crate::ast::{body_of, Arg, Expr, MemberProp, Module, Stmt};
use crate::provider::{is_parse_error, JsChallengeError};
use crate::text::{decimal, decimal_text, is_text};

verus! {

/// The body of `e` when `e` is a function expression, bare or parenthesized.
pub open spec fn fn_body(e: Expr) -> Option<Seq<Stmt>> {
    match e {
        Expr::Fn { function, .. } => body_of(function),
        Expr::Paren(inner) => match *inner {
            Expr::Fn { function, .. } => body_of(function),
            _ => None,
        },
        _ => None,
    }
}

/// Whether the arguments are exactly `(this)`.
pub open spec fn is_this_args(args: Seq<Arg>) -> bool {
    args.len() == 1 && !args[0].spread && args[0].expr is This
}

/// Whether a member property is the name `call`.
pub open spec fn is_call_prop(p: MemberProp) -> bool {
    match p {
        MemberProp::Named(name) => name@ == "call"@,
        _ => false,
    }
}

/// The function body behind `F.call`, where `F` is a function expression, bare or
/// parenthesized.
pub open spec fn member_call_body(e: Expr) -> Option<Seq<Stmt>> {
    match e {
        Expr::Member { obj, prop } => if is_call_prop(prop) { fn_body(*obj) } else { None },
        _ => None,
    }
}

/// The function body behind `F.call(this)`.
pub open spec fn call_this_body(e: Expr) -> Option<Seq<Stmt>> {
    match e {
        Expr::Call { callee, args } => if is_this_args(args@) { member_call_body(*callee) } else { None },
        _ => None,
    }
}

/// The envelope of a one-statement module: `F.call(this);`.
pub open spec fn single_envelope(s: Stmt) -> Option<Seq<Stmt>> {
    match s {
        Stmt::Expr(e) => call_this_body(e),
        _ => None,
    }
}

/// The envelope that ends a two-statement module: a call whose callee is `F.call`,
/// `F`, `(F)` or `(F.call(this))`.
pub open spec fn pair_envelope(s: Stmt) -> Option<Seq<Stmt>> {
    match s {
        Stmt::Expr(Expr::Call { callee, .. }) => match *callee {
            Expr::Member { .. } => member_call_body(*callee),
            Expr::Fn { .. } => fn_body(*callee),
            Expr::Paren(inner) => match *inner {
                Expr::Call { .. } => call_this_body(*inner),
                _ => fn_body(*callee),
            },
            _ => None,
        },
        _ => None,
    }
}

/// `b` without its first statement, if it has one.
pub open spec fn drop_first_stmt(b: Seq<Stmt>) -> Seq<Stmt> {
    if b.len() == 0 { b } else { b.drop_first() }
}

/// The inner block of a module, if its top level has one of the known envelopes.
/// In the two-statement shape the body's first statement (which rebinds `window`)
/// is left out.
pub open spec fn inner_block(m: Module) -> Option<Seq<Stmt>> {
    if m.body@.len() == 1 {
        single_envelope(m.body@[0])
    } else if m.body@.len() == 2 {
        match pair_envelope(m.body@[1]) {
            Some(b) => Some(drop_first_stmt(b)),
            None => None,
        }
    } else {
        None
    }
}

/// The message of the parse error for a module of `n` top-level items without
/// a known envelope.
pub open spec fn shape_message(n: nat) -> Seq<char> {
    if n == 1 {
        "unexpected structure (single item)"@
    } else if n == 2 {
        "unexpected structure (two items)"@
    } else {
        "unexpected structure: "@ + decimal(n) + " items"@
    }
}

fn take_fn_body(e: Expr) -> (r: Option<Vec<Stmt>>)
    ensures
        match r {
            Some(b) => fn_body(e) == Some(b@),
            None => fn_body(e) is None,
        },
{
    match e {
        Expr::Fn { function, .. } => function.body,
        Expr::Paren(inner) => match *inner {
            Expr::Fn { function, .. } => function.body,
            _ => None,
        },
        _ => None,
    }
}

fn this_args(args: &Vec<Arg>) -> (r: bool)
    ensures
        r == is_this_args(args@),
{
    args.len() == 1 && !args[0].spread && matches!(&args[0].expr, Expr::This)
}

fn call_prop(p: &MemberProp) -> (r: bool)
    ensures
        r == is_call_prop(*p),
{
    match p {
        MemberProp::Named(name) => is_text(name, "call"),
        _ => false,
    }
}

fn take_member_call_body(e: Expr) -> (r: Option<Vec<Stmt>>)
    ensures
        match r {
            Some(b) => member_call_body(e) == Some(b@),
            None => member_call_body(e) is None,
        },
{
    match e {
        Expr::Member { obj, prop } => if call_prop(&prop) { take_fn_body(*obj) } else { None },
        _ => None,
    }
}

fn take_call_this_body(e: Expr) -> (r: Option<Vec<Stmt>>)
    ensures
        match r {
            Some(b) => call_this_body(e) == Some(b@),
            None => call_this_body(e) is None,
        },
{
    match e {
        Expr::Call { callee, args } => if this_args(&args) { take_member_call_body(*callee) } else { None },
        _ => None,
    }
}

fn take_single(s: Stmt) -> (r: Option<Vec<Stmt>>)
    ensures
        match r {
            Some(b) => single_envelope(s) == Some(b@),
            None => single_envelope(s) is None,
        },
{
    match s {
        Stmt::Expr(e) => take_call_this_body(e),
        _ => None,
    }
}

fn take_pair(s: Stmt) -> (r: Option<Vec<Stmt>>)
    ensures
        match r {
            Some(b) => pair_envelope(s) == Some(b@),
            None => pair_envelope(s) is None,
        },
{
    match s {
        Stmt::Expr(Expr::Call { callee, .. }) => {
            let c = *callee;
            match c {
                Expr::Member { .. } => take_member_call_body(c),
                Expr::Fn { .. } => take_fn_body(c),
                Expr::Paren(inner) => {
                    if matches!(&*inner, Expr::Call { .. }) {
                        take_call_this_body(*inner)
                    } else {
                        take_fn_body(Expr::Paren(inner))
                    }
                },
                _ => None,
            }
        },
        _ => None,
    }
}

fn shape_error(n: usize) -> (r: String)
    ensures
        r@ == shape_message(n as nat),
{
    if n == 1 {
        String::from_str("unexpected structure (single item)")
    } else if n == 2 {
        String::from_str("unexpected structure (two items)")
    } else {
        let mut s = String::from_str("unexpected structure: ");
        let d = decimal_text(n);
        s.append(d.as_str());
        s.append(" items");
        s
    }
}

/// The inner block of the player: the statements inside its envelope, or a parse
/// error naming the shape that was found instead.
pub fn extract_main_block(module: Module) -> (r: Result<Vec<Stmt>, JsChallengeError>)
    ensures
        match r {
            Ok(b) => inner_block(module) == Some(b@),
            Err(e) => inner_block(module) is None && is_parse_error(e, shape_message(module.body@.len())),
        },
{
    let ghost m = module;
    let mut body = module.body;
    let n = body.len();
    if n == 1 {
        let s = body.pop().unwrap();
        assert(s == m.body@[0]);
        match take_single(s) {
            Some(b) => return Ok(b),
            None => {},
        }
    } else if n == 2 {
        let s = body.pop().unwrap();
        assert(s == m.body@[1]);
        match take_pair(s) {
            Some(mut b) => {
                if b.len() > 0 {
                    let ghost before = b@;
                    b.remove(0);
                    assert(b@ =~= before.drop_first());
                }
                return Ok(b);
            },
            None => {},
        }
    }
    Err(JsChallengeError::Parse(shape_error(n)))
}

} // verus!
