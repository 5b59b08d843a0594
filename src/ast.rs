//! A small ECMAScript syntax tree: the node shapes that the player preprocessor
//! reads and builds. Everything else is carried as an opaque node reference that
//! the host parser and printer resolve.
use vstd::prelude::*;

verus! {

/// Reference to a node that this tree does not model; the host that built the
/// tree keeps the node itself and prints it back unchanged.
pub type NodeRef = u64;

#[derive(PartialEq, Eq, Structural, Clone, Copy, Debug)]
pub enum VarKind {
    Var,
    Let,
    Const,
}

#[derive(PartialEq, Eq, Structural, Clone, Copy, Debug)]
pub enum BinOp {
    EqEq,
    NotEq,
    EqEqEq,
    NotEqEq,
    Lt,
    LtEq,
    Gt,
    GtEq,
    LShift,
    RShift,
    ZeroFillRShift,
    Add,
    Sub,
    Mul,
    Div,
    Mod,
    BitOr,
    BitXor,
    BitAnd,
    LogicalOr,
    LogicalAnd,
    In,
    InstanceOf,
    Exp,
    NullishCoalescing,
}

#[derive(PartialEq, Eq, Structural, Clone, Copy, Debug)]
pub enum AssignOp {
    Assign,
    AddAssign,
    SubAssign,
    MulAssign,
    DivAssign,
    ModAssign,
    LShiftAssign,
    RShiftAssign,
    ZeroFillRShiftAssign,
    BitOrAssign,
    BitXorAssign,
    BitAndAssign,
    ExpAssign,
    AndAssign,
    OrAssign,
    NullishAssign,
}

/// A binding pattern: a plain identifier, or anything else.
#[derive(Debug)]
pub enum Pat {
    Ident(String),
    Other(NodeRef),
}

/// The left-hand side of an assignment.
#[derive(Debug)]
pub enum AssignTarget {
    Ident(String),
    Other(NodeRef),
}

/// The property of a member access: `o.name`, `o[expr]`, or another form.
#[derive(Debug)]
pub enum MemberProp {
    Named(String),
    Computed(Box<Expr>),
    Other(NodeRef),
}

/// An argument or array element, with its spread marker (`...e`).
#[derive(Debug)]
pub struct Arg {
    pub spread: bool,
    pub expr: Expr,
}

/// A function: its parameters and, unless it is bodiless, its body.
#[derive(Debug)]
pub struct Function {
    pub params: Vec<Pat>,
    pub body: Option<Vec<Stmt>>,
    pub is_async: bool,
    pub is_generator: bool,
}

#[derive(Debug)]
#[allow(inconsistent_fields)]
pub enum Expr {
    /// `callee(args)`; a `super` or `import` callee is an `Other` expression.
    Call { callee: Box<Expr>, args: Vec<Arg> },
    Member { obj: Box<Expr>, prop: MemberProp },
    Fn { ident: Option<String>, function: Function },
    Paren(Box<Expr>),
    Assign { op: AssignOp, target: AssignTarget, right: Box<Expr> },
    Bin { op: BinOp, left: Box<Expr>, right: Box<Expr> },
    Sequence(Vec<Expr>),
    /// Array literal; `None` is a hole (`[, x]`).
    Array(Vec<Option<Arg>>),
    Ident(String),
    /// Number literal: `value` is the number's shortest decimal text, `raw` its
    /// source text when known.
    Num { value: String, raw: Option<String> },
    /// String literal: `value` is the decoded text, `raw` its source text when known.
    Str { value: String, raw: Option<String> },
    This,
    Other(NodeRef),
}

#[derive(Debug)]
pub struct VarDeclarator {
    pub name: Pat,
    pub init: Option<Expr>,
}

#[derive(Debug)]
pub struct CatchClause {
    pub param: Option<Pat>,
    pub body: Vec<Stmt>,
}

#[derive(Debug)]
pub enum Stmt {
    Expr(Expr),
    Var { kind: VarKind, decls: Vec<VarDeclarator> },
    FnDecl { ident: String, function: Function },
    Try { block: Vec<Stmt>, handler: Option<CatchClause>, finalizer: Option<Vec<Stmt>> },
    Return(Option<Expr>),
    Block(Vec<Stmt>),
    Other(NodeRef),
}

/// A parsed script or module: its top-level items, in source order.
#[derive(Debug)]
pub struct Module {
    pub body: Vec<Stmt>,
}

} // verus!

verus! {

/// The characters of an optional string.
pub open spec fn opt_text(o: Option<String>) -> Option<Seq<char>> {
    match o {
        Some(s) => Some(s@),
        None => None,
    }
}

/// The statements of a function's body, if it has one.
pub open spec fn body_of(f: Function) -> Option<Seq<Stmt>> {
    match f.body {
        Some(b) => Some(b@),
        None => None,
    }
}

/// `e` with one layer of parentheses taken off, if it has one.
pub open spec fn unparen(e: Expr) -> Expr {
    match e {
        Expr::Paren(inner) => *inner,
        _ => e,
    }
}

} // verus!
