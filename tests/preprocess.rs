use ytdlp_ejs::ast::{
    Arg, AssignOp, AssignTarget, BinOp, CatchClause, Expr, Function, MemberProp, Module, Pat, Stmt,
    VarDeclarator, VarKind,
};
use ytdlp_ejs::envelope::extract_main_block;
use ytdlp_ejs::preprocessor::emit_program;
use ytdlp_ejs::rewrite::{rewrite_statement, transform_g_decl, transform_this_or_self};
use ytdlp_ejs::text::{decimal_text, quote, split_first_colon};
use ytdlp_ejs::utils::{get_ident_name, get_pat_ident_name, is_identifier};
use ytdlp_ejs::{n, sig};
use ytdlp_ejs::{preprocess_module, JsChallengeError};

fn s(x: &str) -> String {
    x.to_string()
}

fn ident(x: &str) -> Expr {
    Expr::Ident(s(x))
}

fn bx(e: Expr) -> Box<Expr> {
    Box::new(e)
}

fn arg(e: Expr) -> Arg {
    Arg { spread: false, expr: e }
}

fn params(k: usize) -> Vec<Pat> {
    (0..k).map(|i| Pat::Ident(format!("p{}", i))).collect()
}

fn func(k: usize, body: Vec<Stmt>) -> Function {
    Function { params: params(k), body: Some(body), is_async: false, is_generator: false }
}

fn fn_expr(k: usize, body: Vec<Stmt>) -> Expr {
    Expr::Fn { ident: None, function: func(k, body) }
}

fn call(callee: Expr, args: Vec<Expr>) -> Expr {
    Expr::Call { callee: bx(callee), args: args.into_iter().map(arg).collect() }
}

fn assign(name: &str, right: Expr) -> Expr {
    Expr::Assign { op: AssignOp::Assign, target: AssignTarget::Ident(s(name)), right: bx(right) }
}

fn num(v: &str) -> Expr {
    Expr::Num { value: s(v), raw: Some(s(v)) }
}

fn var(kind: VarKind, name: &str, init: Expr) -> Stmt {
    Stmt::Var { kind, decls: vec![VarDeclarator { name: Pat::Ident(s(name)), init: Some(init) }] }
}

fn array_of(name: &str) -> Expr {
    Expr::Array(vec![Some(arg(ident(name)))])
}

fn ret(e: Expr) -> Stmt {
    Stmt::Return(Some(e))
}

/// `x && (y = f(args...), w)` followed by `return a`.
fn gate_body(f: &str, args: Vec<Expr>) -> Vec<Stmt> {
    let seq = Expr::Sequence(vec![assign("y", call(ident(f), args)), ident("w")]);
    vec![
        Stmt::Expr(assign("a", num("1"))),
        Stmt::Expr(Expr::Bin { op: BinOp::LogicalAnd, left: bx(ident("x")), right: bx(Expr::Paren(bx(seq))) }),
        ret(ident("a")),
    ]
}

fn decode(e: Expr) -> Expr {
    call(ident("decodeURIComponent"), vec![e])
}

fn sig_decl(name: &str, k: usize, f: &str, args: Vec<Expr>) -> Stmt {
    Stmt::FnDecl { ident: s(name), function: func(k, gate_body(f, args)) }
}

/// `function name(a) { ...; try {} catch (e) { return X[12] + Y } ; return a }`
fn try_decl(name: &str) -> Stmt {
    let sum = Expr::Bin {
        op: BinOp::Add,
        left: bx(Expr::Member { obj: bx(ident("X")), prop: MemberProp::Computed(bx(num("12"))) }),
        right: bx(ident("Y")),
    };
    let t = Stmt::Try {
        block: vec![],
        handler: Some(CatchClause { param: Some(Pat::Ident(s("e"))), body: vec![ret(sum)] }),
        finalizer: None,
    };
    Stmt::FnDecl { ident: s(name), function: func(1, vec![Stmt::Expr(ident("q")), t, ret(ident("a"))]) }
}

fn this_or_self_stmt() -> Stmt {
    Stmt::Expr(Expr::Assign {
        op: AssignOp::Assign,
        target: AssignTarget::Other(7),
        right: bx(Expr::Bin { op: BinOp::LogicalOr, left: bx(Expr::This), right: bx(ident("self")) }),
    })
}

fn g_decl() -> Stmt {
    Stmt::FnDecl { ident: s("g"), function: func(1, vec![ret(ident("p0"))]) }
}

fn inner_statements() -> Vec<Stmt> {
    vec![
        var(VarKind::Var, "window", Expr::This),
        var(VarKind::Var, "Xa", array_of("nfn")),
        sig_decl("sigfn", 3, "fq", vec![num("7"), decode(ident("z"))]),
        this_or_self_stmt(),
        g_decl(),
    ]
}

/// `(function(){ body }).call(this)`
fn call_this(body: Vec<Stmt>) -> Expr {
    let member = Expr::Member { obj: bx(Expr::Paren(bx(fn_expr(0, body)))), prop: MemberProp::Named(s("call")) };
    call(member, vec![Expr::This])
}

fn two_item_module(second: Expr) -> Module {
    Module { body: vec![Stmt::Other(1), Stmt::Expr(second)] }
}

fn parse_msg(r: Result<Vec<Stmt>, JsChallengeError>) -> String {
    match r {
        Err(JsChallengeError::Parse(m)) => m,
        other => panic!("expected a parse error, got {:?}", other),
    }
}

#[test]
fn three_top_level_statements_fail_to_parse() {
    let m = Module { body: vec![Stmt::Other(1), Stmt::Other(2), Stmt::Other(3)] };
    match preprocess_module(m) {
        Err(JsChallengeError::Parse(msg)) => assert_eq!(msg, "unexpected structure: 3 items"),
        other => panic!("unexpected {:?}", other),
    }
}

#[test]
fn empty_module_fails_to_parse() {
    let r = extract_main_block(Module { body: vec![] });
    assert_eq!(parse_msg(r), "unexpected structure: 0 items");
}

#[test]
fn two_distinct_n_definitions_fail_to_preprocess() {
    let body = vec![
        var(VarKind::Var, "A", array_of("f1")),
        var(VarKind::Var, "B", array_of("f2")),
        sig_decl("sigfn", 3, "fq", vec![decode(ident("z"))]),
    ];
    let m = Module { body: vec![Stmt::Expr(call_this(body))] };
    match preprocess_module(m) {
        Err(JsChallengeError::Preprocess(msg)) => {
            assert_eq!(msg, "found differing n functions: (n) => f1(n), (n) => f2(n)")
        }
        other => panic!("unexpected {:?}", other),
    }
}

#[test]
fn missing_sig_fails_to_preprocess() {
    let body = vec![var(VarKind::Var, "A", array_of("f1"))];
    let m = Module { body: vec![Stmt::Expr(call_this(body))] };
    match preprocess_module(m) {
        Err(JsChallengeError::Preprocess(msg)) => assert_eq!(msg, "found no sig function"),
        other => panic!("unexpected {:?}", other),
    }
}

#[test]
fn missing_n_is_reported_before_sig() {
    let m = Module { body: vec![Stmt::Expr(call_this(vec![]))] };
    match preprocess_module(m) {
        Err(JsChallengeError::Preprocess(msg)) => assert_eq!(msg, "found no n function"),
        other => panic!("unexpected {:?}", other),
    }
}

#[test]
fn repeated_equal_n_definitions_collapse() {
    let body = vec![
        var(VarKind::Var, "A", array_of("f1")),
        Stmt::Expr(assign("B", array_of("f1"))),
        sig_decl("sigfn", 3, "fq", vec![decode(ident("z"))]),
    ];
    let m = Module { body: vec![Stmt::Expr(call_this(body))] };
    let p = preprocess_module(m).unwrap();
    assert_eq!(p.n, "(n) => f1(n)");
    assert_eq!(p.sig, "(sig) => fq(sig)");
}

#[test]
fn single_item_envelope_keeps_every_statement() {
    let m = Module { body: vec![Stmt::Expr(call_this(inner_statements()))] };
    let p = preprocess_module(m).unwrap();
    assert_eq!(p.n, "(n) => nfn(n)");
    assert_eq!(p.sig, "(sig) => fq(7, sig)");
    assert_eq!(p.stmts.len(), 5);
    assert!(matches!(&p.stmts[0], Stmt::Var { .. }));
}

#[test]
fn two_item_envelopes_drop_the_first_statement() {
    let bare_fn = Expr::Member { obj: bx(fn_expr(0, inner_statements())), prop: MemberProp::Named(s("call")) };
    let shapes = vec![
        call(bare_fn, vec![Expr::This]),
        call_this(inner_statements()),
        call(fn_expr(1, inner_statements()), vec![]),
        call(Expr::Paren(bx(fn_expr(1, inner_statements()))), vec![]),
        call(Expr::Paren(bx(call_this(inner_statements()))), vec![]),
    ];
    for shape in shapes {
        let b = extract_main_block(two_item_module(shape)).unwrap();
        assert_eq!(b.len(), 4);
        assert!(matches!(&b[0], Stmt::Var { kind: VarKind::Var, .. }));
    }
}

#[test]
fn unknown_envelopes_fail_to_parse() {
    let apply = Expr::Member { obj: bx(fn_expr(0, vec![])), prop: MemberProp::Named(s("apply")) };
    let r = extract_main_block(Module { body: vec![Stmt::Expr(call(apply, vec![Expr::This]))] });
    assert_eq!(parse_msg(r), "unexpected structure (single item)");
    let no_this = Expr::Member { obj: bx(fn_expr(0, vec![])), prop: MemberProp::Named(s("call")) };
    let r = extract_main_block(Module { body: vec![Stmt::Expr(call(no_this, vec![]))] });
    assert_eq!(parse_msg(r), "unexpected structure (single item)");
    let r = extract_main_block(two_item_module(call(ident("f"), vec![])));
    assert_eq!(parse_msg(r), "unexpected structure (two items)");
}

#[test]
fn statements_keep_their_order_after_rewriting() {
    let m = Module { body: vec![Stmt::Expr(call_this(inner_statements()))] };
    let p = preprocess_module(m).unwrap();
    let expected: Vec<Stmt> = inner_statements().into_iter().map(rewrite_statement).collect();
    assert_eq!(format!("{:?}", p.stmts), format!("{:?}", expected));
    assert!(matches!(&p.stmts[3], Stmt::Expr(Expr::Assign { right, .. }) if matches!(&**right, Expr::Ident(n) if n == "self")));
    assert!(matches!(&p.stmts[4], Stmt::Expr(Expr::Assign { target: AssignTarget::Ident(n), .. }) if n == "g"));
}

#[test]
fn preprocessing_twice_gives_the_same_result() {
    let a = preprocess_module(Module { body: vec![Stmt::Expr(call_this(inner_statements()))] }).unwrap();
    let b = preprocess_module(Module { body: vec![Stmt::Expr(call_this(inner_statements()))] }).unwrap();
    assert_eq!(format!("{:?}", a), format!("{:?}", b));
}

#[test]
fn array_pattern_needs_var() {
    assert_eq!(n::extract(&var(VarKind::Var, "x", array_of("foo"))), Some(s("(n) => foo(n)")));
    assert_eq!(n::extract(&var(VarKind::Let, "x", array_of("foo"))), None);
    assert_eq!(n::extract(&var(VarKind::Const, "x", array_of("foo"))), None);
    assert_eq!(n::extract(&Stmt::Expr(assign("x", array_of("foo")))), Some(s("(n) => foo(n)")));
    let two = Expr::Array(vec![Some(arg(ident("a"))), Some(arg(ident("b")))]);
    assert_eq!(n::extract(&var(VarKind::Var, "x", two)), None);
    let spread = Expr::Array(vec![Some(Arg { spread: true, expr: ident("foo") })]);
    assert_eq!(n::extract(&var(VarKind::Var, "x", spread)), None);
    assert_eq!(n::extract(&var(VarKind::Var, "x", Expr::Array(vec![]))), None);
    assert_eq!(n::extract(&var(VarKind::Var, "x", Expr::Array(vec![Some(arg(num("1")))]))), None);
    let compound = Expr::Assign { op: AssignOp::AddAssign, target: AssignTarget::Ident(s("x")), right: bx(array_of("foo")) };
    assert_eq!(n::extract(&Stmt::Expr(compound)), None);
}

#[test]
fn try_catch_pattern_names_the_function() {
    assert_eq!(n::extract(&try_decl("nx")), Some(s("(n) => nx(n)")));
    assert_eq!(n::extract_try_catch_pattern(&try_decl("nx")), Some(s("nx")));
    assert_eq!(n::extract_array_pattern(&try_decl("nx")), None);
    let as_assign = match try_decl("nx") {
        Stmt::FnDecl { function, .. } => Stmt::Expr(assign("ny", Expr::Fn { ident: None, function })),
        _ => unreachable!(),
    };
    assert_eq!(n::extract(&as_assign), Some(s("(n) => ny(n)")));
    let two_params = match try_decl("nx") {
        Stmt::FnDecl { ident, mut function } => {
            function.params = params(2);
            Stmt::FnDecl { ident, function }
        }
        _ => unreachable!(),
    };
    assert_eq!(n::extract(&two_params), None);
}

#[test]
fn sig_needs_exactly_three_parameters() {
    let args = || vec![num("7"), decode(ident("z"))];
    assert_eq!(sig::extract(&sig_decl("s", 3, "fq", args())), Some(s("(sig) => fq(7, sig)")));
    assert_eq!(sig::extract(&sig_decl("s", 2, "fq", args())), None);
    assert_eq!(sig::extract(&sig_decl("s", 4, "fq", args())), None);
}

#[test]
fn sig_host_may_be_var_or_assignment() {
    let var_host = var(VarKind::Var, "s", fn_expr(3, gate_body("fq", vec![decode(ident("z"))])));
    assert_eq!(sig::extract(&var_host), Some(s("(sig) => fq(sig)")));
    let assign_host = Stmt::Expr(assign("s", fn_expr(3, gate_body("fq", vec![decode(ident("z"))]))));
    assert_eq!(sig::extract(&assign_host), Some(s("(sig) => fq(sig)")));
}

#[test]
fn decode_must_be_an_identifier_callee() {
    let text = Expr::Str { value: s("decodeURIComponent(z)"), raw: None };
    assert_eq!(sig::extract(&sig_decl("s", 3, "fq", vec![num("7"), text])), None);
    let member = call(Expr::Member { obj: bx(ident("window")), prop: MemberProp::Named(s("decodeURIComponent")) }, vec![]);
    assert_eq!(sig::extract(&sig_decl("s", 3, "fq", vec![num("7"), member])), None);
}

#[test]
fn sig_first_argument_rendering() {
    let with = |first: Expr| sig::extract(&sig_decl("s", 3, "fq", vec![first, decode(ident("z"))]));
    assert_eq!(with(Expr::Str { value: s("a\"b"), raw: None }), Some(s("(sig) => fq(\"a\\\"b\", sig)")));
    assert_eq!(with(ident("k")), Some(s("(sig) => fq(k, sig)")));
    assert_eq!(with(Expr::This), Some(s("(sig) => fq(null, sig)")));
    assert_eq!(with(num("1.5")), Some(s("(sig) => fq(1.5, sig)")));
}

#[test]
fn rewrites_are_idempotent() {
    let once = rewrite_statement(this_or_self_stmt());
    let twice = rewrite_statement(rewrite_statement(this_or_self_stmt()));
    assert_eq!(format!("{:?}", once), format!("{:?}", twice));
    let once = rewrite_statement(g_decl());
    let twice = rewrite_statement(rewrite_statement(g_decl()));
    assert_eq!(format!("{:?}", once), format!("{:?}", twice));
}

#[test]
fn rewrites_leave_other_statements_alone() {
    let h = Stmt::FnDecl { ident: s("h"), function: func(0, vec![]) };
    assert!(matches!(transform_g_decl(h), Stmt::FnDecl { ident, .. } if ident == "h"));
    let that = Stmt::Expr(assign("x", Expr::Bin { op: BinOp::LogicalOr, left: bx(ident("that")), right: bx(ident("self")) }));
    let out = transform_this_or_self(that);
    assert!(matches!(&out, Stmt::Expr(Expr::Assign { right, .. }) if matches!(&**right, Expr::Bin { .. })));
}

#[test]
fn emitted_program_layout() {
    let p = emit_program("I", "S", "B", "(n) => f(n)", "(sig) => g(sig)");
    assert_eq!(p, "I\nS\nB\n_result.n = (n) => f(n);\n_result.sig = (sig) => g(sig);");
}

struct TreeHost;

impl ytdlp_ejs::ScriptHost for TreeHost {
    fn parse_module(&self, source: &str) -> Result<Module, String> {
        match source {
            "player" => Ok(Module { body: vec![Stmt::Expr(call_this(inner_statements()))] }),
            _ => Err(format!("cannot parse {}", source)),
        }
    }
    fn print_statements(&self, stmts: Vec<Stmt>) -> Result<String, String> {
        Ok(format!("<{} statements>", stmts.len()))
    }
    fn intl_polyfill(&self) -> String {
        "INTL".to_string()
    }
}

#[test]
fn player_source_becomes_an_emitted_program() {
    let p = ytdlp_ejs::preprocess_player(&TreeHost, "player").unwrap();
    let expected = format!(
        "INTL\n{}\n<5 statements>\n_result.n = (n) => nfn(n);\n_result.sig = (sig) => fq(7, sig);",
        ytdlp_ejs::polyfill::SETUP_CODE
    );
    assert_eq!(p, expected);
    match ytdlp_ejs::preprocess_player(&TreeHost, "junk") {
        Err(JsChallengeError::Parse(m)) => assert_eq!(m, "cannot parse junk"),
        other => panic!("unexpected {:?}", other),
    }
}

#[test]
fn text_helpers() {
    assert_eq!(decimal_text(0), "0");
    assert_eq!(decimal_text(40213), "40213");
    assert_eq!(quote("a\\b\"c\nd"), "\"a\\\\b\\\"c\\nd\"");
    assert_eq!(split_first_colon("n:a:b"), Some((s("n"), s("a:b"))));
    assert_eq!(split_first_colon("none"), None);
}

#[test]
fn node_queries() {
    assert!(is_identifier(&ident("self"), "self"));
    assert!(!is_identifier(&ident("selfish"), "self"));
    assert!(!is_identifier(&Expr::This, "this"));
    assert_eq!(get_ident_name(&ident("q")), Some("q"));
    assert_eq!(get_ident_name(&Expr::This), None);
    assert_eq!(get_pat_ident_name(&Pat::Ident(s("p"))), Some("p"));
    assert_eq!(get_pat_ident_name(&Pat::Other(3)), None);
}
