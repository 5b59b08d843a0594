//! The player preprocessor: unwraps the inner block, collects the `n` and `sig`
//! thunks, rewrites the block's statements and assembles the emitted program.
use vstd::prelude::*;
use crate::ast::{Module, Stmt};
use crate::envelope::{extract_main_block, inner_block, shape_message};
use crate::n::{self, n_candidate};
use crate::polyfill::SETUP_CODE;
use crate::provider::{is_parse_error, is_preprocess_error, JsChallengeError};
use crate::rewrite::{lemma_rewrite_idempotent, rewrite, rewrite_statement};
use crate::sig::{self, sig_candidate};
use crate::text::{join_texts, joined, texts};

verus! {

/// The `n` thunks that the statements of `b` contribute, in order, repeats included.
pub open spec fn n_found(b: Seq<Stmt>) -> Seq<Seq<char>>
    decreases b.len(),
{
    if b.len() == 0 {
        Seq::empty()
    } else {
        match n_candidate(b.last()) {
            Some(t) => n_found(b.drop_last()).push(t),
            None => n_found(b.drop_last()),
        }
    }
}

/// The `sig` thunks that the statements of `b` contribute, in order, repeats included.
pub open spec fn sig_found(b: Seq<Stmt>) -> Seq<Seq<char>>
    decreases b.len(),
{
    if b.len() == 0 {
        Seq::empty()
    } else {
        match sig_candidate(b.last()) {
            Some(t) => sig_found(b.drop_last()).push(t),
            None => sig_found(b.drop_last()),
        }
    }
}

/// Whether `c` is not empty and all its elements are equal.
pub open spec fn unique(c: Seq<Seq<char>>) -> bool {
    c.len() > 0 && forall|i: int| 0 <= i < c.len() ==> #[trigger] c[i] == c[0]
}

/// The message for a routine of the given kind that was not found exactly once.
pub open spec fn ambiguity_message(kind: Seq<char>, c: Seq<Seq<char>>) -> Seq<char> {
    if c.len() == 0 {
        "found no "@ + kind + " function"@
    } else {
        "found differing "@ + kind + " functions: "@ + joined(c)
    }
}

/// Every statement of `b` rewritten, in the same order.
pub open spec fn rewritten(b: Seq<Stmt>) -> Seq<Stmt> {
    b.map_values(|s: Stmt| rewrite(s))
}

/// The rewritten inner block of a player and the thunks of its two routines.
#[derive(Debug)]
pub struct Preprocessed {
    pub stmts: Vec<Stmt>,
    pub n: String,
    pub sig: String,
}

/// What preprocessing `m` yields: the parse error for its top-level shape, the ambiguity error
/// of the first routine not found exactly once (`n` before `sig`), or the
/// rewritten block with the thunks.
pub open spec fn preprocess_result(m: Module, r: Result<Preprocessed, JsChallengeError>) -> bool {
    match inner_block(m) {
        None => r matches Err(e) && is_parse_error(e, shape_message(m.body@.len())),
        Some(b) => if !unique(n_found(b)) {
            r matches Err(e) && is_preprocess_error(e, ambiguity_message("n"@, n_found(b)))
        } else if !unique(sig_found(b)) {
            r matches Err(e) && is_preprocess_error(e, ambiguity_message("sig"@, sig_found(b)))
        } else {
            r matches Ok(p) && p.stmts@ == rewritten(b) && p.n@ == n_found(b)[0] && p.sig@ == sig_found(b)[0]
        },
    }
}

fn all_same(v: &Vec<String>) -> (r: bool)
    ensures
        r == unique(texts(v@)),
{
    if v.len() == 0 {
        return false;
    }
    let mut i: usize = 1;
    while i < v.len()
        invariant
            1 <= i <= v@.len(),
            forall|j: int| 0 <= j < i ==> #[trigger] texts(v@)[j] == texts(v@)[0],
        decreases v.len() - i,
    {
        if !(v[i] == v[0]) {
            assert(texts(v@)[i as int] != texts(v@)[0]);
            return false;
        }
        i = i + 1;
    }
    true
}

fn ambiguity_error(kind: &str, found: &Vec<String>) -> (r: String)
    ensures
        r@ == ambiguity_message(kind@, texts(found@)),
{
    if found.len() == 0 {
        let mut m = String::from_str("found no ");
        m.append(kind);
        m.append(" function");
        m
    } else {
        let mut m = String::from_str("found differing ");
        m.append(kind);
        m.append(" functions: ");
        let j = join_texts(found);
        m.append(j.as_str());
        m
    }
}

/// Preprocesses a parsed player: unwraps its inner block, finds the one `n` and
/// the one `sig` thunk, and rewrites every statement of the block in order.
pub fn preprocess_module(module: Module) -> (r: Result<Preprocessed, JsChallengeError>)
    ensures
        preprocess_result(module, r),
{
    let ghost m = module;
    let mut block = match extract_main_block(module) {
        Ok(b) => b,
        Err(e) => return Err(e),
    };
    let ghost b = block@;
    let len = block.len();
    let mut found_n: Vec<String> = Vec::new();
    let mut found_sig: Vec<String> = Vec::new();
    let mut stmts: Vec<Stmt> = Vec::new();
    let mut i: usize = 0;
    while i < len
        invariant
            inner_block(m) == Some(b),
            len == b.len(),
            block@.len() == len,
            i <= len,
            forall|j: int| i <= j < len ==> #[trigger] block@[j] == b[j],
            texts(found_n@) == n_found(b.subrange(0, i as int)),
            texts(found_sig@) == sig_found(b.subrange(0, i as int)),
            stmts@ == rewritten(b.subrange(0, i as int)),
        decreases len - i,
    {
        let mut s = Stmt::Other(0);
        block.set_and_swap(i, &mut s);
        let ghost sub = b.subrange(0, i as int + 1);
        assert(sub.drop_last() =~= b.subrange(0, i as int));
        assert(sub.last() == s);
        match n::extract(&s) {
            Some(t) => {
                found_n.push(t);
                assert(texts(found_n@) =~= n_found(sub));
            },
            None => {},
        }
        match sig::extract(&s) {
            Some(t) => {
                found_sig.push(t);
                assert(texts(found_sig@) =~= sig_found(sub));
            },
            None => {},
        }
        stmts.push(rewrite_statement(s));
        assert(stmts@ =~= rewritten(sub));
        i = i + 1;
    }
    assert(b.subrange(0, len as int) =~= b);
    if !all_same(&found_n) {
        return Err(JsChallengeError::Preprocess(ambiguity_error("n", &found_n)));
    }
    if !all_same(&found_sig) {
        return Err(JsChallengeError::Preprocess(ambiguity_error("sig", &found_sig)));
    }
    let n_thunk = found_n[0].clone();
    let sig_thunk = found_sig[0].clone();
    Ok(Preprocessed { stmts, n: n_thunk, sig: sig_thunk })
}

/// The emitted program: the Intl polyfill, the browser shim, the printed block and
/// the two assignments to `_result`, joined by single newlines.
pub open spec fn program_text(intl: Seq<char>, shim: Seq<char>, body: Seq<char>, n: Seq<char>, sig: Seq<char>) -> Seq<char> {
    intl + "\n"@ + shim + "\n"@ + body + "\n_result.n = "@ + n + ";\n_result.sig = "@ + sig + ";"@
}

/// Assembles the emitted program from its parts.
pub fn emit_program(intl: &str, shim: &str, body: &str, n: &str, sig: &str) -> (r: String)
    ensures
        r@ == program_text(intl@, shim@, body@, n@, sig@),
{
    let mut r = String::from_str(intl);
    r.append("\n");
    r.append(shim);
    r.append("\n");
    r.append(body);
    r.append("\n_result.n = ");
    r.append(n);
    r.append(";\n_result.sig = ");
    r.append(sig);
    r.append(";");
    r
}

/// Preprocessing is a function of the parsed player: two results for the same
/// module carry the same statements, thunks and error.
pub proof fn lemma_deterministic(
    m: Module,
    r1: Result<Preprocessed, JsChallengeError>,
    r2: Result<Preprocessed, JsChallengeError>,
)
    requires
        preprocess_result(m, r1),
        preprocess_result(m, r2),
    ensures
        r1 is Ok <==> r2 is Ok,
        r1 matches Ok(p1) ==> (r2 matches Ok(p2) && p1.stmts@ == p2.stmts@ && p1.n@ == p2.n@ && p1.sig@ == p2.sig@),
        r1 matches Err(e1) ==> (r2 matches Err(e2) && same_error(e1, e2)),
{
}

/// Whether two errors are of the same kind with the same message.
pub open spec fn same_error(a: JsChallengeError, b: JsChallengeError) -> bool {
    match (a, b) {
        (JsChallengeError::Parse(x), JsChallengeError::Parse(y)) => x@ == y@,
        (JsChallengeError::Preprocess(x), JsChallengeError::Preprocess(y)) => x@ == y@,
        (JsChallengeError::Runtime(x), JsChallengeError::Runtime(y)) => x@ == y@,
        (JsChallengeError::Io(x), JsChallengeError::Io(y)) => x@ == y@,
        _ => false,
    }
}

/// After a successful preprocessing, the distinct `n` thunks found form a set of
/// one element, the returned one, and likewise for `sig`.
pub proof fn lemma_unique_thunks(m: Module, r: Result<Preprocessed, JsChallengeError>)
    requires
        preprocess_result(m, r),
        r is Ok,
    ensures
        inner_block(m) is Some,
        n_found(inner_block(m)->0).to_set() == set![r->Ok_0.n@],
        n_found(inner_block(m)->0).to_set().len() == 1,
        sig_found(inner_block(m)->0).to_set() == set![r->Ok_0.sig@],
        sig_found(inner_block(m)->0).to_set().len() == 1,
{
    let b = inner_block(m)->0;
    lemma_single_set(n_found(b));
    lemma_single_set(sig_found(b));
}

proof fn lemma_single_set(c: Seq<Seq<char>>)
    requires
        unique(c),
    ensures
        c.to_set() == set![c[0]],
        c.to_set().len() == 1,
{
    assert forall|x: Seq<char>| c.to_set().contains(x) <==> set![c[0]].contains(x) by {
        if c.to_set().contains(x) {
            let i = choose|i: int| 0 <= i < c.len() && c[i] == x;
            assert(c[i] == c[0]);
        }
        if x == c[0] {
            assert(c.contains(x));
        }
    }
    assert(c.to_set() =~= set![c[0]]);
}

/// The emitted statements are the inner block's statements, each rewritten, in
/// the same order.
pub proof fn lemma_order_preserved(m: Module, r: Result<Preprocessed, JsChallengeError>)
    requires
        preprocess_result(m, r),
        r is Ok,
    ensures
        inner_block(m) is Some,
        r->Ok_0.stmts@.len() == inner_block(m)->0.len(),
        forall|i: int| 0 <= i < r->Ok_0.stmts@.len() ==> #[trigger] r->Ok_0.stmts@[i] == rewrite(inner_block(m)->0[i]),
{
}

/// A module whose top level does not hold one or two items, or holds none of the
/// known envelopes, fails with a parse error.
pub proof fn lemma_shape_closure(m: Module, r: Result<Preprocessed, JsChallengeError>)
    requires
        preprocess_result(m, r),
        m.body@.len() != 1 && m.body@.len() != 2 || inner_block(m) is None,
    ensures
        r matches Err(e) && e is Parse,
{
}

/// Rewriting a whole block a second time changes nothing.
pub proof fn lemma_block_rewrite_idempotent(b: Seq<Stmt>)
    ensures
        rewritten(rewritten(b)) == rewritten(b),
{
    assert forall|i: int| 0 <= i < b.len() implies #[trigger] rewritten(rewritten(b))[i] == rewritten(b)[i] by {
        lemma_rewrite_idempotent(b[i]);
    }
    assert(rewritten(rewritten(b)) =~= rewritten(b));
}

/// The embedding's ECMAScript parser and printer for the syntax tree, and the
/// Intl polyfill text it ships for runtimes that lack `Intl`.
pub trait ScriptHost {
    /// Parses a whole script, or says why it does not parse.
    fn parse_module(&self, source: &str) -> Result<Module, String>;

    /// Prints statements in order with default formatting, or says why it could not.
    fn print_statements(&self, stmts: Vec<Stmt>) -> Result<String, String>;

    /// The Intl polyfill that opens every emitted program.
    fn intl_polyfill(&self) -> String;
}

/// Whether `p` is the program emitted for module `m`: `m` has an inner block
/// with exactly one `n` and one `sig` thunk, and `p` joins the Intl polyfill
/// `intl`, the browser shim, a printed block `body` and those thunks.
pub open spec fn emitted_from(m: Module, intl: Seq<char>, body: Seq<char>, p: Seq<char>) -> bool {
    match inner_block(m) {
        Some(b) => {
            &&& unique(n_found(b))
            &&& unique(sig_found(b))
            &&& p == program_text(intl, SETUP_CODE@, body, n_found(b)[0], sig_found(b)[0])
        },
        None => false,
    }
}

/// Whether `p` is the program emitted for some module.
pub open spec fn is_emitted_program(p: Seq<char>) -> bool {
    exists|m: Module, intl: Seq<char>, body: Seq<char>| #[trigger] emitted_from(m, intl, body, p)
}

/// What preprocessing a player gives when the host's parse of it is `parsed`,
/// preprocessing the parsed module gives `pre`, the host prints the rewritten
/// block as `printed`, and the host's Intl polyfill is `intl`: the parse
/// failure as a parse error, the preprocessing error unchanged, the printing
/// failure as a runtime error, or the emitted program.
pub open spec fn player_outcome(
    parsed: Result<Module, String>,
    pre: Result<Preprocessed, JsChallengeError>,
    printed: Result<String, String>,
    intl: Seq<char>,
    r: Result<String, JsChallengeError>,
) -> bool {
    match parsed {
        Err(msg) => r matches Err(JsChallengeError::Parse(m)) && m@ == msg@,
        Ok(m) => preprocess_result(m, pre) && match pre {
            Err(e) => r == Err::<String, JsChallengeError>(e),
            Ok(p) => match printed {
                Err(msg) => r matches Err(JsChallengeError::Runtime(x)) && x@ == "Code generation failed: "@ + msg@,
                Ok(body) => r matches Ok(out) && out@ == program_text(intl, SETUP_CODE@, body@, p.n@, p.sig@),
            },
        },
    }
}

/// Whether `r` is what preprocessing a player gives for some results of the host.
pub open spec fn possible_player_result(r: Result<String, JsChallengeError>) -> bool {
    exists|parsed: Result<Module, String>, pre: Result<Preprocessed, JsChallengeError>, printed: Result<String, String>, intl: Seq<char>|
        #[trigger] player_outcome(parsed, pre, printed, intl, r)
}

/// Preprocesses a player's source: parses it with the host, preprocesses the
/// module, prints the rewritten block and assembles the emitted program.
pub fn preprocess_player<H: ScriptHost>(host: &H, data: &str) -> (r: Result<String, JsChallengeError>)
    ensures
        possible_player_result(r),
        r matches Ok(p) ==> is_emitted_program(p@),
        r matches Err(e) ==> (e is Parse || e is Preprocess || e is Runtime),
{
    let parsed = host.parse_module(data);
    let ghost parsed_g = parsed;
    let module = match parsed {
        Ok(m) => m,
        Err(e) => {
            let r: Result<String, JsChallengeError> = Err(JsChallengeError::Parse(e));
            assert(player_outcome(parsed_g, arbitrary(), arbitrary(), Seq::empty(), r));
            return r;
        },
    };
    let pre = preprocess_module(module);
    let ghost pre_g = pre;
    let pre = match pre {
        Ok(p) => p,
        Err(e) => {
            assert(player_outcome(parsed_g, pre_g, arbitrary(), Seq::empty(), Err::<String, JsChallengeError>(e)));
            return Err(e);
        },
    };
    let printed = host.print_statements(pre.stmts);
    let ghost printed_g = printed;
    let body = match printed {
        Ok(b) => b,
        Err(e) => {
            let mut m = String::from_str("Code generation failed: ");
            m.append(e.as_str());
            let r: Result<String, JsChallengeError> = Err(JsChallengeError::Runtime(m));
            assert(player_outcome(parsed_g, pre_g, printed_g, Seq::empty(), r));
            return r;
        },
    };
    let intl = host.intl_polyfill();
    let p = emit_program(intl.as_str(), SETUP_CODE, body.as_str(), pre.n.as_str(), pre.sig.as_str());
    assert(emitted_from(parsed_g->Ok_0, intl@, body@, p@));
    assert(player_outcome(parsed_g, pre_g, printed_g, intl@, Ok::<String, JsChallengeError>(p)));
    Ok(p)
}

} // verus!
