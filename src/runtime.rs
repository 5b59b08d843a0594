//! JavaScript runtimes: which ones exist, how one is named, the interface each
//! implements, and the scripts handed to the runtimes that run as programs.
use vstd::prelude::*;
use crate::text::{escaped, push_escaped, str_is, texts};
use crate::types::{answer_keys, answers_cover, insert_answer, pairs_view, with_answer};

verus! {

/// A JavaScript runtime that can host an emitted program.
#[derive(Debug, Clone, Copy, PartialEq, Eq, Structural)]
pub enum RuntimeType {
    QuickJS,
    Boa,
    Deno,
    Node,
    Bun,
}

/// The runtime a lower-case name selects.
pub open spec fn runtime_named(s: Seq<char>) -> Option<RuntimeType> {
    if s == "qjs"@ || s == "quickjs"@ {
        Some(RuntimeType::QuickJS)
    } else if s == "deno"@ {
        Some(RuntimeType::Deno)
    } else if s == "boa"@ {
        Some(RuntimeType::Boa)
    } else if s == "node"@ || s == "nodejs"@ {
        Some(RuntimeType::Node)
    } else if s == "bun"@ {
        Some(RuntimeType::Bun)
    } else {
        None
    }
}

/// What `str::to_lowercase` makes of a string.
pub uninterp spec fn lowercase_of(s: Seq<char>) -> Seq<char>;

/// Relies on `str::to_lowercase`: the result depends on the characters alone.
#[verifier::external_body]
fn lowercase(s: &str) -> (r: String)
    ensures
        r@ == lowercase_of(s@),
{
    s.to_lowercase()
}

impl RuntimeType {
    /// The runtime that a name selects, ignoring case.
    pub fn parse(s: &str) -> (r: Option<RuntimeType>)
        ensures
            r == runtime_named(lowercase_of(s@)),
    {
        let l = lowercase(s);
        Self::parse_lowercase(l.as_str())
    }

    /// The runtime that an already lower-case name selects.
    pub fn parse_lowercase(s: &str) -> (r: Option<RuntimeType>)
        ensures
            r == runtime_named(s@),
    {
        if str_is(s, "qjs") || str_is(s, "quickjs") {
            Some(RuntimeType::QuickJS)
        } else if str_is(s, "deno") {
            Some(RuntimeType::Deno)
        } else if str_is(s, "boa") {
            Some(RuntimeType::Boa)
        } else if str_is(s, "node") || str_is(s, "nodejs") {
            Some(RuntimeType::Node)
        } else if str_is(s, "bun") {
            Some(RuntimeType::Bun)
        } else {
            None
        }
    }

    /// The names of the runtimes, one per runtime.
    pub fn available_runtimes() -> (r: Vec<&'static str>)
        ensures
            r@.len() == 5,
            r@[0]@ == "qjs"@,
            r@[1]@ == "deno"@,
            r@[2]@ == "boa"@,
            r@[3]@ == "node"@,
            r@[4]@ == "bun"@,
    {
        let mut v: Vec<&'static str> = Vec::new();
        v.push("qjs");
        v.push("deno");
        v.push("boa");
        v.push("node");
        v.push("bun");
        v
    }
}

impl Default for RuntimeType {
    /// QuickJS, the embedded runtime.
    fn default() -> (r: RuntimeType)
        ensures
            r == RuntimeType::QuickJS,
    {
        RuntimeType::QuickJS
    }
}

/// The message for a request of a kind that is neither `n` nor `sig`.
pub open spec fn unknown_type_message(t: Seq<char>) -> Seq<char> {
    "Unknown request type: "@ + t
}

/// The result of answering challenges `cs` in order when the routine's result for
/// the challenge at position `i` is `results[i]`: the answers with repeated
/// challenges recorded once, or the first failure.
pub open spec fn solved(cs: Seq<Seq<char>>, results: Seq<Result<Seq<char>, Seq<char>>>) -> Result<
    Seq<(Seq<char>, Seq<char>)>,
    Seq<char>,
>
    decreases cs.len(),
{
    if cs.len() == 0 {
        Ok(Seq::empty())
    } else {
        match solved(cs.drop_last(), results) {
            Err(e) => Err(e),
            Ok(d) => match results[cs.len() - 1] {
                Ok(a) => Ok(with_answer(d, cs.last(), a)),
                Err(e) => Err(e),
            },
        }
    }
}

/// The texts of a batch's result.
pub open spec fn solve_view(r: Result<Vec<(String, String)>, String>) -> Result<Seq<(Seq<char>, Seq<char>)>, Seq<char>> {
    match r {
        Ok(d) => Ok(pairs_view(d@)),
        Err(e) => Err(e@),
    }
}

/// Whether `x` is what answering `cs` gives for some results of the routine.
pub open spec fn possible_solve(cs: Seq<Seq<char>>, x: Result<Seq<(Seq<char>, Seq<char>)>, Seq<char>>) -> bool {
    exists|results: Seq<Result<Seq<char>, Seq<char>>>| #[trigger] solved(cs, results) == x
}

/// Only the results of the first `cs.len()` challenges matter.
pub proof fn lemma_solved_prefix(cs: Seq<Seq<char>>, r1: Seq<Result<Seq<char>, Seq<char>>>, r2: Seq<Result<Seq<char>, Seq<char>>>)
    requires
        forall|i: int| 0 <= i < cs.len() ==> #[trigger] r1[i] == r2[i],
    ensures
        solved(cs, r1) == solved(cs, r2),
    decreases cs.len(),
{
    if cs.len() > 0 {
        lemma_solved_prefix(cs.drop_last(), r1, r2);
    }
}

/// Once answering a prefix of `cs` fails, answering all of `cs` fails the same way.
pub proof fn lemma_solved_error_stays(cs: Seq<Seq<char>>, results: Seq<Result<Seq<char>, Seq<char>>>, k: int)
    requires
        0 <= k <= cs.len(),
        solved(cs.subrange(0, k), results) is Err,
    ensures
        solved(cs, results) == solved(cs.subrange(0, k), results),
    decreases cs.len(),
{
    if cs.len() > k {
        assert(cs.drop_last().subrange(0, k) =~= cs.subrange(0, k));
        lemma_solved_error_stays(cs.drop_last(), results, k);
    } else {
        assert(cs.subrange(0, k) =~= cs);
    }
}

/// A runtime that has loaded an emitted program and answers challenges with its
/// `_result.n` and `_result.sig` functions.
pub trait JsRuntime: Sized {
    /// Starts the runtime and loads the emitted program `code`.
    fn from_prepared(code: &str) -> Result<Self, String>;

    fn solve_n(&self, challenge: &str) -> Result<String, String>;

    fn solve_sig(&self, challenge: &str) -> Result<String, String>;

    /// Whether the program defined `_result.n` as a function.
    fn has_n(&self) -> bool;

    /// Whether the program defined `_result.sig` as a function.
    fn has_sig(&self) -> bool;

    /// Answers every challenge with the routine named `req_type` (`n` or `sig`),
    /// stopping at the first failure.
    fn solve_challenges(&self, req_type: &str, challenges: &Vec<String>) -> (r: Result<Vec<(String, String)>, String>)
        ensures
            r matches Ok(data) ==> answers_cover(data@, texts(challenges@)),
            challenges@.len() > 0 && req_type@ != "n"@ && req_type@ != "sig"@
                ==> (r matches Err(e) && e@ == unknown_type_message(req_type@)),
            challenges@.len() == 0 ==> (r matches Ok(d) && d@.len() == 0),
            req_type@ == "n"@ || req_type@ == "sig"@ ==> possible_solve(texts(challenges@), solve_view(r)),
    {
        let ghost cs = texts(challenges@);
        let is_n = str_is(req_type, "n");
        let is_sig = str_is(req_type, "sig");
        let mut data: Vec<(String, String)> = Vec::new();
        let ghost mut got: Seq<Result<Seq<char>, Seq<char>>> = Seq::empty();
        assert(cs.subrange(0, 0) =~= Seq::<Seq<char>>::empty());
        assert(pairs_view(data@) =~= Seq::<(Seq<char>, Seq<char>)>::empty());
        let mut i: usize = 0;
        while i < challenges.len()
            invariant
                i <= challenges@.len(),
                cs == texts(challenges@),
                is_n == (req_type@ == "n"@),
                is_sig == (req_type@ == "sig"@),
                i > 0 ==> is_n || is_sig,
                answers_cover(data@, cs.subrange(0, i as int)),
                got.len() == i,
                solved(cs.subrange(0, i as int), got) == Ok::<_, Seq<char>>(pairs_view(data@)),
            decreases challenges.len() - i,
        {
            let c = &challenges[i];
            let answer = if is_n {
                self.solve_n(c.as_str())
            } else if is_sig {
                self.solve_sig(c.as_str())
            } else {
                let mut m = String::from_str("Unknown request type: ");
                m.append(req_type);
                return Err(m);
            };
            let ghost sub = cs.subrange(0, i as int + 1);
            proof {
                assert(sub.drop_last() =~= cs.subrange(0, i as int));
                assert(sub.last() == c@);
            }
            let a = match answer {
                Ok(a) => a,
                Err(e) => {
                    proof {
                        let g2 = got.push(Err::<Seq<char>, Seq<char>>(e@));
                        lemma_solved_prefix(cs.subrange(0, i as int), got, g2);
                        assert(solved(sub, g2) == Err::<Seq<(Seq<char>, Seq<char>)>, Seq<char>>(e@));
                        lemma_solved_error_stays(cs, g2, i as int + 1);
                        assert(solved(cs, g2) == solve_view(Err(e)));
                    }
                    return Err(e);
                },
            };
            let ghost pv0 = pairs_view(data@);
            let ghost k0 = answer_keys(data@);
            let ghost a_text = a@;
            insert_answer(&mut data, c.clone(), a);
            proof {
                let g2 = got.push(Ok::<Seq<char>, Seq<char>>(a_text));
                lemma_solved_prefix(cs.subrange(0, i as int), got, g2);
                assert(solved(sub, g2) == Ok::<_, Seq<char>>(with_answer(pv0, c@, a_text)));
                got = g2;
                let k1 = answer_keys(data@);
                let sub = cs.subrange(0, i as int + 1);
                assert(sub =~= cs.subrange(0, i as int).push(c@));
                assert forall|j: int| 0 <= j < k1.len() implies sub.contains(#[trigger] k1[j]) by {
                    assert(k1.to_set().contains(k1[j]));
                    if k1[j] != c@ {
                        assert(k0.to_set().contains(k1[j]));
                        let t = choose|t: int| 0 <= t < k0.len() && k0[t] == k1[j];
                        assert(cs.subrange(0, i as int).contains(k0[t]));
                        let u = choose|u: int| 0 <= u < i && cs.subrange(0, i as int)[u] == k0[t];
                        assert(sub[u] == k1[j]);
                    } else {
                        assert(sub[i as int] == k1[j]);
                    }
                }
                assert forall|j: int| 0 <= j < sub.len() implies k1.contains(#[trigger] sub[j]) by {
                    if j < i {
                        assert(cs.subrange(0, i as int)[j] == sub[j]);
                        assert(k0.contains(sub[j]));
                        assert(k0.to_set().contains(sub[j]));
                        assert(k1.to_set().contains(sub[j]));
                    } else {
                        assert(k1.to_set().contains(c@));
                    }
                }
            }
            i = i + 1;
        }
        assert(cs.subrange(0, challenges@.len() as int) =~= cs);
        assert(solved(cs, got) == solve_view(Ok(data)));
        Ok(data)
    }
}

/// The script that prints `_result.<f>("<challenge>")` after loading `code`, for a
/// runtime that reads it from standard input.
pub open spec fn print_call_script(code: Seq<char>, f: Seq<char>, challenge: Seq<char>) -> Seq<char> {
    "const _result = {};\n"@ + code + "\nconsole.log(_result."@ + f + "(\""@ + escaped(challenge) + "\"));"@
}

/// The script that stores `_result.<f>("<challenge>")` and prints it after loading
/// `code`, for a runtime that runs it from a file.
pub open spec fn stored_call_script(code: Seq<char>, f: Seq<char>, challenge: Seq<char>) -> Seq<char> {
    "const _result = {};\n"@ + code + "\nconst result = _result."@ + f + "(\""@ + escaped(challenge) + "\");\nconsole.log(result);\n"@
}

/// Builds the script of `print_call_script`.
pub fn print_call(code: &str, f: &str, challenge: &str) -> (r: String)
    ensures
        r@ == print_call_script(code@, f@, challenge@),
{
    let mut s = String::from_str("const _result = {};\n");
    s.append(code);
    s.append("\nconsole.log(_result.");
    s.append(f);
    s.append("(\"");
    push_escaped(&mut s, challenge);
    s.append("\"));");
    s
}

/// Builds the script of `stored_call_script`.
pub fn stored_call(code: &str, f: &str, challenge: &str) -> (r: String)
    ensures
        r@ == stored_call_script(code@, f@, challenge@),
{
    let mut s = String::from_str("const _result = {};\n");
    s.append(code);
    s.append("\nconst result = _result.");
    s.append(f);
    s.append("(\"");
    push_escaped(&mut s, challenge);
    s.append("\");\nconsole.log(result);\n");
    s
}

/// A runtime that runs Bun on a script file per challenge.
pub struct BunSolver {
    pub code: String,
}

/// A runtime that runs Deno on a script file per challenge.
pub struct DenoSolver {
    pub code: String,
}

/// A runtime that runs Node.js on a script file per challenge.
pub struct NodeSolver {
    pub code: String,
}

impl BunSolver {
    /// Keeps the emitted program.
    pub fn new(code: &str) -> (r: Self)
        ensures
            r.code@ == code@,
    {
        BunSolver { code: String::from_str(code) }
    }

    /// The script file that answers `challenge` with `func_name`.
    pub fn script(&self, func_name: &str, challenge: &str) -> (r: String)
        ensures
            r@ == stored_call_script(self.code@, func_name@, challenge@),
    {
        stored_call(self.code.as_str(), func_name, challenge)
    }
}

impl DenoSolver {
    /// Keeps the emitted program.
    pub fn new(code: &str) -> (r: Self)
        ensures
            r.code@ == code@,
    {
        DenoSolver { code: String::from_str(code) }
    }

    /// The script file that answers `challenge` with `func_name`.
    pub fn script(&self, func_name: &str, challenge: &str) -> (r: String)
        ensures
            r@ == stored_call_script(self.code@, func_name@, challenge@),
    {
        stored_call(self.code.as_str(), func_name, challenge)
    }
}

impl NodeSolver {
    /// Keeps the emitted program.
    pub fn new(code: &str) -> (r: Self)
        ensures
            r.code@ == code@,
    {
        NodeSolver { code: String::from_str(code) }
    }

    /// The script file that answers `challenge` with `func_name`.
    pub fn script(&self, func_name: &str, challenge: &str) -> (r: String)
        ensures
            r@ == stored_call_script(self.code@, func_name@, challenge@),
    {
        stored_call(self.code.as_str(), func_name, challenge)
    }
}

} // verus!
