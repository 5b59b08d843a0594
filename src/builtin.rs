//! The challenge providers: a runtime wrapped with the provider interface, and
//! the programs (Deno, Node, Bun) that run one script per challenge.
use vstd::prelude::*;
use crate::provider::{JsChallengeError, JsChallengeType};
use crate::runtime::{possible_solve, print_call, print_call_script, solve_view, JsRuntime};
use crate::types::pairs_view;
use crate::text::texts;
use crate::types::answers_cover;

verus! {

/// A loaded runtime that answers challenges with the provider's error type.
pub struct JsRuntimeProvider<R: JsRuntime> {
    pub runtime: R,
}

/// The texts of a provider's batch result; a runtime error stands for its detail.
pub open spec fn provider_view(r: Result<Vec<(String, String)>, JsChallengeError>) -> Result<Seq<(Seq<char>, Seq<char>)>, Seq<char>> {
    match r {
        Ok(d) => Ok(pairs_view(d@)),
        Err(JsChallengeError::Runtime(m)) => Err(m@),
        Err(JsChallengeError::Parse(m)) => Err(m@),
        Err(JsChallengeError::Preprocess(m)) => Err(m@),
        Err(JsChallengeError::Io(m)) => Err(m@),
    }
}

impl<R: JsRuntime> JsRuntimeProvider<R> {
    /// Wraps a loaded runtime.
    pub fn new(runtime: R) -> (r: Self)
        ensures
            r.runtime == runtime,
    {
        JsRuntimeProvider { runtime }
    }

    /// Runs the `n` routine on one challenge.
    pub fn solve_n(&mut self, challenge: &str) -> (r: Result<String, JsChallengeError>)
        ensures
            final(self).runtime == old(self).runtime,
            r matches Err(e) ==> e is Runtime,
    {
        match self.runtime.solve_n(challenge) {
            Ok(a) => Ok(a),
            Err(e) => Err(JsChallengeError::Runtime(e)),
        }
    }

    /// Runs the `sig` routine on one challenge.
    pub fn solve_sig(&mut self, challenge: &str) -> (r: Result<String, JsChallengeError>)
        ensures
            final(self).runtime == old(self).runtime,
            r matches Err(e) ==> e is Runtime,
    {
        match self.runtime.solve_sig(challenge) {
            Ok(a) => Ok(a),
            Err(e) => Err(JsChallengeError::Runtime(e)),
        }
    }

    /// Answers every challenge with the routine of `req_type`, stopping at the
    /// first failure.
    pub fn solve_challenges(&mut self, req_type: &JsChallengeType, challenges: &Vec<String>) -> (r: Result<
        Vec<(String, String)>,
        JsChallengeError,
    >)
        ensures
            final(self).runtime == old(self).runtime,
            r matches Ok(data) ==> answers_cover(data@, texts(challenges@)),
            r matches Err(e) ==> e is Runtime,
            challenges@.len() == 0 ==> (r matches Ok(d) && d@.len() == 0),
            possible_solve(texts(challenges@), provider_view(r)),
    {
        let name = req_type.as_str();
        match self.runtime.solve_challenges(name, challenges) {
            Ok(data) => Ok(data),
            Err(e) => Err(JsChallengeError::Runtime(e)),
        }
    }
}

/// Answers challenges by running Bun on a script per challenge.
pub struct BunJCP {
    pub code: String,
}

/// Answers challenges by running Deno on a script per challenge.
pub struct DenoJCP {
    pub code: String,
}

/// Answers challenges by running Node.js on a script per challenge.
pub struct NodeJCP {
    pub code: String,
}

impl BunJCP {
    /// Keeps the emitted program.
    pub fn new(code: &str) -> (r: Self)
        ensures
            r.code@ == code@,
    {
        BunJCP { code: String::from_str(code) }
    }

    /// The script Bun reads from standard input to answer `challenge` with `func_name`.
    pub fn script(&self, func_name: &str, challenge: &str) -> (r: String)
        ensures
            r@ == print_call_script(self.code@, func_name@, challenge@),
    {
        print_call(self.code.as_str(), func_name, challenge)
    }
}

impl DenoJCP {
    /// Keeps the emitted program.
    pub fn new(code: &str) -> (r: Self)
        ensures
            r.code@ == code@,
    {
        DenoJCP { code: String::from_str(code) }
    }

    /// The script Deno reads from standard input to answer `challenge` with `func_name`.
    pub fn script(&self, func_name: &str, challenge: &str) -> (r: String)
        ensures
            r@ == print_call_script(self.code@, func_name@, challenge@),
    {
        print_call(self.code.as_str(), func_name, challenge)
    }
}

impl NodeJCP {
    /// Keeps the emitted program.
    pub fn new(code: &str) -> (r: Self)
        ensures
            r.code@ == code@,
    {
        NodeJCP { code: String::from_str(code) }
    }

    /// The script Node.js reads from standard input to answer `challenge` with `func_name`.
    pub fn script(&self, func_name: &str, challenge: &str) -> (r: String)
        ensures
            r@ == print_call_script(self.code@, func_name@, challenge@),
    {
        print_call(self.code.as_str(), func_name, challenge)
    }
}

} // verus!
