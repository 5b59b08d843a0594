//! The request, response and error types of the challenge-provider interface.
use vstd::prelude::*;

verus! {

/// Why a batch of challenges could not be answered.
#[derive(Debug, Clone)]
pub enum JsChallengeError {
    /// The player did not parse, or its top level has none of the known envelopes.
    Parse(String),
    /// The `sig` or `n` routine was not found exactly once.
    Preprocess(String),
    /// The JavaScript runtime failed to start, to load the program or to answer.
    Runtime(String),
    /// Reading the player failed.
    Io(String),
}

/// Whether `e` is a parse error with message `msg`.
pub open spec fn is_parse_error(e: JsChallengeError, msg: Seq<char>) -> bool {
    match e {
        JsChallengeError::Parse(m) => m@ == msg,
        _ => false,
    }
}

/// Whether `e` is a preprocess error with message `msg`.
pub open spec fn is_preprocess_error(e: JsChallengeError, msg: Seq<char>) -> bool {
    match e {
        JsChallengeError::Preprocess(m) => m@ == msg,
        _ => false,
    }
}

impl JsChallengeError {
    /// The error as a sentence: its kind followed by its detail.
    pub fn message(&self) -> (r: String)
        ensures
            r@ == error_text(*self),
    {
        let (mut m, d) = match self {
            JsChallengeError::Parse(d) => (String::from_str("Parse error: "), d),
            JsChallengeError::Preprocess(d) => (String::from_str("Preprocess error: "), d),
            JsChallengeError::Runtime(d) => (String::from_str("Runtime error: "), d),
            JsChallengeError::Io(d) => (String::from_str("IO error: "), d),
        };
        m.append(d.as_str());
        m
    }
}

/// The sentence that describes an error.
pub open spec fn error_text(e: JsChallengeError) -> Seq<char> {
    match e {
        JsChallengeError::Parse(d) => "Parse error: "@ + d@,
        JsChallengeError::Preprocess(d) => "Preprocess error: "@ + d@,
        JsChallengeError::Runtime(d) => "Runtime error: "@ + d@,
        JsChallengeError::Io(d) => "IO error: "@ + d@,
    }
}

/// Which of the two routines a challenge is for.
#[derive(Debug, Clone, Copy, PartialEq, Eq, Structural)]
pub enum JsChallengeType {
    N,
    Sig,
}

impl JsChallengeType {
    /// The routine's name: `n` or `sig`.
    pub fn as_str(&self) -> (r: &'static str)
        ensures
            r@ == challenge_kind_name(*self),
    {
        match self {
            JsChallengeType::N => "n",
            JsChallengeType::Sig => "sig",
        }
    }
}

/// The name of a routine.
pub open spec fn challenge_kind_name(t: JsChallengeType) -> Seq<char> {
    match t {
        JsChallengeType::N => "n"@,
        JsChallengeType::Sig => "sig"@,
    }
}

/// A batch of challenges for one routine.
#[derive(Debug, Clone)]
pub struct JsChallengeRequest {
    pub challenge_type: JsChallengeType,
    pub challenges: Vec<String>,
}

/// The answers to one batch, as (challenge, answer) pairs with distinct
/// challenges, or the error that stopped it.
#[derive(Debug, Clone)]
pub enum JsChallengeResponse {
    Result { data: Vec<(String, String)> },
    Error { error: String },
}

/// What the provider is asked: a player to preprocess first, or an already
/// preprocessed program, with the batches to answer.
#[derive(Debug, Clone)]
pub enum JsChallengeInput {
    Player { player: String, requests: Vec<JsChallengeRequest>, output_preprocessed: bool },
    Preprocessed { preprocessed_player: String, requests: Vec<JsChallengeRequest> },
}

/// The provider's answer: one response per batch, in order, with the emitted
/// program when it was asked for, or the error that stopped everything.
#[derive(Debug, Clone)]
pub enum JsChallengeOutput {
    Result { preprocessed_player: Option<String>, responses: Vec<JsChallengeResponse> },
    Error { error: String },
}

} // verus!
