//! Directs a provider request: preprocess the player if one is given, load the
//! program into a runtime, and answer each batch.
use vstd::prelude::*;
use crate::builtin::{provider_view, JsRuntimeProvider};
use crate::preprocessor::{possible_player_result, preprocess_player, ScriptHost};
use crate::provider::{error_text, JsChallengeError, JsChallengeInput, JsChallengeOutput, JsChallengeRequest, JsChallengeResponse};
use crate::runtime::{possible_solve, JsRuntime};
use crate::text::texts;
use crate::types::pairs_view;

verus! {

/// The batches of an input.
pub open spec fn challenge_requests(input: JsChallengeInput) -> Seq<JsChallengeRequest> {
    match input {
        JsChallengeInput::Player { requests, .. } => requests@,
        JsChallengeInput::Preprocessed { requests, .. } => requests@,
    }
}

/// The response for a batch whose answering gave `r`: its answers, or the text of
/// its error.
pub open spec fn challenge_response_is(r: Result<Vec<(String, String)>, JsChallengeError>, resp: JsChallengeResponse) -> bool {
    match r {
        Ok(d) => resp matches JsChallengeResponse::Result { data } && pairs_view(data@) == pairs_view(d@),
        Err(e) => resp matches JsChallengeResponse::Error { error } && error@ == error_text(e),
    }
}

/// The response for a batch whose answering gave `r`.
pub fn challenge_response(r: Result<Vec<(String, String)>, JsChallengeError>) -> (resp: JsChallengeResponse)
    ensures
        challenge_response_is(r, resp),
{
    match r {
        Ok(data) => JsChallengeResponse::Result { data },
        Err(e) => {
            let error = e.message();
            JsChallengeResponse::Error { error }
        },
    }
}

/// Whether `resp` is what `req` gets for some behaviour of the runtime: the
/// answers to its challenges, or the runtime error of the first that failed.
pub open spec fn possible_challenge_response(req: JsChallengeRequest, resp: JsChallengeResponse) -> bool {
    exists|r: Result<Vec<(String, String)>, JsChallengeError>|
        #[trigger] challenge_response_is(r, resp) && (r matches Err(e) ==> e is Runtime)
            && possible_solve(texts(req.challenges@), provider_view(r))
}

/// What answering `reqs` gives once program `code` is handed to the runtime: the
/// load failure `load_error` as a runtime error, or one possible response per
/// batch, in order, with `code` returned when `emit` is set.
pub open spec fn loaded_result(
    reqs: Seq<JsChallengeRequest>,
    emit: bool,
    code: Seq<char>,
    load_error: Option<Seq<char>>,
    r: Result<JsChallengeOutput, JsChallengeError>,
) -> bool {
    match load_error {
        Some(m) => r matches Err(JsChallengeError::Runtime(x)) && x@ == m,
        None => r matches Ok(JsChallengeOutput::Result { preprocessed_player, responses }) && {
            &&& if emit { preprocessed_player matches Some(p) && p@ == code } else { preprocessed_player is None }
            &&& responses@.len() == reqs.len()
            &&& forall|i: int| 0 <= i < reqs.len() ==> possible_challenge_response(reqs[i], #[trigger] responses@[i])
        },
    }
}

/// What `input` gives when preprocessing its player gave `pre` and loading the
/// program failed with `load_error` (or did not).
pub open spec fn challenge_result(
    input: JsChallengeInput,
    pre: Result<String, JsChallengeError>,
    load_error: Option<Seq<char>>,
    r: Result<JsChallengeOutput, JsChallengeError>,
) -> bool {
    match input {
        JsChallengeInput::Player { requests, output_preprocessed, .. } => possible_player_result(pre) && match pre {
            Err(e) => r == Err::<JsChallengeOutput, JsChallengeError>(e),
            Ok(code) => loaded_result(requests@, output_preprocessed, code@, load_error, r),
        },
        JsChallengeInput::Preprocessed { preprocessed_player, requests } => loaded_result(
            requests@,
            false,
            preprocessed_player@,
            load_error,
            r,
        ),
    }
}

/// Whether `r` is what directing `input` gives for some behaviour of the parser,
/// printer and runtime.
pub open spec fn possible_challenge_result(input: JsChallengeInput, r: Result<JsChallengeOutput, JsChallengeError>) -> bool {
    exists|pre: Result<String, JsChallengeError>, load_error: Option<Seq<char>>|
        #[trigger] challenge_result(input, pre, load_error, r)
}

/// The output for a directing result: the output itself, or the text of the error.
pub open spec fn output_of(r: Result<JsChallengeOutput, JsChallengeError>, out: JsChallengeOutput) -> bool {
    match r {
        Ok(o) => out == o,
        Err(e) => out matches JsChallengeOutput::Error { error } && error@ == error_text(e),
    }
}

/// Whether `out` is what the provider gives for `input` for some behaviour of the
/// parser, printer and runtime.
pub open spec fn challenge_output_fits(input: JsChallengeInput, out: JsChallengeOutput) -> bool {
    exists|r: Result<JsChallengeOutput, JsChallengeError>| #[trigger] possible_challenge_result(input, r) && output_of(r, out)
}

/// Whether the program `code` (returned when `emit` is set) is what `input`
/// loads, given that preprocessing its player gave `pre`.
pub open spec fn challenge_stage_ok(input: JsChallengeInput, pre: Result<String, JsChallengeError>, code: Seq<char>, emit: bool) -> bool {
    match input {
        JsChallengeInput::Player { output_preprocessed, .. } => {
            &&& possible_player_result(pre)
            &&& (pre matches Ok(c) && c@ == code)
            &&& emit == output_preprocessed
        },
        JsChallengeInput::Preprocessed { preprocessed_player, .. } => preprocessed_player@ == code && !emit,
    }
}

fn process_request<R: JsRuntime>(provider: &mut JsRuntimeProvider<R>, request: &JsChallengeRequest) -> (r: JsChallengeResponse)
    ensures
        possible_challenge_response(*request, r),
{
    let solved = provider.solve_challenges(&request.challenge_type, &request.challenges);
    let ghost sg = solved;
    let r = challenge_response(solved);
    assert(challenge_response_is(sg, r));
    r
}

fn process_internal<R: JsRuntime, H: ScriptHost>(host: &H, input: JsChallengeInput) -> (r: Result<JsChallengeOutput, JsChallengeError>)
    ensures
        possible_challenge_result(input, r),
{
    let ghost inp = input;
    let ghost mut pre_w: Result<String, JsChallengeError> = arbitrary();
    let (preprocessed, should_output, requests) = match input {
        JsChallengeInput::Player { player, requests, output_preprocessed } => {
            let pre = preprocess_player(host, player.as_str());
            proof {
                pre_w = pre;
            }
            match pre {
                Ok(code) => (code, output_preprocessed, requests),
                Err(e) => {
                    let r: Result<JsChallengeOutput, JsChallengeError> = Err(e);
                    assert(challenge_result(inp, pre_w, None, r));
                    return r;
                },
            }
        },
        JsChallengeInput::Preprocessed { preprocessed_player, requests } => (preprocessed_player, false, requests),
    };
    assert(challenge_stage_ok(inp, pre_w, preprocessed@, should_output));
    let runtime = match R::from_prepared(preprocessed.as_str()) {
        Ok(rt) => rt,
        Err(e) => {
            let ghost m = e@;
            let r: Result<JsChallengeOutput, JsChallengeError> = Err(JsChallengeError::Runtime(e));
            assert(challenge_result(inp, pre_w, Some(m), r));
            return r;
        },
    };
    let mut provider = JsRuntimeProvider::new(runtime);
    let mut responses: Vec<JsChallengeResponse> = Vec::new();
    let mut i: usize = 0;
    while i < requests.len()
        invariant
            i <= requests@.len(),
            requests@ == challenge_requests(inp),
            challenge_stage_ok(inp, pre_w, preprocessed@, should_output),
            responses@.len() == i,
            forall|j: int| 0 <= j < i ==> possible_challenge_response(requests@[j], #[trigger] responses@[j]),
        decreases requests.len() - i,
    {
        let resp = process_request(&mut provider, &requests[i]);
        responses.push(resp);
        i = i + 1;
    }
    let ghost code = preprocessed@;
    let preprocessed_player = if should_output { Some(preprocessed) } else { None };
    let r: Result<JsChallengeOutput, JsChallengeError> = Ok(JsChallengeOutput::Result { preprocessed_player, responses });
    assert(loaded_result(challenge_requests(inp), should_output, code, None, r));
    assert(challenge_result(inp, pre_w, None, r));
    r
}

/// Answers `input` with runtime `R`, parsing and printing players with `host`;
/// a failure that stops everything becomes an error output with its text.
pub fn process_input<R: JsRuntime, H: ScriptHost>(host: &H, input: JsChallengeInput) -> (r: JsChallengeOutput)
    ensures
        challenge_output_fits(input, r),
{
    let result = process_internal::<R, H>(host, input);
    let ghost rg = result;
    let out = match result {
        Ok(output) => output,
        Err(e) => {
            let error = e.message();
            JsChallengeOutput::Error { error }
        },
    };
    assert(output_of(rg, out));
    out
}

} // verus!
