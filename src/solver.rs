//! The solver entry points: preprocess a player (or take a preprocessed one),
//! load it into a runtime, and answer each batch of challenges.
use vstd::prelude::*;
use crate::preprocessor::{possible_player_result, preprocess_player, ScriptHost};
use crate::provider::{error_text, JsChallengeError};
use crate::runtime::{possible_solve, solve_view, JsRuntime};
use crate::text::{split_colon, split_first_colon, str_is, texts};
use crate::types::{pairs_view, Input, Output, Request, RequestType, Response};

verus! {

/// The name of a request's routine.
pub open spec fn request_name(t: RequestType) -> Seq<char> {
    match t {
        RequestType::N => "n"@,
        RequestType::Sig => "sig"@,
    }
}

/// The texts of an optional batch result.
pub open spec fn opt_solve_view(o: Option<Result<Vec<(String, String)>, String>>) -> Option<
    Result<Seq<(Seq<char>, Seq<char>)>, Seq<char>>,
> {
    match o {
        Some(x) => Some(solve_view(x)),
        None => None,
    }
}

/// The response to a request of kind `t` when its routine is missing (`None`) or
/// answering its challenges gave `solved`.
pub open spec fn response_is(
    t: RequestType,
    solved: Option<Result<Seq<(Seq<char>, Seq<char>)>, Seq<char>>>,
    resp: Response,
) -> bool {
    match solved {
        None => resp matches Response::Error { error } && error@ == "Failed to extract "@ + request_name(t) + " function"@,
        Some(Ok(d)) => resp matches Response::Result { data } && pairs_view(data@) == d,
        Some(Err(e)) => resp matches Response::Error { error } && error@ == e,
    }
}

/// The response to a request of kind `t`, given whether its routine is missing
/// (`None`) or what answering its challenges gave.
pub fn response_for(t: RequestType, solved: Option<Result<Vec<(String, String)>, String>>) -> (r: Response)
    ensures
        response_is(t, opt_solve_view(solved), r),
{
    match solved {
        None => {
            let mut m = String::from_str("Failed to extract ");
            match t {
                RequestType::N => m.append("n"),
                RequestType::Sig => m.append("sig"),
            }
            m.append(" function");
            Response::Error { error: m }
        },
        Some(Ok(data)) => Response::Result { data },
        Some(Err(error)) => Response::Error { error },
    }
}

/// Whether `resp` is what `req` gets for some behaviour of the runtime: the
/// missing-routine error, or the answers to its challenges or their first failure.
pub open spec fn possible_response(req: Request, resp: Response) -> bool {
    exists|s: Option<Result<Seq<(Seq<char>, Seq<char>)>, Seq<char>>>|
        #[trigger] response_is(req.req_type, s, resp) && (s matches Some(x) ==> possible_solve(texts(req.challenges@), x))
}

/// The batches of an input.
pub open spec fn input_requests(input: Input) -> Seq<Request> {
    match input {
        Input::Player { requests, .. } => requests@,
        Input::Preprocessed { requests, .. } => requests@,
    }
}

/// What answering `reqs` gives once program `code` is handed to the runtime:
/// the load failure `load_error`, or one possible response per batch, in order,
/// with `code` returned when `emit` is set.
pub open spec fn loaded_outcome(reqs: Seq<Request>, emit: bool, code: Seq<char>, load_error: Option<Seq<char>>, out: Output) -> bool {
    match load_error {
        Some(m) => out matches Output::Error { error } && error@ == "Failed to create solvers: "@ + m,
        None => out matches Output::Result { preprocessed_player, responses } && {
            &&& if emit { preprocessed_player matches Some(p) && p@ == code } else { preprocessed_player is None }
            &&& responses@.len() == reqs.len()
            &&& forall|i: int| 0 <= i < reqs.len() ==> possible_response(reqs[i], #[trigger] responses@[i])
        },
    }
}

/// Whether the program `code` (returned when `emit` is set) is what `input`
/// loads, given that preprocessing its player gave `pre`.
pub open spec fn stage_ok(input: Input, pre: Result<String, JsChallengeError>, code: Seq<char>, emit: bool) -> bool {
    match input {
        Input::Player { output_preprocessed, .. } => {
            &&& possible_player_result(pre)
            &&& (pre matches Ok(c) && c@ == code)
            &&& emit == output_preprocessed
        },
        Input::Preprocessed { preprocessed_player, .. } => preprocessed_player@ == code && !emit,
    }
}

/// What `input` gives when preprocessing its player gave `pre` and loading the
/// program failed with `load_error` (or did not): a preprocessing failure as
/// `Failed to preprocess player: <error>`, a load failure as
/// `Failed to create solvers: <error>`, else the answers.
pub open spec fn input_outcome(input: Input, pre: Result<String, JsChallengeError>, load_error: Option<Seq<char>>, out: Output) -> bool {
    match input {
        Input::Player { requests, output_preprocessed, .. } => possible_player_result(pre) && match pre {
            Err(e) => out matches Output::Error { error } && error@ == "Failed to preprocess player: "@ + error_text(e),
            Ok(code) => loaded_outcome(requests@, output_preprocessed, code@, load_error, out),
        },
        Input::Preprocessed { preprocessed_player, requests } => loaded_outcome(
            requests@,
            false,
            preprocessed_player@,
            load_error,
            out,
        ),
    }
}

/// Whether `out` is what the solver gives for `input` for some behaviour of the
/// parser, printer and runtime.
pub open spec fn output_fits(input: Input, out: Output) -> bool {
    exists|pre: Result<String, JsChallengeError>, load_error: Option<Seq<char>>| #[trigger] input_outcome(input, pre, load_error, out)
}

fn process_request<R: JsRuntime>(solver: &R, request: &Request) -> (r: Response)
    ensures
        possible_response(*request, r),
{
    let (name, available) = match request.req_type {
        RequestType::N => ("n", solver.has_n()),
        RequestType::Sig => ("sig", solver.has_sig()),
    };
    let solved = if available {
        Some(solver.solve_challenges(name, &request.challenges))
    } else {
        None
    };
    let ghost sv = opt_solve_view(solved);
    let r = response_for(request.req_type, solved);
    assert(response_is(request.req_type, sv, r));
    r
}

/// Answers `input` with runtime `R`, parsing and printing players with `host`.
pub fn process_input_with_runtime<R: JsRuntime, H: ScriptHost>(host: &H, input: Input) -> (r: Output)
    ensures
        output_fits(input, r),
{
    let ghost inp = input;
    let ghost mut pre_w: Result<String, JsChallengeError> = arbitrary();
    let (preprocessed, should_output, requests) = match input {
        Input::Player { player, requests, output_preprocessed } => {
            let pre = preprocess_player(host, player.as_str());
            proof {
                pre_w = pre;
            }
            match pre {
                Ok(code) => (code, output_preprocessed, requests),
                Err(e) => {
                    let mut m = String::from_str("Failed to preprocess player: ");
                    let t = e.message();
                    m.append(t.as_str());
                    let out = Output::Error { error: m };
                    assert(input_outcome(inp, pre_w, None, out));
                    return out;
                },
            }
        },
        Input::Preprocessed { preprocessed_player, requests } => (preprocessed_player, false, requests),
    };
    assert(stage_ok(inp, pre_w, preprocessed@, should_output));
    let solver = match R::from_prepared(preprocessed.as_str()) {
        Ok(s) => s,
        Err(e) => {
            let mut m = String::from_str("Failed to create solvers: ");
            m.append(e.as_str());
            let out = Output::Error { error: m };
            assert(input_outcome(inp, pre_w, Some(e@), out));
            return out;
        },
    };
    let mut responses: Vec<Response> = Vec::new();
    let mut i: usize = 0;
    while i < requests.len()
        invariant
            i <= requests@.len(),
            requests@ == input_requests(inp),
            stage_ok(inp, pre_w, preprocessed@, should_output),
            responses@.len() == i,
            forall|j: int| 0 <= j < i ==> possible_response(requests@[j], #[trigger] responses@[j]),
        decreases requests.len() - i,
    {
        let resp = process_request(&solver, &requests[i]);
        responses.push(resp);
        i = i + 1;
    }
    let ghost code = preprocessed@;
    let preprocessed_player = if should_output { Some(preprocessed) } else { None };
    let out = Output::Result { preprocessed_player, responses };
    assert(loaded_outcome(input_requests(inp), should_output, code, None, out));
    assert(input_outcome(inp, pre_w, None, out));
    out
}

/// Answers `input` with the default runtime, which the caller names as `R`
/// (`RuntimeType::default()`, QuickJS, in the command-line program); the runtime
/// is a type parameter because each runtime is a separate implementation.
pub fn process_input<R: JsRuntime, H: ScriptHost>(host: &H, input: Input) -> (r: Output)
    ensures
        output_fits(input, r),
{
    process_input_with_runtime::<R, H>(host, input)
}

/// The `n` and `sig` challenges of `kind:challenge` arguments, in order, or the
/// message for the first argument that has no `:` or an unknown kind.
pub open spec fn classify(reqs: Seq<Seq<char>>) -> Result<(Seq<Seq<char>>, Seq<Seq<char>>), Seq<char>>
    decreases reqs.len(),
{
    if reqs.len() == 0 {
        Ok((Seq::empty(), Seq::empty()))
    } else {
        match classify(reqs.drop_last()) {
            Err(e) => Err(e),
            Ok((ns, ss)) => match split_colon(reqs.last()) {
                None => Err("Invalid request format: "@ + reqs.last()),
                Some((k, c)) => if k == "n"@ {
                    Ok((ns.push(c), ss))
                } else if k == "sig"@ {
                    Ok((ns, ss.push(c)))
                } else {
                    Err("Unsupported request type: "@ + k)
                },
            },
        }
    }
}

proof fn lemma_classify_error_stays(reqs: Seq<Seq<char>>, k: int)
    requires
        0 <= k <= reqs.len(),
        classify(reqs.subrange(0, k)) is Err,
    ensures
        classify(reqs) == classify(reqs.subrange(0, k)),
    decreases reqs.len(),
{
    if reqs.len() > k {
        assert(reqs.drop_last().subrange(0, k) =~= reqs.subrange(0, k));
        lemma_classify_error_stays(reqs.drop_last(), k);
    } else {
        assert(reqs.subrange(0, k) =~= reqs);
    }
}

/// Sorts `kind:challenge` arguments into `n` and `sig` challenges.
pub fn parse_requests(args: &Vec<String>) -> (r: Result<(Vec<String>, Vec<String>), String>)
    ensures
        r matches Ok(p) ==> classify(texts(args@)) == Ok::<_, Seq<char>>((texts(p.0@), texts(p.1@))),
        r matches Err(e) ==> classify(texts(args@)) == Err::<(Seq<Seq<char>>, Seq<Seq<char>>), _>(e@),
{
    let ghost all = texts(args@);
    let mut n_list: Vec<String> = Vec::new();
    let mut sig_list: Vec<String> = Vec::new();
    let mut i: usize = 0;
    assert(all.subrange(0, 0) =~= Seq::<Seq<char>>::empty());
    assert(texts(n_list@) =~= Seq::<Seq<char>>::empty());
    assert(texts(sig_list@) =~= Seq::<Seq<char>>::empty());
    while i < args.len()
        invariant
            i <= args@.len(),
            all == texts(args@),
            classify(all.subrange(0, i as int)) == Ok::<_, Seq<char>>((texts(n_list@), texts(sig_list@))),
        decreases args.len() - i,
    {
        let ghost sub = all.subrange(0, i as int + 1);
        assert(sub.drop_last() =~= all.subrange(0, i as int));
        assert(sub.last() == args@[i as int]@);
        let ghost old_n = n_list@;
        let ghost old_sig = sig_list@;
        match split_first_colon(args[i].as_str()) {
            None => {
                let mut m = String::from_str("Invalid request format: ");
                m.append(args[i].as_str());
                proof {
                    lemma_classify_error_stays(all, i as int + 1);
                }
                return Err(m);
            },
            Some((kind, challenge)) => {
                if str_is(kind.as_str(), "n") {
                    n_list.push(challenge);
                    assert(texts(n_list@) =~= texts(old_n).push(challenge@));
                } else if str_is(kind.as_str(), "sig") {
                    sig_list.push(challenge);
                    assert(texts(sig_list@) =~= texts(old_sig).push(challenge@));
                } else {
                    let mut m = String::from_str("Unsupported request type: ");
                    m.append(kind.as_str());
                    proof {
                        lemma_classify_error_stays(all, i as int + 1);
                    }
                    return Err(m);
                }
            },
        }
        i = i + 1;
    }
    assert(all.subrange(0, args@.len() as int) =~= all);
    Ok((n_list, sig_list))
}

/// Whether `inp` asks, about player `p`, one `n` request for challenges `ns` and
/// then one `sig` request for challenges `ss`, without returning the program.
pub open spec fn run_input(inp: Input, p: Seq<char>, ns: Seq<Seq<char>>, ss: Seq<Seq<char>>) -> bool {
    match inp {
        Input::Player { player, requests, output_preprocessed } => {
            &&& player@ == p
            &&& !output_preprocessed
            &&& requests@.len() == 2
            &&& requests@[0].req_type == RequestType::N
            &&& texts(requests@[0].challenges@) == ns
            &&& requests@[1].req_type == RequestType::Sig
            &&& texts(requests@[1].challenges@) == ss
        },
        _ => false,
    }
}

/// Answers `kind:challenge` arguments about `player` with runtime `R`: one
/// request for the `n` challenges, then one for the `sig` challenges.
pub fn run<R: JsRuntime, H: ScriptHost>(host: &H, player: String, challenges: Vec<String>) -> (r: Result<Output, String>)
    ensures
        r matches Ok(out) ==> (classify(texts(challenges@)) matches Ok((ns, ss))
            && exists|inp: Input| #[trigger] run_input(inp, player@, ns, ss) && output_fits(inp, out)),
        r matches Err(e) ==> classify(texts(challenges@)) == Err::<(Seq<Seq<char>>, Seq<Seq<char>>), _>(e@),
        classify(texts(challenges@)) is Ok ==> r is Ok,
{
    let ghost p = player@;
    let (n_challenges, sig_challenges) = match parse_requests(&challenges) {
        Ok(p) => p,
        Err(e) => return Err(e),
    };
    let mut requests: Vec<Request> = Vec::new();
    requests.push(Request { req_type: RequestType::N, challenges: n_challenges });
    requests.push(Request { req_type: RequestType::Sig, challenges: sig_challenges });
    let input = Input::Player { player, requests, output_preprocessed: false };
    let ghost inp = input;
    let out = process_input_with_runtime::<R, H>(host, input);
    proof {
        let (ns, ss) = classify(texts(challenges@))->Ok_0;
        assert(run_input(inp, p, ns, ss));
    }
    Ok(out)
}

} // verus!
