use std::cell::Cell;

use ytdlp_ejs::ast::{Module, Stmt};
use ytdlp_ejs::builtin::{BunJCP, DenoJCP, JsRuntimeProvider, NodeJCP};
use ytdlp_ejs::director;
use ytdlp_ejs::runtime::{BunSolver, DenoSolver, NodeSolver};
use ytdlp_ejs::solver::{parse_requests, response_for};
use ytdlp_ejs::director::challenge_response;
use ytdlp_ejs::test_data::{get_cache_path, get_player_paths};
use ytdlp_ejs::{
    process_input, process_input_with_runtime, run, Input, JsChallengeError, JsChallengeInput,
    JsChallengeOutput, JsChallengeRequest, JsChallengeResponse, JsChallengeType, JsRuntime, Output,
    Request, RequestType, Response, RuntimeType, ScriptHost,
};

/// Answers `n` by reversing the challenge and `sig` by upper-casing it; a
/// challenge `boom` fails. The program must be `ok` to load.
struct Mirror {
    calls: Cell<usize>,
}

impl JsRuntime for Mirror {
    fn from_prepared(code: &str) -> Result<Self, String> {
        if code.ends_with("ok") || code.contains("_result.n") {
            Ok(Mirror { calls: Cell::new(0) })
        } else {
            Err(format!("cannot load {}", code))
        }
    }
    fn solve_n(&self, challenge: &str) -> Result<String, String> {
        self.calls.set(self.calls.get() + 1);
        if challenge == "boom" {
            return Err("threw".to_string());
        }
        Ok(challenge.chars().rev().collect())
    }
    fn solve_sig(&self, challenge: &str) -> Result<String, String> {
        self.calls.set(self.calls.get() + 1);
        Ok(challenge.to_uppercase())
    }
    fn has_n(&self) -> bool {
        true
    }
    fn has_sig(&self) -> bool {
        true
    }
}

/// Parses nothing: every source becomes a three-item module.
struct FlatHost;

impl ScriptHost for FlatHost {
    fn parse_module(&self, source: &str) -> Result<Module, String> {
        if source.is_empty() {
            return Err("empty source".to_string());
        }
        Ok(Module { body: vec![Stmt::Other(0), Stmt::Other(1), Stmt::Other(2)] })
    }
    fn print_statements(&self, _stmts: Vec<Stmt>) -> Result<String, String> {
        Ok(String::new())
    }
    fn intl_polyfill(&self) -> String {
        String::new()
    }
}

fn strings(v: &[&str]) -> Vec<String> {
    v.iter().map(|x| x.to_string()).collect()
}

fn lookup<'a>(data: &'a [(String, String)], key: &str) -> Option<&'a str> {
    data.iter().find(|(k, _)| k == key).map(|(_, v)| v.as_str())
}

#[test]
fn runtime_names_ignore_case() {
    assert_eq!(RuntimeType::parse("QuickJS"), Some(RuntimeType::QuickJS));
    assert_eq!(RuntimeType::parse("qjs"), Some(RuntimeType::QuickJS));
    assert_eq!(RuntimeType::parse("Deno"), Some(RuntimeType::Deno));
    assert_eq!(RuntimeType::parse("BOA"), Some(RuntimeType::Boa));
    assert_eq!(RuntimeType::parse("NodeJS"), Some(RuntimeType::Node));
    assert_eq!(RuntimeType::parse("bun"), Some(RuntimeType::Bun));
    assert_eq!(RuntimeType::parse("spidermonkey"), None);
    assert_eq!(RuntimeType::parse_lowercase("Deno"), None);
    assert_eq!(RuntimeType::default(), RuntimeType::QuickJS);
}

#[test]
fn runtime_list() {
    assert_eq!(RuntimeType::available_runtimes(), vec!["qjs", "deno", "boa", "node", "bun"]);
}

#[test]
fn challenge_type_names() {
    assert_eq!(JsChallengeType::N.as_str(), "n");
    assert_eq!(JsChallengeType::Sig.as_str(), "sig");
}

#[test]
fn error_messages() {
    assert_eq!(JsChallengeError::Parse(s("x")).message(), "Parse error: x");
    assert_eq!(JsChallengeError::Preprocess(s("x")).message(), "Preprocess error: x");
    assert_eq!(JsChallengeError::Runtime(s("x")).message(), "Runtime error: x");
    assert_eq!(JsChallengeError::Io(s("x")).message(), "IO error: x");
}

fn s(x: &str) -> String {
    x.to_string()
}

#[test]
fn solve_challenges_answers_each_once() {
    let m = Mirror::from_prepared("ok").unwrap();
    let data = m.solve_challenges("n", &strings(&["ab", "cd", "ab"])).unwrap();
    assert_eq!(data.len(), 2);
    assert_eq!(lookup(&data, "ab"), Some("ba"));
    assert_eq!(lookup(&data, "cd"), Some("dc"));
    let data = m.solve_challenges("sig", &strings(&["ab"])).unwrap();
    assert_eq!(lookup(&data, "ab"), Some("AB"));
    assert_eq!(m.solve_challenges("x", &strings(&["ab"])), Err(s("Unknown request type: x")));
    assert_eq!(m.solve_challenges("x", &vec![]), Ok(vec![]));
    assert_eq!(m.solve_challenges("n", &strings(&["a", "boom", "c"])), Err(s("threw")));
}

#[test]
fn provider_maps_errors_to_runtime_errors() {
    let mut p = JsRuntimeProvider::new(Mirror::from_prepared("ok").unwrap());
    assert_eq!(p.solve_n("xy").unwrap(), "yx");
    assert_eq!(p.solve_sig("xy").unwrap(), "XY");
    assert!(matches!(p.solve_n("boom"), Err(JsChallengeError::Runtime(m)) if m == "threw"));
    let data = p.solve_challenges(&JsChallengeType::Sig, &strings(&["q"])).unwrap();
    assert_eq!(lookup(&data, "q"), Some("Q"));
}

#[test]
fn requests_split_at_the_first_colon() {
    let (n, sig) = parse_requests(&strings(&["n:a:b", "sig:c", "n:"])).unwrap();
    assert_eq!(n, strings(&["a:b", ""]));
    assert_eq!(sig, strings(&["c"]));
    assert_eq!(parse_requests(&strings(&["n:a", "nocolon"])), Err(s("Invalid request format: nocolon")));
    assert_eq!(parse_requests(&strings(&["x:a", "nocolon"])), Err(s("Unsupported request type: x")));
}

#[test]
fn preprocessed_input_is_answered_in_order() {
    let input = Input::Preprocessed {
        preprocessed_player: s("ok"),
        requests: vec![
            Request { req_type: RequestType::Sig, challenges: strings(&["ab"]) },
            Request { req_type: RequestType::N, challenges: strings(&["boom"]) },
            Request { req_type: RequestType::N, challenges: strings(&["xyz"]) },
        ],
    };
    match process_input_with_runtime::<Mirror, FlatHost>(&FlatHost, input) {
        Output::Result { preprocessed_player, responses } => {
            assert!(preprocessed_player.is_none());
            assert_eq!(responses.len(), 3);
            assert!(matches!(&responses[0], Response::Result { data } if lookup(data, "ab") == Some("AB")));
            assert!(matches!(&responses[1], Response::Error { error } if error == "threw"));
            assert!(matches!(&responses[2], Response::Result { data } if lookup(data, "xyz") == Some("zyx")));
        }
        other => panic!("unexpected {:?}", other),
    }
}

#[test]
fn load_failure_stops_everything() {
    let input = Input::Preprocessed { preprocessed_player: s("bad"), requests: vec![] };
    match process_input::<Mirror, FlatHost>(&FlatHost, input) {
        Output::Error { error } => assert_eq!(error, "Failed to create solvers: cannot load bad"),
        other => panic!("unexpected {:?}", other),
    }
}

#[test]
fn player_that_does_not_preprocess_is_an_error() {
    let input = Input::Player { player: s("var a;"), requests: vec![], output_preprocessed: true };
    match process_input::<Mirror, FlatHost>(&FlatHost, input) {
        Output::Error { error } => {
            assert_eq!(error, "Failed to preprocess player: Parse error: unexpected structure: 3 items")
        }
        other => panic!("unexpected {:?}", other),
    }
    let input = Input::Player { player: s(""), requests: vec![], output_preprocessed: true };
    match process_input::<Mirror, FlatHost>(&FlatHost, input) {
        Output::Error { error } => assert_eq!(error, "Failed to preprocess player: Parse error: empty source"),
        other => panic!("unexpected {:?}", other),
    }
}

#[test]
fn run_rejects_bad_arguments() {
    let r = run::<Mirror, FlatHost>(&FlatHost, s("p"), strings(&["bogus"]));
    assert_eq!(r.unwrap_err(), "Invalid request format: bogus");
    let r = run::<Mirror, FlatHost>(&FlatHost, s("p"), strings(&["n:a"]));
    assert!(matches!(r, Ok(Output::Error { .. })));
}

#[test]
fn director_reports_error_text() {
    let input = JsChallengeInput::Player { player: s("x"), requests: vec![], output_preprocessed: false };
    match director::process_input::<Mirror, FlatHost>(&FlatHost, input) {
        JsChallengeOutput::Error { error } => assert_eq!(error, "Parse error: unexpected structure: 3 items"),
        other => panic!("unexpected {:?}", other),
    }
    let input = JsChallengeInput::Preprocessed {
        preprocessed_player: s("ok"),
        requests: vec![JsChallengeRequest { challenge_type: JsChallengeType::N, challenges: strings(&["boom"]) }],
    };
    match director::process_input::<Mirror, FlatHost>(&FlatHost, input) {
        JsChallengeOutput::Result { responses, .. } => {
            assert!(matches!(&responses[0], JsChallengeResponse::Error { error } if error == "Runtime error: threw"))
        }
        other => panic!("unexpected {:?}", other),
    }
    let input = JsChallengeInput::Preprocessed { preprocessed_player: s("bad"), requests: vec![] };
    match director::process_input::<Mirror, FlatHost>(&FlatHost, input) {
        JsChallengeOutput::Error { error } => assert_eq!(error, "Runtime error: cannot load bad"),
        other => panic!("unexpected {:?}", other),
    }
}

#[test]
fn process_scripts_quote_the_challenge() {
    let b = BunJCP::new("CODE");
    assert_eq!(b.script("n", "a\"b\\c"), "const _result = {};\nCODE\nconsole.log(_result.n(\"a\\\"b\\\\c\"));");
    assert_eq!(DenoJCP::new("C").script("sig", "x"), "const _result = {};\nC\nconsole.log(_result.sig(\"x\"));");
    assert_eq!(NodeJCP::new("C").code, "C");
    let expected = "const _result = {};\nC\nconst result = _result.n(\"x\");\nconsole.log(result);\n";
    assert_eq!(NodeSolver::new("C").script("n", "x"), expected);
    assert_eq!(BunSolver::new("C").script("n", "x"), expected);
    assert_eq!(DenoSolver::new("C").script("n", "x"), expected);
}

#[test]
fn cache_and_player_paths() {
    assert_eq!(get_cache_path("3d3ba064", "tv"), "players/3d3ba064-tv");
    let paths = get_player_paths();
    assert_eq!(paths.len(), 9);
    assert_eq!(paths[0], ("main", "player_ias.vflset/en_US/base.js"));
    assert_eq!(paths[8], ("tablet", "player-plasma-ias-tablet-en_US.vflset/base.js"));
}

#[test]
fn responses_follow_the_runtime_result() {
    match response_for(RequestType::N, None) {
        Response::Error { error } => assert_eq!(error, "Failed to extract n function"),
        other => panic!("unexpected {:?}", other),
    }
    match response_for(RequestType::Sig, None) {
        Response::Error { error } => assert_eq!(error, "Failed to extract sig function"),
        other => panic!("unexpected {:?}", other),
    }
    match response_for(RequestType::N, Some(Err(s("boom")))) {
        Response::Error { error } => assert_eq!(error, "boom"),
        other => panic!("unexpected {:?}", other),
    }
    match response_for(RequestType::N, Some(Ok(vec![(s("a"), s("b"))]))) {
        Response::Result { data } => assert_eq!(data, vec![(s("a"), s("b"))]),
        other => panic!("unexpected {:?}", other),
    }
    match challenge_response(Err(JsChallengeError::Runtime(s("x")))) {
        JsChallengeResponse::Error { error } => assert_eq!(error, "Runtime error: x"),
        other => panic!("unexpected {:?}", other),
    }
    match challenge_response(Ok(vec![(s("c"), s("d"))])) {
        JsChallengeResponse::Result { data } => assert_eq!(data, vec![(s("c"), s("d"))]),
        other => panic!("unexpected {:?}", other),
    }
}

struct Absent;

impl JsRuntime for Absent {
    fn from_prepared(_code: &str) -> Result<Self, String> {
        Ok(Absent)
    }
    fn solve_n(&self, _challenge: &str) -> Result<String, String> {
        Err(s("unreachable"))
    }
    fn solve_sig(&self, _challenge: &str) -> Result<String, String> {
        Err(s("unreachable"))
    }
    fn has_n(&self) -> bool {
        false
    }
    fn has_sig(&self) -> bool {
        true
    }
}

#[test]
fn missing_routine_is_reported_per_request() {
    let input = Input::Preprocessed {
        preprocessed_player: s("p"),
        requests: vec![
            Request { req_type: RequestType::N, challenges: strings(&["a"]) },
            Request { req_type: RequestType::Sig, challenges: strings(&[]) },
        ],
    };
    match process_input_with_runtime::<Absent, FlatHost>(&FlatHost, input) {
        Output::Result { responses, .. } => {
            assert!(matches!(&responses[0], Response::Error { error } if error == "Failed to extract n function"));
            assert!(matches!(&responses[1], Response::Result { data } if data.is_empty()));
        }
        other => panic!("unexpected {:?}", other),
    }
}
