//! Player preprocessing for a JavaScript challenge solver: finds the signature and
//! `n` routines of a player script, rewrites the few statements a non-browser host
//! cannot run, and drives a JavaScript runtime over batches of challenges.
pub mod ast;
pub mod builtin;
pub mod director;
pub mod envelope;
pub mod n;
pub mod polyfill;
pub mod preprocessor;
pub mod provider;
pub mod rewrite;
pub mod runtime;
pub mod sig;
pub mod solver;
pub mod test_data;
pub mod text;
pub mod types;
pub mod utils;

pub use preprocessor::{preprocess_module, preprocess_player, Preprocessed, ScriptHost};
pub use provider::{
    JsChallengeError, JsChallengeInput, JsChallengeOutput, JsChallengeRequest, JsChallengeResponse,
    JsChallengeType,
};
pub use runtime::{JsRuntime, RuntimeType};
pub use solver::{process_input, process_input_with_runtime, run};
pub use types::{Input, Output, Request, RequestType, Response};
