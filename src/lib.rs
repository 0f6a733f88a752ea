//! Core of a pseudo-terminal host: the terminal size model, the typed error
//! of session operations, the decisions a session makes around each I/O
//! call, what a session launches, and the small consumers of its output.

use vstd::prelude::*;
use vstd::string::*;

pub mod analyzer;
pub mod buffer;
pub mod config;
pub mod error;
pub mod injector;
pub mod launch;
pub mod session;
pub mod size;
pub mod tokens;

pub use analyzer::{ContentType, StreamAnalyzer};
pub use buffer::RingBuffer;
pub use config::Config;
pub use error::PtyError;
pub use injector::ContextInjector;
pub use launch::LaunchPlan;
pub use size::PtySize;
pub use tokens::TokenEstimator;

verus! {

/// Answer of a liveness check of the library.
pub fn ping() -> (r: String)
    ensures
        r@ == "pong"@,
{
    String::from_str("pong")
}

} // verus!
