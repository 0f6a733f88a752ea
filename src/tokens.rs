//! Approximate token counts of text, for telemetry: one token per four
//! bytes of UTF-8, rounded down.

use vstd::prelude::*;
use vstd::string::*;

verus! {

/// Bytes of text counted as one token.
pub const BYTES_PER_TOKEN: usize = 4;

/// Counter of approximate tokens.
pub struct TokenEstimator {}

impl TokenEstimator {
    /// A counter.
    pub fn new() -> (r: TokenEstimator) {
        TokenEstimator {}
    }

    /// Approximate number of tokens in `text`: its length in bytes over four.
    pub fn estimate(&self, text: &str) -> (r: usize)
        ensures
            r == text.len() / 4,
    {
        text.len() / BYTES_PER_TOKEN
    }
}

impl Default for TokenEstimator {
    fn default() -> (r: TokenEstimator) {
        TokenEstimator::new()
    }
}

} // verus!
