//! Classification of chunks of a session's output.
//!
//! No pattern is recognised yet: every chunk is `Normal`. The other kinds
//! name what the classifier is meant to tell apart.

use vstd::prelude::*;

verus! {

/// Kind of content a chunk of output holds.
#[derive(Clone, Copy, Debug, PartialEq, Eq, Structural)]
pub enum ContentType {
    /// Errors of a build tool.
    BuildError,
    /// The content of a file being read.
    FileRead,
    /// A large output such as logs or traces.
    LargeOutput,
    /// The interactive prompt is ready for input.
    PromptReady,
    /// Anything else.
    Normal,
}

/// Classifier of output chunks.
pub struct StreamAnalyzer {}

impl StreamAnalyzer {
    /// A classifier.
    pub fn new() -> (r: StreamAnalyzer) {
        StreamAnalyzer {}
    }

    /// The kind of `data`; every chunk is `Normal` under the present policy.
    pub fn analyze(&self, data: &[u8]) -> (r: ContentType)
        ensures
            r == ContentType::Normal,
    {
        ContentType::Normal
    }
}

impl Default for StreamAnalyzer {
    fn default() -> (r: StreamAnalyzer) {
        StreamAnalyzer::new()
    }
}

} // verus!
