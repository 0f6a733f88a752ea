//! Throttle of suggestions written back to the child: at most one per
//! interval. Instants are milliseconds on a monotonic clock of the host.

use vstd::prelude::*;

verus! {

/// Suggestion to read files through the token-saving reader.
pub const SMART_READ_SUGGESTION: &'static str =
    "TIP: Consider using mcp__ctxopt__smart_file_read for better token efficiency";

/// Suggestion to compress a large output.
pub const AUTO_OPTIMIZE_SUGGESTION: &'static str =
    "TIP: Use mcp__ctxopt__auto_optimize to compress this output";

/// Suggestion to compress logs.
pub const SUMMARIZE_LOGS_SUGGESTION: &'static str =
    "TIP: Use mcp__ctxopt__summarize_logs for log compression";

/// Interval used when none is given, in milliseconds.
pub const DEFAULT_INTERVAL_MS: u64 = 5000;

/// Milliseconds from `since` to `now`; none where the clock reads earlier.
pub open spec fn elapsed(since: u64, now: u64) -> nat {
    if now >= since {
        (now - since) as nat
    } else {
        0
    }
}

/// Gate that lets a suggestion through only when the interval has passed
/// since the last one.
pub struct ContextInjector {
    interval_ms: u64,
    last_injection: Option<u64>,
}

impl ContextInjector {
    /// Minimum interval between two suggestions, in milliseconds.
    pub closed spec fn spec_interval(&self) -> u64 {
        self.interval_ms
    }

    /// Instant of the last suggestion, if any.
    pub closed spec fn spec_last(&self) -> Option<u64> {
        self.last_injection
    }

    /// A gate with interval `interval_ms` that has let nothing through yet.
    pub fn new(interval_ms: u64) -> (r: ContextInjector)
        ensures
            r.spec_interval() == interval_ms,
            r.spec_last() is None,
    {
        ContextInjector { interval_ms, last_injection: None }
    }

    /// Whether a suggestion may go out at instant `now_ms`: none went out
    /// yet, or at least the interval has passed since the last.
    pub fn can_inject(&self, now_ms: u64) -> (r: bool)
        ensures
            r == match self.spec_last() {
                None => true,
                Some(t) => elapsed(t, now_ms) >= self.spec_interval(),
            },
    {
        match self.last_injection {
            None => true,
            Some(last) => now_ms.saturating_sub(last) >= self.interval_ms,
        }
    }

    /// Records that a suggestion went out at instant `now_ms`.
    pub fn mark_injected(&mut self, now_ms: u64)
        ensures
            final(self).spec_last() == Some(now_ms),
            final(self).spec_interval() == old(self).spec_interval(),
    {
        self.last_injection = Some(now_ms);
    }

    /// Minimum interval between two suggestions, in milliseconds.
    pub fn interval_ms(&self) -> (r: u64)
        ensures
            r == self.spec_interval(),
    {
        self.interval_ms
    }

    /// Instant of the last suggestion, if any.
    pub fn last_injection(&self) -> (r: Option<u64>)
        ensures
            r == self.spec_last(),
    {
        self.last_injection
    }
}

impl Default for ContextInjector {
    fn default() -> (r: ContextInjector)
        ensures
            r.spec_interval() == 5000,
            r.spec_last() is None,
    {
        ContextInjector::new(DEFAULT_INTERVAL_MS)
    }
}

} // verus!
