//! Settings of a session host, read once at start.

use vstd::prelude::*;

verus! {

/// Settings of a session host.
#[derive(Clone, Copy, Debug)]
pub struct Config {
    /// Minimum interval between two suggestions, in milliseconds.
    pub injection_interval_ms: u64,
    /// Whether suggestions are written back at all.
    pub suggestions_enabled: bool,
    /// Whether the host reports in detail.
    pub verbose: bool,
}

impl Config {
    /// The default settings: a 5000 ms interval, suggestions on, quiet.
    pub fn new() -> (r: Config)
        ensures
            r.injection_interval_ms == 5000,
            r.suggestions_enabled,
            !r.verbose,
    {
        Config { injection_interval_ms: 5000, suggestions_enabled: true, verbose: false }
    }
}

impl Default for Config {
    fn default() -> (r: Config)
        ensures
            r.injection_interval_ms == 5000,
            r.suggestions_enabled,
            !r.verbose,
    {
        Config::new()
    }
}

} // verus!
