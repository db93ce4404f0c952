//! Per-run configuration shared by every phase of the retry engine.

use vstd::prelude::*;

verus! {

/// Immutable configuration for one run of the retry engine.
///
/// `command` is the full command line, program name and arguments in one
/// string. `count` is the optional attempt limit: `None` means retry without
/// bound. `interval_ms` is the delay between two attempts, in milliseconds;
/// zero is a legitimate "no delay" setting.
#[derive(Clone, Debug)]
pub struct Config {
    pub command: String,
    pub count: Option<usize>,
    pub interval_ms: u64,
}

impl Config {
    /// A usable configuration: the command line is non-empty and a limit,
    /// when present, allows at least one attempt.
    pub open spec fn wf(&self) -> bool {
        &&& self.command@.len() > 0
        &&& self.count matches Some(l) ==> l >= 1
    }
}

} // verus!
