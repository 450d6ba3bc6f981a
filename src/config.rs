//! How the watcher is set up.

use vstd::prelude::*;

verus! {

/// How long raw notifications are gathered before they are handed on, by default.
pub const DEFAULT_DEBOUNCE_MS: u64 = 5000;

/// The setup of one watcher: the directory it sorts, and how long raw
/// notifications are gathered into one logical event.
pub struct WatchConfig {
    pub root: String,
    pub debounce_ms: u64,
}

impl WatchConfig {
    /// A watcher of `root` with the default debounce window.
    pub fn new(root: String) -> (r: WatchConfig)
        ensures
            r.root@ == root@,
            r.debounce_ms == DEFAULT_DEBOUNCE_MS,
    {
        WatchConfig { root, debounce_ms: DEFAULT_DEBOUNCE_MS }
    }

    /// The same watcher with a debounce window of `ms` milliseconds.
    pub fn with_debounce_ms(self, ms: u64) -> (r: WatchConfig)
        ensures
            r.root@ == self.root@,
            r.debounce_ms == ms,
    {
        WatchConfig { root: self.root, debounce_ms: ms }
    }
}

} // verus!
