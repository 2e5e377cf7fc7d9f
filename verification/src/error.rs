//! The error taxonomy of the plugin core.

use vstd::prelude::*;

verus! {

/// What can go wrong during one foreground invocation.
///
/// Lock contention is deliberately *not* here: another producer holding
/// the lock is the expected steady state, not an error.
#[derive(Debug, Clone, PartialEq, Eq)]
pub enum PluginError {
    /// The plugin's own `config` or `acquire` callback failed; the
    /// message is propagated unchanged.
    Collaborator(String),
    /// The background producer could not be spawned.
    SpawnFailed,
    /// The atomic drain of the cache file failed (rename or copy);
    /// never silently swallowed, since an empty answer would look like
    /// "zero metrics" to the collector.
    DrainFailed,
}

} // verus!
