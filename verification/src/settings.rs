//! The configuration values that the startup decisions read.

use vstd::prelude::*;

verus! {

/// What the process was asked on its command line.
#[derive(Clone, Copy, Debug, PartialEq, Eq, Structural)]
pub struct CommandLine {
    /// Print the full version and leave.
    pub full_version: bool,
    /// Print the source version and leave.
    pub source_version: bool,
    /// Prepare the storage, then leave.
    pub storage_check: bool,
}

/// Network settings that matter for the bootstrap.
#[derive(Clone, Copy, Debug, PartialEq, Eq)]
pub struct NetworkSettings {
    /// Number of trusted peers to synchronise with.
    pub trusted_peers: usize,
    /// Whether the node may start without synchronising.
    pub skip_bootstrap: bool,
    /// Upper limit on synchronisation attempts, if any.
    pub max_bootstrap_attempts: Option<usize>,
}

/// Limits of the fragment pool.
#[derive(Clone, Copy, Debug, PartialEq, Eq, Structural)]
pub struct MempoolSettings {
    pub pool_max_entries: usize,
    pub log_max_entries: usize,
}

/// Settings of the block production.
#[derive(Clone, Copy, Debug, PartialEq, Eq, Structural)]
pub struct LeadershipSettings {
    /// How many leadership events are kept for inspection.
    pub logs_capacity: usize,
}

/// A validated configuration, reduced to the values the supervisor decides on.
#[derive(Clone, Copy, Debug, PartialEq, Eq)]
pub struct Settings {
    pub network: NetworkSettings,
    pub mempool: MempoolSettings,
    pub leadership: LeadershipSettings,
    /// Whether the chain index is maintained.
    pub explorer: bool,
    /// Whether the status interface is served.
    pub rest: bool,
    /// Number of leader identities configured for this node.
    pub secrets: usize,
    pub rewards_report_all: bool,
    /// Seconds without a new tip after which a warning is due.
    pub no_blockchain_updates_warning_interval: u64,
}

impl NetworkSettings {
    /// A node with no trusted peer can only start if it may skip the bootstrap.
    pub open spec fn can_bootstrap(self) -> bool {
        self.trusted_peers > 0 || self.skip_bootstrap
    }

    /// Whether these settings allow a bootstrap at all.
    pub fn is_bootstrappable(&self) -> (r: bool)
        ensures
            r == self.can_bootstrap(),
    {
        self.trusted_peers > 0 || self.skip_bootstrap
    }
}

} // verus!
