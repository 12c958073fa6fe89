//! The bootstrap: loading the chain state, synchronising with the trusted
//! peers under a bounded number of attempts, and rebuilding the chain index.
//!
//! The bootstrap is a state machine. It is told what happened outside (an
//! attempt failed, the wait is over, a stop was requested) and answers with
//! what to do next. Loading, talking to peers and waiting are the caller's.

use vstd::prelude::*;
use tokio_util::sync::CancellationToken;
use crate::error::ErrorKind;
use crate::lifecycle::LifecycleState;
use crate::settings::Settings;

verus! {

/// Seconds to wait after a failed attempt before the next one.
pub const BOOTSTRAP_RETRY_WAIT: u64 = 5;

/// Number of chain states kept in memory while the node runs.
pub const BLOCKCHAIN_CACHE_CAPACITY: usize = 102_400;

/// What the bootstrap reads of the configuration.
#[derive(Clone, Copy, Debug, PartialEq, Eq)]
pub struct BootstrapConfig {
    /// Number of trusted peers to synchronise with.
    pub trusted_peers: usize,
    /// Whether the node may start without synchronising.
    pub skip_bootstrap: bool,
    /// Upper limit on synchronisation attempts, if any.
    pub max_bootstrap_attempts: Option<usize>,
    /// Whether the chain index is to be rebuilt.
    pub explorer: bool,
}

/// Why a bootstrap did not complete.
#[derive(Clone, Copy, Debug, PartialEq, Eq, Structural)]
pub enum BootstrapFailure {
    /// A stop was requested.
    Interrupted,
    /// There is no peer to synchronise with, and no leave to go without.
    EmptyTrustedPeers,
    /// The chain state could not be loaded.
    Blockchain,
    /// The chain index could not be rebuilt.
    ExplorerBootstrap,
}

/// Where a bootstrap stands.
#[derive(Clone, Copy, Debug, PartialEq, Eq, Structural)]
pub enum BootstrapPhase {
    /// Nothing has been done yet.
    Idle,
    /// The chain state is being loaded.
    LoadingChain,
    /// Attempt number `attempt` is under way; the first attempt is number 1.
    Synchronizing { attempt: usize },
    /// Attempt number `attempt` failed and the wait after it is under way.
    BackingOff { attempt: usize },
    /// The chain index is being rebuilt.
    RebuildingIndex { synced: bool },
    /// The bootstrap is complete; `synced` tells whether the node caught up
    /// with its peers or goes on without.
    Done { synced: bool },
    /// The bootstrap has ended without completing.
    Failed { failure: BootstrapFailure },
}

/// What happened outside the state machine.
#[derive(Clone, Copy, Debug, PartialEq, Eq, Structural)]
pub enum BootstrapEvent {
    /// The bootstrap is to begin.
    Start,
    /// The chain state is loaded.
    ChainLoaded,
    /// The chain state could not be loaded.
    ChainLoadFailed,
    /// The attempt caught up with a peer.
    SyncSucceeded,
    /// The attempt caught up with no peer.
    SyncFailed,
    /// The wait after a failed attempt is over.
    BackoffElapsed,
    /// A stop was requested.
    Cancelled,
    /// The chain index is rebuilt.
    IndexRebuilt,
    /// The chain index could not be rebuilt.
    IndexRebuildFailed,
}

/// What the caller is to do next.
#[derive(Clone, Copy, Debug, PartialEq, Eq, Structural)]
pub enum BootstrapAction {
    /// Write the phase into the status record.
    PublishState { state: LifecycleState },
    /// Load the chain state, keeping `cache_capacity` states in memory.
    LoadChain { cache_capacity: usize },
    /// Attach the chain state, the chain tip and the stop signal to the
    /// status record.
    AttachHandles,
    /// Try to catch up with the trusted peers; this is attempt `attempt`.
    Synchronize { attempt: usize },
    /// Wait for `seconds`, unless a stop is requested first.
    Backoff { seconds: u64 },
    /// Rebuild the chain index, unless a stop is requested first.
    RebuildIndex,
    /// Detach the stop signal from the status record.
    DetachStopper,
    /// Hand out the result of the bootstrap.
    Finish { synced: bool, indexed: bool },
    /// Give up with `failure`.
    Abort { failure: BootstrapFailure },
}

/// A phase and the actions that lead into it.
pub struct Transition {
    pub phase: BootstrapPhase,
    pub actions: Seq<BootstrapAction>,
}

impl BootstrapPhase {
    /// The bootstrap has ended, one way or the other.
    pub open spec fn is_final(self) -> bool {
        self is Done || self is Failed
    }

    /// Whether the bootstrap has ended, one way or the other.
    pub fn has_ended(&self) -> (r: bool)
        ensures
            r == self.is_final(),
    {
        match self {
            BootstrapPhase::Done { .. } => true,
            BootstrapPhase::Failed { .. } => true,
            _ => false,
        }
    }
}

impl BootstrapFailure {
    /// The kind of error with which a node ends whose bootstrap failed so.
    pub open spec fn kind(self) -> ErrorKind {
        match self {
            BootstrapFailure::Interrupted => ErrorKind::Interrupted,
            BootstrapFailure::EmptyTrustedPeers => ErrorKind::Configuration,
            BootstrapFailure::Blockchain => ErrorKind::Blockchain,
            BootstrapFailure::ExplorerBootstrap => ErrorKind::ExplorerBootstrap,
        }
    }

    /// The kind of error with which a node ends whose bootstrap failed so.
    pub fn error_kind(&self) -> (kind: ErrorKind)
        ensures
            kind == self.kind(),
    {
        match self {
            BootstrapFailure::Interrupted => ErrorKind::Interrupted,
            BootstrapFailure::EmptyTrustedPeers => ErrorKind::Configuration,
            BootstrapFailure::Blockchain => ErrorKind::Blockchain,
            BootstrapFailure::ExplorerBootstrap => ErrorKind::ExplorerBootstrap,
        }
    }
}

impl BootstrapConfig {
    /// The bootstrap settings of a configuration.
    pub open spec fn of(settings: Settings) -> BootstrapConfig {
        BootstrapConfig {
            trusted_peers: settings.network.trusted_peers,
            skip_bootstrap: settings.network.skip_bootstrap,
            max_bootstrap_attempts: settings.network.max_bootstrap_attempts,
            explorer: settings.explorer,
        }
    }

    /// Whether attempt number `attempt` would be one too many.
    pub open spec fn exhausted_at(self, attempt: int) -> bool {
        match self.max_bootstrap_attempts {
            Some(max) => attempt > max,
            None => false,
        }
    }

    /// What follows the synchronisation: the chain index if it is kept, else
    /// the end of the bootstrap.
    pub open spec fn after_sync(self, synced: bool) -> Transition {
        if self.explorer {
            Transition {
                phase: BootstrapPhase::RebuildingIndex { synced },
                actions: seq![BootstrapAction::RebuildIndex],
            }
        } else {
            Transition {
                phase: BootstrapPhase::Done { synced },
                actions: seq![
                    BootstrapAction::DetachStopper,
                    BootstrapAction::Finish { synced, indexed: false },
                ],
            }
        }
    }

    /// What happens when attempt number `attempt` is due. Beyond the limit
    /// the node goes on without having caught up. Without trusted peers
    /// there is nothing to catch up with, which counts as success where the
    /// configuration allows it and is an error where it does not.
    pub open spec fn attempt_due(self, attempt: usize) -> Transition {
        if self.exhausted_at(attempt as int) {
            self.after_sync(false)
        } else if self.trusted_peers == 0 {
            if self.skip_bootstrap {
                self.after_sync(true)
            } else {
                give_up(BootstrapFailure::EmptyTrustedPeers)
            }
        } else {
            Transition {
                phase: BootstrapPhase::Synchronizing { attempt },
                actions: seq![BootstrapAction::Synchronize { attempt }],
            }
        }
    }

    /// What happens when the wait after attempt number `attempt` is over.
    /// The attempts are counted in a machine word: a count that has reached
    /// the largest word stays there.
    pub open spec fn wait_over(self, attempt: usize) -> Transition {
        if self.exhausted_at(attempt + 1) {
            self.after_sync(false)
        } else if attempt < usize::MAX {
            self.attempt_due((attempt + 1) as usize)
        } else {
            self.attempt_due(attempt)
        }
    }

    /// The phase and the actions that follow `event` in `phase`. An event
    /// that the phase does not wait for changes nothing and asks for
    /// nothing.
    pub open spec fn transition(self, phase: BootstrapPhase, event: BootstrapEvent) -> Transition {
        match (phase, event) {
            (BootstrapPhase::Idle, BootstrapEvent::Start) => Transition {
                phase: BootstrapPhase::LoadingChain,
                actions: seq![
                    BootstrapAction::PublishState { state: LifecycleState::Bootstrapping },
                    BootstrapAction::LoadChain { cache_capacity: BLOCKCHAIN_CACHE_CAPACITY },
                ],
            },
            (BootstrapPhase::LoadingChain, BootstrapEvent::ChainLoaded) => Transition {
                phase: self.attempt_due(1).phase,
                actions: seq![BootstrapAction::AttachHandles] + self.attempt_due(1).actions,
            },
            (BootstrapPhase::LoadingChain, BootstrapEvent::ChainLoadFailed) => give_up(
                BootstrapFailure::Blockchain,
            ),
            (BootstrapPhase::Synchronizing { attempt }, BootstrapEvent::SyncSucceeded) => {
                self.after_sync(true)
            },
            (BootstrapPhase::Synchronizing { attempt }, BootstrapEvent::SyncFailed) => Transition {
                phase: BootstrapPhase::BackingOff { attempt },
                actions: seq![BootstrapAction::Backoff { seconds: BOOTSTRAP_RETRY_WAIT }],
            },
            (BootstrapPhase::Synchronizing { attempt }, BootstrapEvent::Cancelled) => give_up(
                BootstrapFailure::Interrupted,
            ),
            (BootstrapPhase::BackingOff { attempt }, BootstrapEvent::BackoffElapsed) => {
                self.wait_over(attempt)
            },
            (BootstrapPhase::BackingOff { attempt }, BootstrapEvent::Cancelled) => give_up(
                BootstrapFailure::Interrupted,
            ),
            (BootstrapPhase::RebuildingIndex { synced }, BootstrapEvent::IndexRebuilt) => Transition {
                phase: BootstrapPhase::Done { synced },
                actions: seq![
                    BootstrapAction::DetachStopper,
                    BootstrapAction::Finish { synced, indexed: true },
                ],
            },
            (BootstrapPhase::RebuildingIndex { synced }, BootstrapEvent::IndexRebuildFailed) => {
                give_up(BootstrapFailure::ExplorerBootstrap)
            },
            (BootstrapPhase::RebuildingIndex { synced }, BootstrapEvent::Cancelled) => give_up(
                BootstrapFailure::Interrupted,
            ),
            _ => Transition { phase, actions: Seq::empty() },
        }
    }

    /// The phase reached from `phase` by `events`, and all the actions asked
    /// for on the way, in their order.
    pub open spec fn trace(self, phase: BootstrapPhase, events: Seq<BootstrapEvent>) -> Transition
        decreases events.len(),
    {
        if events.len() == 0 {
            Transition { phase, actions: Seq::empty() }
        } else {
            let before = self.trace(phase, events.drop_last());
            let last = self.transition(before.phase, events.last());
            Transition { phase: last.phase, actions: before.actions + last.actions }
        }
    }
}

/// The end of a bootstrap that cannot complete.
pub open spec fn give_up(failure: BootstrapFailure) -> Transition {
    Transition {
        phase: BootstrapPhase::Failed { failure },
        actions: seq![BootstrapAction::Abort { failure }],
    }
}

impl BootstrapConfig {
    /// The bootstrap settings of a configuration.
    pub fn from_settings(settings: &Settings) -> (config: BootstrapConfig)
        ensures
            config == BootstrapConfig::of(*settings),
    {
        BootstrapConfig {
            trusted_peers: settings.network.trusted_peers,
            skip_bootstrap: settings.network.skip_bootstrap,
            max_bootstrap_attempts: settings.network.max_bootstrap_attempts,
            explorer: settings.explorer,
        }
    }

    fn conclude(&self, synced: bool) -> (r: (BootstrapPhase, Vec<BootstrapAction>))
        ensures
            r.0 == self.after_sync(synced).phase,
            r.1@ == self.after_sync(synced).actions,
    {
        if self.explorer {
            (BootstrapPhase::RebuildingIndex { synced }, vec![BootstrapAction::RebuildIndex])
        } else {
            (
                BootstrapPhase::Done { synced },
                vec![
                    BootstrapAction::DetachStopper,
                    BootstrapAction::Finish { synced, indexed: false },
                ],
            )
        }
    }

    fn is_exhausted_after(&self, attempt: usize) -> (r: bool)
        ensures
            r == self.exhausted_at(attempt + 1),
    {
        match self.max_bootstrap_attempts {
            Some(max) => attempt >= max,
            None => false,
        }
    }

    fn begin_attempt(&self, attempt: usize) -> (r: (BootstrapPhase, Vec<BootstrapAction>))
        requires
            attempt >= 1,
        ensures
            r.0 == self.attempt_due(attempt).phase,
            r.1@ == self.attempt_due(attempt).actions,
    {
        if self.is_exhausted_after(attempt - 1) {
            self.conclude(false)
        } else if self.trusted_peers == 0 {
            if self.skip_bootstrap {
                self.conclude(true)
            } else {
                abort(BootstrapFailure::EmptyTrustedPeers)
            }
        } else {
            (
                BootstrapPhase::Synchronizing { attempt },
                vec![BootstrapAction::Synchronize { attempt }],
            )
        }
    }

    /// Takes the bootstrap from `phase` over `event`: the answer is the new
    /// phase and what the caller is to do, in that order, before it reports
    /// the next event.
    pub fn step(&self, phase: BootstrapPhase, event: BootstrapEvent) -> (r: (
        BootstrapPhase,
        Vec<BootstrapAction>,
    ))
        ensures
            r.0 == self.transition(phase, event).phase,
            r.1@ == self.transition(phase, event).actions,
    {
        match (phase, event) {
            (BootstrapPhase::Idle, BootstrapEvent::Start) => (
                BootstrapPhase::LoadingChain,
                vec![
                    BootstrapAction::PublishState { state: LifecycleState::Bootstrapping },
                    BootstrapAction::LoadChain { cache_capacity: BLOCKCHAIN_CACHE_CAPACITY },
                ],
            ),
            (BootstrapPhase::LoadingChain, BootstrapEvent::ChainLoaded) => {
                let (next, mut rest) = self.begin_attempt(1);
                let mut actions = vec![BootstrapAction::AttachHandles];
                actions.append(&mut rest);
                (next, actions)
            },
            (BootstrapPhase::LoadingChain, BootstrapEvent::ChainLoadFailed) => abort(
                BootstrapFailure::Blockchain,
            ),
            (BootstrapPhase::Synchronizing { attempt: _ }, BootstrapEvent::SyncSucceeded) => {
                self.conclude(true)
            },
            (BootstrapPhase::Synchronizing { attempt }, BootstrapEvent::SyncFailed) => (
                BootstrapPhase::BackingOff { attempt },
                vec![BootstrapAction::Backoff { seconds: BOOTSTRAP_RETRY_WAIT }],
            ),
            (BootstrapPhase::Synchronizing { attempt: _ }, BootstrapEvent::Cancelled) => abort(
                BootstrapFailure::Interrupted,
            ),
            (BootstrapPhase::BackingOff { attempt }, BootstrapEvent::BackoffElapsed) => {
                if self.is_exhausted_after(attempt) {
                    self.conclude(false)
                } else if attempt < usize::MAX {
                    self.begin_attempt(attempt + 1)
                } else {
                    self.begin_attempt(attempt)
                }
            },
            (BootstrapPhase::BackingOff { attempt: _ }, BootstrapEvent::Cancelled) => abort(
                BootstrapFailure::Interrupted,
            ),
            (BootstrapPhase::RebuildingIndex { synced }, BootstrapEvent::IndexRebuilt) => (
                BootstrapPhase::Done { synced },
                vec![
                    BootstrapAction::DetachStopper,
                    BootstrapAction::Finish { synced, indexed: true },
                ],
            ),
            (BootstrapPhase::RebuildingIndex { synced: _ }, BootstrapEvent::IndexRebuildFailed) => {
                abort(BootstrapFailure::ExplorerBootstrap)
            },
            (BootstrapPhase::RebuildingIndex { synced: _ }, BootstrapEvent::Cancelled) => abort(
                BootstrapFailure::Interrupted,
            ),
            _ => (phase, Vec::new()),
        }
    }
}

fn abort(failure: BootstrapFailure) -> (r: (BootstrapPhase, Vec<BootstrapAction>))
    ensures
        r.0 == give_up(failure).phase,
        r.1@ == give_up(failure).actions,
{
    (BootstrapPhase::Failed { failure }, vec![BootstrapAction::Abort { failure }])
}

/// Runs a bootstrap from its beginning over the events that the outside
/// world answered with, and returns the phase it is left in and everything
/// it asked for, in order.
pub fn bootstrap_internal(config: &BootstrapConfig, events: &Vec<BootstrapEvent>) -> (r: (
    BootstrapPhase,
    Vec<BootstrapAction>,
))
    ensures
        r.0 == config.trace(BootstrapPhase::Idle, events@).phase,
        r.1@ == config.trace(BootstrapPhase::Idle, events@).actions,
{
    let mut phase = BootstrapPhase::Idle;
    let mut actions: Vec<BootstrapAction> = Vec::new();
    let mut i: usize = 0;
    while i < events.len()
        invariant
            i <= events.len(),
            phase == config.trace(BootstrapPhase::Idle, events@.take(i as int)).phase,
            actions@ == config.trace(BootstrapPhase::Idle, events@.take(i as int)).actions,
        decreases events.len() - i,
    {
        let (next, mut asked) = config.step(phase, events[i]);
        proof {
            let upto = events@.take(i + 1);
            assert(upto.drop_last() =~= events@.take(i as int));
        }
        actions.append(&mut asked);
        phase = next;
        i += 1;
    }
    proof {
        assert(events@.take(events@.len() as int) =~= events@);
    }
    (phase, actions)
}

/// What a wait that may be cut short by a stop request ends with: the stop
/// request if there is one, and else `otherwise`.
pub fn settled(stop_requested: bool, otherwise: BootstrapEvent) -> (event: BootstrapEvent)
    ensures
        event == if stop_requested {
            BootstrapEvent::Cancelled
        } else {
            otherwise
        },
{
    if stop_requested {
        BootstrapEvent::Cancelled
    } else {
        otherwise
    }
}

/// Reads the stop signal once a wait has ended and reports what the wait
/// ended with. A stop request that has arrived by then takes precedence over
/// whatever else ended the wait.
pub fn settle(stopper: &CancellationToken, otherwise: BootstrapEvent) -> (event: BootstrapEvent)
    ensures
        event == BootstrapEvent::Cancelled || event == otherwise,
{
    settled(stopper.is_cancelled(), otherwise)
}

} // verus!
