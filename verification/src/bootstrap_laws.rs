//! What holds of every bootstrap, proved over the state machine.

use vstd::prelude::*;
use crate::bootstrap::{
    give_up, BootstrapAction, BootstrapConfig, BootstrapEvent, BootstrapFailure, BootstrapPhase,
    BLOCKCHAIN_CACHE_CAPACITY, BOOTSTRAP_RETRY_WAIT,
};
use crate::lifecycle::LifecycleState;

verus! {

/// The actions with which every bootstrap opens once its chain state is
/// loaded.
pub open spec fn opening() -> Seq<BootstrapAction> {
    seq![
        BootstrapAction::PublishState { state: LifecycleState::Bootstrapping },
        BootstrapAction::LoadChain { cache_capacity: BLOCKCHAIN_CACHE_CAPACITY },
        BootstrapAction::AttachHandles,
    ]
}

/// The events of `rounds` attempts that fail, each followed by the end of
/// its wait.
pub open spec fn failing_rounds(rounds: nat) -> Seq<BootstrapEvent>
    decreases rounds,
{
    if rounds == 0 {
        Seq::empty()
    } else {
        failing_rounds((rounds - 1) as nat) + seq![
            BootstrapEvent::SyncFailed,
            BootstrapEvent::BackoffElapsed,
        ]
    }
}

/// The actions of `rounds` attempts that fail: attempt 1 and its wait, then
/// attempt 2 and its wait, and so on.
pub open spec fn failed_attempts(rounds: nat) -> Seq<BootstrapAction>
    decreases rounds,
{
    if rounds == 0 {
        Seq::empty()
    } else {
        failed_attempts((rounds - 1) as nat) + seq![
            BootstrapAction::Synchronize { attempt: rounds as usize },
            BootstrapAction::Backoff { seconds: BOOTSTRAP_RETRY_WAIT },
        ]
    }
}

/// Number of synchronisation attempts among `actions`.
pub open spec fn attempts_in(actions: Seq<BootstrapAction>) -> nat
    decreases actions.len(),
{
    if actions.len() == 0 {
        0
    } else {
        attempts_in(actions.drop_last()) + if actions.last() is Synchronize {
            1nat
        } else {
            0nat
        }
    }
}

/// Number of waits among `actions`.
pub open spec fn waits_in(actions: Seq<BootstrapAction>) -> nat
    decreases actions.len(),
{
    if actions.len() == 0 {
        0
    } else {
        waits_in(actions.drop_last()) + if actions.last() is Backoff {
            1nat
        } else {
            0nat
        }
    }
}

/// The attempt under way, if any, has a number from 1 up to the limit, and
/// there are peers to try.
pub open spec fn within_limit(config: BootstrapConfig, phase: BootstrapPhase) -> bool {
    match phase {
        BootstrapPhase::Synchronizing { attempt } | BootstrapPhase::BackingOff { attempt } => {
            &&& attempt >= 1
            &&& config.trusted_peers > 0
            &&& !config.exhausted_at(attempt as int)
        },
        _ => true,
    }
}

/// Running over two stretches of events is running over the first and then,
/// from where that ended, over the second.
pub proof fn lemma_trace_in_two(
    config: BootstrapConfig,
    phase: BootstrapPhase,
    first: Seq<BootstrapEvent>,
    second: Seq<BootstrapEvent>,
)
    ensures
        config.trace(phase, first + second).phase == config.trace(
            config.trace(phase, first).phase,
            second,
        ).phase,
        config.trace(phase, first + second).actions == config.trace(phase, first).actions
            + config.trace(config.trace(phase, first).phase, second).actions,
    decreases second.len(),
{
    if second.len() > 0 {
        lemma_trace_in_two(config, phase, first, second.drop_last());
        assert((first + second).drop_last() =~= first + second.drop_last());
    }
}

/// A bootstrap that has ended stays as it ended: no event changes its
/// outcome or asks for anything more.
pub proof fn lemma_the_end_is_final(
    config: BootstrapConfig,
    phase: BootstrapPhase,
    events: Seq<BootstrapEvent>,
)
    requires
        phase.is_final(),
    ensures
        config.trace(phase, events).phase == phase,
        config.trace(phase, events).actions == Seq::<BootstrapAction>::empty(),
    decreases events.len(),
{
    if events.len() > 0 {
        lemma_the_end_is_final(config, phase, events.drop_last());
    }
}

/// A stop request that arrives during an attempt, during the wait after a
/// failed attempt or while the chain index is rebuilt ends the bootstrap at
/// once as interrupted, and as nothing else; whatever is reported
/// afterwards, the end of the wait included, leaves it interrupted.
pub proof fn lemma_stop_request_interrupts(
    config: BootstrapConfig,
    phase: BootstrapPhase,
    afterwards: Seq<BootstrapEvent>,
)
    requires
        phase is Synchronizing || phase is BackingOff || phase is RebuildingIndex,
    ensures
        config.transition(phase, BootstrapEvent::Cancelled) == give_up(
            BootstrapFailure::Interrupted,
        ),
        config.trace(phase, seq![BootstrapEvent::Cancelled] + afterwards).phase == (
        BootstrapPhase::Failed { failure: BootstrapFailure::Interrupted }),
        config.trace(phase, seq![BootstrapEvent::Cancelled] + afterwards).actions == seq![
            BootstrapAction::Abort { failure: BootstrapFailure::Interrupted },
        ],
{
    let stop = seq![BootstrapEvent::Cancelled];
    let interrupted = BootstrapPhase::Failed { failure: BootstrapFailure::Interrupted };
    lemma_trace_of_one(config, phase, BootstrapEvent::Cancelled);
    lemma_trace_in_two(config, phase, stop, afterwards);
    lemma_the_end_is_final(config, interrupted, afterwards);
}

/// Running over one event is making one step.
pub proof fn lemma_trace_of_one(
    config: BootstrapConfig,
    phase: BootstrapPhase,
    event: BootstrapEvent,
)
    ensures
        config.trace(phase, seq![event]).phase == config.transition(phase, event).phase,
        config.trace(phase, seq![event]).actions == config.transition(phase, event).actions,
{
    let one = seq![event];
    assert(config.trace(phase, one.drop_last()).actions =~= Seq::<BootstrapAction>::empty());
}

/// Up to the moment at which the first attempt is due, every bootstrap is
/// the same: it publishes its phase, loads the chain state and attaches the
/// handles.
pub proof fn lemma_opening(config: BootstrapConfig)
    ensures
        config.trace(
            BootstrapPhase::Idle,
            seq![BootstrapEvent::Start, BootstrapEvent::ChainLoaded],
        ).phase == config.attempt_due(1).phase,
        config.trace(
            BootstrapPhase::Idle,
            seq![BootstrapEvent::Start, BootstrapEvent::ChainLoaded],
        ).actions == opening() + config.attempt_due(1).actions,
{
    let start = seq![BootstrapEvent::Start];
    let loaded = seq![BootstrapEvent::ChainLoaded];
    assert(start + loaded =~= seq![BootstrapEvent::Start, BootstrapEvent::ChainLoaded]);
    lemma_trace_in_two(config, BootstrapPhase::Idle, start, loaded);
    lemma_trace_of_one(config, BootstrapPhase::Idle, BootstrapEvent::Start);
    lemma_trace_of_one(config, BootstrapPhase::LoadingChain, BootstrapEvent::ChainLoaded);
}

/// A node without trusted peers that may skip the bootstrap completes the
/// synchronisation at the first pass, as caught up, without asking for a
/// single attempt or wait. (With a limit of zero attempts no pass is made:
/// that node goes on as not caught up.)
pub proof fn lemma_no_peers_no_network(config: BootstrapConfig)
    requires
        config.trusted_peers == 0,
        config.skip_bootstrap,
        config.max_bootstrap_attempts != Some(0usize),
    ensures
        config.trace(
            BootstrapPhase::Idle,
            seq![BootstrapEvent::Start, BootstrapEvent::ChainLoaded],
        ).phase == config.after_sync(true).phase,
        config.trace(
            BootstrapPhase::Idle,
            seq![BootstrapEvent::Start, BootstrapEvent::ChainLoaded],
        ).actions == opening() + config.after_sync(true).actions,
        attempts_in(opening() + config.after_sync(true).actions) == 0,
        waits_in(opening() + config.after_sync(true).actions) == 0,
{
    lemma_opening(config);
    lemma_counts_in_two(opening(), config.after_sync(true).actions);
    lemma_counts_of_opening();
    lemma_counts_after_sync(config, true);
}

/// With peers that never answer and a limit of `limit` attempts, after
/// `rounds` failed attempts and their waits the bootstrap has asked for
/// exactly those attempts and waits, and either the next attempt is under
/// way or, at the limit, the node goes on as not caught up.
proof fn lemma_failing_rounds(config: BootstrapConfig, limit: usize, rounds: nat)
    requires
        config.max_bootstrap_attempts == Some(limit),
        config.trusted_peers > 0,
        rounds <= limit,
    ensures
        ({
            let events = seq![BootstrapEvent::Start, BootstrapEvent::ChainLoaded] + failing_rounds(
                rounds,
            );
            let reached = config.trace(BootstrapPhase::Idle, events);
            if rounds < limit {
                &&& reached.phase == (BootstrapPhase::Synchronizing {
                    attempt: (rounds + 1) as usize,
                })
                &&& reached.actions == opening() + failed_attempts(rounds) + seq![
                    BootstrapAction::Synchronize { attempt: (rounds + 1) as usize },
                ]
            } else {
                &&& reached.phase == config.after_sync(false).phase
                &&& reached.actions == opening() + failed_attempts(rounds) + config.after_sync(
                    false,
                ).actions
            }
        }),
    decreases rounds,
{
    let head = seq![BootstrapEvent::Start, BootstrapEvent::ChainLoaded];
    if rounds == 0 {
        lemma_opening(config);
    } else {
        let earlier = (rounds - 1) as nat;
        lemma_failing_rounds(config, limit, earlier);
        let round = seq![BootstrapEvent::SyncFailed, BootstrapEvent::BackoffElapsed];
        let failed = seq![BootstrapEvent::SyncFailed];
        let elapsed = seq![BootstrapEvent::BackoffElapsed];
        assert(failed + elapsed =~= round);
        assert(head + failing_rounds(rounds) =~= (head + failing_rounds(earlier)) + round);
        let before = config.trace(BootstrapPhase::Idle, head + failing_rounds(earlier));
        let attempt = rounds as usize;
        lemma_trace_in_two(config, BootstrapPhase::Idle, head + failing_rounds(earlier), round);
        lemma_trace_in_two(config, before.phase, failed, elapsed);
        lemma_trace_of_one(config, before.phase, BootstrapEvent::SyncFailed);
        lemma_trace_of_one(
            config,
            BootstrapPhase::BackingOff { attempt },
            BootstrapEvent::BackoffElapsed,
        );
    }
}

/// With trusted peers that never let the node catch up and a limit of
/// `limit` attempts, the bootstrap makes attempt 1 to attempt `limit`, each
/// followed by a wait of five seconds, and nothing else in between; then the
/// node goes on as not caught up, to the chain index or to its end, without
/// any error. So it makes exactly `limit` attempts.
pub proof fn lemma_failing_peers_are_tried_to_the_limit(config: BootstrapConfig, limit: usize)
    requires
        config.max_bootstrap_attempts == Some(limit),
        config.trusted_peers > 0,
    ensures
        config.trace(
            BootstrapPhase::Idle,
            seq![BootstrapEvent::Start, BootstrapEvent::ChainLoaded] + failing_rounds(limit as nat),
        ).phase == config.after_sync(false).phase,
        config.trace(
            BootstrapPhase::Idle,
            seq![BootstrapEvent::Start, BootstrapEvent::ChainLoaded] + failing_rounds(limit as nat),
        ).actions == opening() + failed_attempts(limit as nat) + config.after_sync(false).actions,
        attempts_in(
            opening() + failed_attempts(limit as nat) + config.after_sync(false).actions,
        ) == limit,
        waits_in(opening() + failed_attempts(limit as nat) + config.after_sync(false).actions)
            == limit,
        !(config.after_sync(false).phase is Failed),
{
    lemma_failing_rounds(config, limit, limit as nat);
    lemma_counts_in_two(opening() + failed_attempts(limit as nat), config.after_sync(false).actions);
    lemma_counts_in_two(opening(), failed_attempts(limit as nat));
    lemma_counts_of_opening();
    lemma_counts_after_sync(config, false);
    lemma_counts_of_failed_attempts(limit as nat);
}

/// Attempts and waits are counted stretch by stretch.
pub proof fn lemma_counts_in_two(first: Seq<BootstrapAction>, second: Seq<BootstrapAction>)
    ensures
        attempts_in(first + second) == attempts_in(first) + attempts_in(second),
        waits_in(first + second) == waits_in(first) + waits_in(second),
    decreases second.len(),
{
    if second.len() > 0 {
        lemma_counts_in_two(first, second.drop_last());
        assert((first + second).drop_last() =~= first + second.drop_last());
    }
}

proof fn lemma_counts_of_opening()
    ensures
        attempts_in(opening()) == 0,
        waits_in(opening()) == 0,
{
    let a = seq![BootstrapAction::PublishState { state: LifecycleState::Bootstrapping }];
    let b = seq![BootstrapAction::LoadChain { cache_capacity: BLOCKCHAIN_CACHE_CAPACITY }];
    let c = seq![BootstrapAction::AttachHandles];
    assert(opening() =~= a + b + c);
    lemma_counts_in_two(a + b, c);
    lemma_counts_in_two(a, b);
    lemma_counts_of_one(a[0]);
    lemma_counts_of_one(b[0]);
    lemma_counts_of_one(c[0]);
}

proof fn lemma_counts_of_one(action: BootstrapAction)
    ensures
        attempts_in(seq![action]) == if action is Synchronize {
            1nat
        } else {
            0nat
        },
        waits_in(seq![action]) == if action is Backoff {
            1nat
        } else {
            0nat
        },
{
    let one = seq![action];
    assert(attempts_in(one.drop_last()) == 0);
    assert(waits_in(one.drop_last()) == 0);
}

proof fn lemma_counts_after_sync(config: BootstrapConfig, synced: bool)
    ensures
        attempts_in(config.after_sync(synced).actions) == 0,
        waits_in(config.after_sync(synced).actions) == 0,
{
    if config.explorer {
        lemma_counts_of_one(BootstrapAction::RebuildIndex);
    } else {
        let a = seq![BootstrapAction::DetachStopper];
        let b = seq![BootstrapAction::Finish { synced, indexed: false }];
        assert(config.after_sync(synced).actions =~= a + b);
        lemma_counts_in_two(a, b);
        lemma_counts_of_one(a[0]);
        lemma_counts_of_one(b[0]);
    }
}

proof fn lemma_counts_of_failed_attempts(rounds: nat)
    ensures
        attempts_in(failed_attempts(rounds)) == rounds,
        waits_in(failed_attempts(rounds)) == rounds,
    decreases rounds,
{
    if rounds > 0 {
        lemma_counts_of_failed_attempts((rounds - 1) as nat);
        let a = seq![BootstrapAction::Synchronize { attempt: rounds as usize }];
        let b = seq![BootstrapAction::Backoff { seconds: BOOTSTRAP_RETRY_WAIT }];
        assert(failed_attempts(rounds) =~= failed_attempts((rounds - 1) as nat) + (a + b));
        lemma_counts_in_two(failed_attempts((rounds - 1) as nat), a + b);
        lemma_counts_in_two(a, b);
        lemma_counts_of_one(a[0]);
        lemma_counts_of_one(b[0]);
    }
}

/// Whatever is reported to a bootstrap, no attempt is ever under way beyond
/// the limit or without a peer to try.
pub proof fn lemma_attempts_stay_within_limit(
    config: BootstrapConfig,
    events: Seq<BootstrapEvent>,
)
    ensures
        within_limit(config, config.trace(BootstrapPhase::Idle, events).phase),
    decreases events.len(),
{
    if events.len() > 0 {
        lemma_attempts_stay_within_limit(config, events.drop_last());
    }
}

/// The only phase that a bootstrap ever publishes is that of bootstrapping.
pub proof fn lemma_only_bootstrapping_is_published(
    config: BootstrapConfig,
    phase: BootstrapPhase,
    event: BootstrapEvent,
)
    ensures
        forall|i: int|
            0 <= i < config.transition(phase, event).actions.len() ==> (
            #[trigger] config.transition(phase, event).actions[i] matches BootstrapAction::PublishState {
                state,
            } ==> state == LifecycleState::Bootstrapping),
{
}

/// What holds of the attempts made so far at every moment of a bootstrap
/// with a limit: while an attempt or its wait is under way, that attempt is
/// the last of as many attempts as its number says; at any other time no
/// more attempts were made than the limit allows.
pub open spec fn attempts_so_far(config: BootstrapConfig, phase: BootstrapPhase, made: nat) -> bool {
    match phase {
        BootstrapPhase::Idle | BootstrapPhase::LoadingChain => made == 0,
        BootstrapPhase::Synchronizing { attempt } | BootstrapPhase::BackingOff { attempt } => {
            made == attempt && !config.exhausted_at(attempt as int)
        },
        _ => !config.exhausted_at(made as int),
    }
}

proof fn lemma_counts_of_transition(
    config: BootstrapConfig,
    phase: BootstrapPhase,
    event: BootstrapEvent,
)
    ensures
        attempts_in(config.transition(phase, event).actions) == if config.transition(
            phase,
            event,
        ).phase is Synchronizing && !(phase is Synchronizing) {
            1nat
        } else {
            0nat
        },
{
    let actions = config.transition(phase, event).actions;
    if actions.len() == 1 {
        lemma_counts_of_one(actions[0]);
    } else if actions.len() == 2 {
        assert(actions =~= seq![actions[0]] + seq![actions[1]]);
        lemma_counts_in_two(seq![actions[0]], seq![actions[1]]);
        lemma_counts_of_one(actions[0]);
        lemma_counts_of_one(actions[1]);
    } else if actions.len() == 3 {
        assert(actions =~= seq![actions[0]] + seq![actions[1]] + seq![actions[2]]);
        lemma_counts_in_two(seq![actions[0]] + seq![actions[1]], seq![actions[2]]);
        lemma_counts_in_two(seq![actions[0]], seq![actions[1]]);
        lemma_counts_of_one(actions[0]);
        lemma_counts_of_one(actions[1]);
        lemma_counts_of_one(actions[2]);
    }
}

/// Whatever happens outside, a bootstrap with a limit on its attempts never
/// asks for more attempts than the limit.
pub proof fn lemma_attempts_never_exceed_the_limit(
    config: BootstrapConfig,
    limit: usize,
    events: Seq<BootstrapEvent>,
)
    requires
        config.max_bootstrap_attempts == Some(limit),
    ensures
        attempts_in(config.trace(BootstrapPhase::Idle, events).actions) <= limit,
        attempts_so_far(
            config,
            config.trace(BootstrapPhase::Idle, events).phase,
            attempts_in(config.trace(BootstrapPhase::Idle, events).actions),
        ),
    decreases events.len(),
{
    if events.len() > 0 {
        lemma_attempts_never_exceed_the_limit(config, limit, events.drop_last());
        let before = config.trace(BootstrapPhase::Idle, events.drop_last());
        let last = config.transition(before.phase, events.last());
        lemma_counts_in_two(before.actions, last.actions);
        lemma_counts_of_transition(config, before.phase, events.last());
    }
}

} // verus!
