//! The phases that a node publishes from its start to its running, taken
//! over the three stages of the start together.

use vstd::prelude::*;
use crate::bootstrap::{BootstrapAction, BootstrapConfig, BootstrapEvent, BootstrapPhase};
use crate::context::ContextView;
use crate::lifecycle::LifecycleState;
use crate::settings::Settings;
use crate::startup::{storage_ready, StartupAction};
use crate::topology::{api_handles, service_actions, ServiceAction};

verus! {

/// The phases that the initialisation publishes among `actions`, in order.
pub open spec fn published_by_startup(actions: Seq<StartupAction>) -> Seq<LifecycleState>
    decreases actions.len(),
{
    if actions.len() == 0 {
        Seq::empty()
    } else {
        match actions.last() {
            StartupAction::PublishState { state } => published_by_startup(
                actions.drop_last(),
            ).push(state),
            _ => published_by_startup(actions.drop_last()),
        }
    }
}

/// The phases that the bootstrap publishes among `actions`, in order.
pub open spec fn published_by_bootstrap(actions: Seq<BootstrapAction>) -> Seq<LifecycleState>
    decreases actions.len(),
{
    if actions.len() == 0 {
        Seq::empty()
    } else {
        match actions.last() {
            BootstrapAction::PublishState { state } => published_by_bootstrap(
                actions.drop_last(),
            ).push(state),
            _ => published_by_bootstrap(actions.drop_last()),
        }
    }
}

/// The phases that the start of the tasks publishes among `actions`, in
/// order.
pub open spec fn published_by_services(actions: Seq<ServiceAction>) -> Seq<LifecycleState>
    decreases actions.len(),
{
    if actions.len() == 0 {
        Seq::empty()
    } else {
        match actions.last() {
            ServiceAction::PublishState { state } => published_by_services(
                actions.drop_last(),
            ).push(state),
            _ => published_by_services(actions.drop_last()),
        }
    }
}

/// `phases` never steps back: each phase is at or after the one before it.
pub open spec fn never_steps_back(phases: Seq<LifecycleState>) -> bool {
    forall|i: int, j: int|
        0 <= i <= j < phases.len() ==> (#[trigger] phases[i]).precedes_or_is(#[trigger] phases[j])
}

/// The phases of a whole start, in the order in which the three stages run.
pub open spec fn all_phases() -> Seq<LifecycleState> {
    seq![
        LifecycleState::PreparingStorage,
        LifecycleState::PreparingBlock0,
        LifecycleState::Bootstrapping,
        LifecycleState::StartingWorkers,
        LifecycleState::Running,
    ]
}

proof fn lemma_startup_push(actions: Seq<StartupAction>, action: StartupAction)
    ensures
        published_by_startup(actions.push(action)) == match action {
            StartupAction::PublishState { state } => published_by_startup(actions).push(state),
            _ => published_by_startup(actions),
        },
{
    assert(actions.push(action).drop_last() =~= actions);
}

proof fn lemma_services_push(actions: Seq<ServiceAction>, action: ServiceAction)
    ensures
        published_by_services(actions.push(action)) == match action {
            ServiceAction::PublishState { state } => published_by_services(actions).push(state),
            _ => published_by_services(actions),
        },
{
    assert(actions.push(action).drop_last() =~= actions);
}

proof fn lemma_bootstrap_push(actions: Seq<BootstrapAction>, action: BootstrapAction)
    ensures
        published_by_bootstrap(actions.push(action)) == match action {
            BootstrapAction::PublishState { state } => published_by_bootstrap(actions).push(state),
            _ => published_by_bootstrap(actions),
        },
{
    assert(actions.push(action).drop_last() =~= actions);
}

/// The initialisation of a node with a status record publishes, once the
/// storage is ready, the phase of preparing the storage and then that of
/// preparing the genesis block.
pub proof fn lemma_startup_publishes_two_phases(settings: Settings)
    requires
        settings.rest,
        settings.network.can_bootstrap(),
    ensures
        published_by_startup(storage_ready(false, settings).actions) == seq![
            LifecycleState::PreparingStorage,
            LifecycleState::PreparingBlock0,
        ],
{
    let a = storage_ready(false, settings).actions;
    let a0 = Seq::<StartupAction>::empty();
    let a1 = a0.push(a[0]);
    let a2 = a1.push(a[1]);
    let a3 = a2.push(a[2]);
    let a4 = a3.push(a[3]);
    let a5 = a4.push(a[4]);
    let a6 = a5.push(a[5]);
    assert(a6 =~= a);
    lemma_startup_push(a0, a[0]);
    lemma_startup_push(a1, a[1]);
    lemma_startup_push(a2, a[2]);
    lemma_startup_push(a3, a[3]);
    lemma_startup_push(a4, a[4]);
    lemma_startup_push(a5, a[5]);
}

/// Whatever a bootstrap is told, what it publishes in one step never steps
/// back: it publishes the phase of bootstrapping, once, when it begins, and
/// nothing else.
pub proof fn lemma_bootstrap_publishes_one_phase(
    config: BootstrapConfig,
    phase: BootstrapPhase,
    event: BootstrapEvent,
)
    ensures
        published_by_bootstrap(config.transition(phase, event).actions) == if phase
            == BootstrapPhase::Idle && event == BootstrapEvent::Start {
            seq![LifecycleState::Bootstrapping]
        } else {
            Seq::<LifecycleState>::empty()
        },
{
    let actions = config.transition(phase, event).actions;
    let none = Seq::<BootstrapAction>::empty();
    if actions.len() == 1 {
        lemma_bootstrap_push(none, actions[0]);
    } else if actions.len() == 2 {
        assert(actions =~= none.push(actions[0]).push(actions[1]));
        lemma_bootstrap_push(none, actions[0]);
        lemma_bootstrap_push(none.push(actions[0]), actions[1]);
    } else if actions.len() == 3 {
        assert(actions =~= none.push(actions[0]).push(actions[1]).push(actions[2]));
        lemma_bootstrap_push(none, actions[0]);
        lemma_bootstrap_push(none.push(actions[0]), actions[1]);
        lemma_bootstrap_push(none.push(actions[0]).push(actions[1]), actions[2]);
    }
}

/// Phases are published stretch by stretch.
proof fn lemma_services_in_two(first: Seq<ServiceAction>, second: Seq<ServiceAction>)
    ensures
        published_by_services(first + second) == published_by_services(first)
            + published_by_services(second),
    decreases second.len(),
{
    if second.len() > 0 {
        lemma_services_in_two(first, second.drop_last());
        assert((first + second).drop_last() =~= first + second.drop_last());
    }
}

/// Steps that publish nothing publish no phase.
proof fn lemma_services_silent(actions: Seq<ServiceAction>)
    requires
        forall|i: int| 0 <= i < actions.len() ==> !(#[trigger] actions[i] is PublishState),
    ensures
        published_by_services(actions) == Seq::<LifecycleState>::empty(),
    decreases actions.len(),
{
    if actions.len() > 0 {
        lemma_services_silent(actions.drop_last());
    }
}

/// Bringing up the tasks of a node with a status record publishes the phase
/// of starting the workers and then that of running; without a status
/// record it publishes nothing.
pub proof fn lemma_services_publish_two_phases(settings: Settings, n_pools: usize, known: nat)
    ensures
        published_by_services(service_actions(settings, n_pools, known)) == if settings.rest {
            seq![LifecycleState::StartingWorkers, LifecycleState::Running]
        } else {
            Seq::<LifecycleState>::empty()
        },
{
    let a = service_actions(settings, n_pools, known);
    let none = Seq::<ServiceAction>::empty();
    let starting = if settings.rest {
        seq![ServiceAction::PublishState { state: LifecycleState::StartingWorkers }]
    } else {
        none
    };
    let running = if settings.rest {
        seq![
            ServiceAction::AttachFull { handles: api_handles(settings.explorer) },
            ServiceAction::PublishState { state: LifecycleState::Running },
        ]
    } else {
        none
    };
    let from: int = starting.len() as int;
    let until: int = a.len() - 1 - running.len();
    let middle = a.subrange(from, until);
    let watch = a.subrange(a.len() - 1, a.len() as int);
    assert(a =~= starting + middle + running + watch);
    lemma_services_in_two(starting + middle + running, watch);
    lemma_services_in_two(starting + middle, running);
    lemma_services_in_two(starting, middle);
    lemma_services_silent(middle);
    lemma_services_silent(watch);
    if settings.rest {
        lemma_services_push(none, starting[0]);
        lemma_services_push(none, running[0]);
        lemma_services_push(none.push(running[0]), running[1]);
        assert(none.push(running[0]).push(running[1]) =~= running);
    }
}

/// Taken together, the three stages of the start of a node with a status
/// record publish the five phases in their fixed order, and no phase twice.
pub proof fn lemma_a_start_publishes_every_phase_in_order(
    config: BootstrapConfig,
    settings: Settings,
    n_pools: usize,
    known: nat,
)
    requires
        settings.rest,
        settings.network.can_bootstrap(),
    ensures
        published_by_startup(storage_ready(false, settings).actions) + published_by_bootstrap(
            config.transition(BootstrapPhase::Idle, BootstrapEvent::Start).actions,
        ) + published_by_services(service_actions(settings, n_pools, known)) == all_phases(),
        never_steps_back(all_phases()),
{
    lemma_startup_publishes_two_phases(settings);
    lemma_bootstrap_publishes_one_phase(config, BootstrapPhase::Idle, BootstrapEvent::Start);
    lemma_services_publish_two_phases(settings, n_pools, known);
}

/// A status record to which phases are written that never step back takes
/// every one of them: after the writes it shows the last phase written.
pub proof fn lemma_forward_writes_are_all_taken<D, C, T, F>(
    record: ContextView<D, C, T, F>,
    phases: Seq<LifecycleState>,
)
    requires
        never_steps_back(phases),
        phases.len() > 0,
        record.node_state.precedes_or_is(phases[0]),
    ensures
        record.advanced_through(phases).node_state == phases.last(),
    decreases phases.len(),
{
    let earlier = phases.drop_last();
    if phases.len() > 1 {
        assert(never_steps_back(earlier));
        lemma_forward_writes_are_all_taken(record, earlier);
    }
    assert(record.advanced_through(phases) == record.advanced_through(earlier).advanced(
        phases.last(),
    ));
}

} // verus!
