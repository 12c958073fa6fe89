//! What holds of every initialisation, proved over the state machine.

use vstd::prelude::*;
use crate::error::ErrorKind;
use crate::lifecycle::LifecycleState;
use crate::settings::{CommandLine, Settings};
use crate::startup::{
    transition, trace, SetupStep, StartupAction, StartupEvent, StartupPhase, VersionKind,
};

verus! {

/// The events of an initialisation in which every step up to the storage
/// succeeds.
pub open spec fn smooth_setup(command_line: CommandLine, settings: Settings) -> Seq<StartupEvent> {
    seq![
        StartupEvent::Start,
        StartupEvent::CommandLineRead { command_line },
        StartupEvent::StepSucceeded,
        StartupEvent::StepSucceeded,
        StartupEvent::StepSucceeded,
        StartupEvent::SettingsParsed { settings },
        StartupEvent::StepSucceeded,
    ]
}

/// What an initialisation asks for up to the preparation of the storage.
pub open spec fn setup_actions() -> Seq<StartupAction> {
    seq![
        StartupAction::ReadCommandLine,
        StartupAction::Run { step: SetupStep::LoadSettings },
        StartupAction::Run { step: SetupStep::InitLog },
        StartupAction::Run { step: SetupStep::CollectDiagnostic },
        StartupAction::Run { step: SetupStep::ParseSettings },
        StartupAction::PrepareStorage,
    ]
}

/// Whether an action starts a task.
pub open spec fn starts_a_task(action: StartupAction) -> bool {
    action == StartupAction::CreateSupervisor || action == StartupAction::ServeStatus
}

/// The initialisation has ended, one way or another.
pub open spec fn is_final(phase: StartupPhase) -> bool {
    phase is Ready || phase is Exited || phase is Failed
}

/// Running over events and one more is running over the events and then
/// making one step.
pub proof fn lemma_trace_and_one_more(
    phase: StartupPhase,
    events: Seq<StartupEvent>,
    event: StartupEvent,
)
    ensures
        trace(phase, events.push(event)).phase == transition(
            trace(phase, events).phase,
            event,
        ).phase,
        trace(phase, events.push(event)).actions == trace(phase, events).actions + transition(
            trace(phase, events).phase,
            event,
        ).actions,
{
    assert(events.push(event).drop_last() =~= events);
}

/// Up to the moment at which its storage is ready, an initialisation whose
/// command line asks for no version does the same whatever its settings
/// are: it reads the command line, takes the four steps of the setup and
/// prepares the storage.
proof fn lemma_smooth_setup(command_line: CommandLine, settings: Settings)
    requires
        !command_line.full_version,
        !command_line.source_version,
    ensures
        trace(StartupPhase::Idle, smooth_setup(command_line, settings).drop_last()).phase == (
        StartupPhase::PreparingStorage { storage_check: command_line.storage_check, settings }),
        trace(StartupPhase::Idle, smooth_setup(command_line, settings).drop_last()).actions
            == setup_actions(),
{
    let e = smooth_setup(command_line, settings);
    let idle = StartupPhase::Idle;
    let e0 = Seq::<StartupEvent>::empty();
    let e1 = e0.push(e[0]);
    let e2 = e1.push(e[1]);
    let e3 = e2.push(e[2]);
    let e4 = e3.push(e[3]);
    let e5 = e4.push(e[4]);
    let e6 = e5.push(e[5]);
    assert(e6 =~= e.drop_last());
    lemma_trace_and_one_more(idle, e0, e[0]);
    lemma_trace_and_one_more(idle, e1, e[1]);
    lemma_trace_and_one_more(idle, e2, e[2]);
    lemma_trace_and_one_more(idle, e3, e[3]);
    lemma_trace_and_one_more(idle, e4, e[4]);
    lemma_trace_and_one_more(idle, e5, e[5]);
}

/// A node without trusted peers that may not skip the bootstrap is refused
/// with a configuration error as soon as its storage is ready, whatever else
/// its settings say, and before anything starts a task. (A command line
/// that asks for a version or for the storage check alone makes the process
/// leave before the peers are looked at.)
pub proof fn lemma_no_peers_is_refused_before_any_task(
    command_line: CommandLine,
    settings: Settings,
)
    requires
        !command_line.full_version,
        !command_line.source_version,
        !command_line.storage_check,
        settings.network.trusted_peers == 0,
        !settings.network.skip_bootstrap,
    ensures
        trace(StartupPhase::Idle, smooth_setup(command_line, settings)).phase == (
        StartupPhase::Failed { kind: ErrorKind::Configuration }),
        trace(StartupPhase::Idle, smooth_setup(command_line, settings)).actions
            == setup_actions().push(StartupAction::Abort { kind: ErrorKind::Configuration }),
        forall|i: int|
            0 <= i < trace(StartupPhase::Idle, smooth_setup(command_line, settings)).actions.len()
                ==> !starts_a_task(
                #[trigger] trace(StartupPhase::Idle, smooth_setup(command_line, settings)).actions[i],
            ),
{
    let e = smooth_setup(command_line, settings);
    lemma_smooth_setup(command_line, settings);
    lemma_trace_and_one_more(StartupPhase::Idle, e.drop_last(), e[6]);
}

/// A node that is only to check its storage prepares the storage and then
/// leaves with code 0: it starts no task and prepares no genesis block.
pub proof fn lemma_storage_check_leaves_early(command_line: CommandLine, settings: Settings)
    requires
        !command_line.full_version,
        !command_line.source_version,
        command_line.storage_check,
    ensures
        trace(StartupPhase::Idle, smooth_setup(command_line, settings)).phase
            == StartupPhase::Exited,
        trace(StartupPhase::Idle, smooth_setup(command_line, settings)).actions
            == setup_actions().push(StartupAction::Exit { code: 0 }),
{
    let e = smooth_setup(command_line, settings);
    lemma_smooth_setup(command_line, settings);
    lemma_trace_and_one_more(StartupPhase::Idle, e.drop_last(), e[6]);
}

/// A command line that asks for a version has it printed and the process
/// leave with code 0 before anything else is done. Where both versions are
/// asked for, the full one is printed.
pub proof fn lemma_version_goes_first(command_line: CommandLine)
    requires
        command_line.full_version || command_line.source_version,
    ensures
        trace(
            StartupPhase::Idle,
            seq![StartupEvent::Start, StartupEvent::CommandLineRead { command_line }],
        ).phase == StartupPhase::Exited,
        trace(
            StartupPhase::Idle,
            seq![StartupEvent::Start, StartupEvent::CommandLineRead { command_line }],
        ).actions == seq![
            StartupAction::ReadCommandLine,
            StartupAction::PrintVersion {
                version: if command_line.full_version {
                    VersionKind::Full
                } else {
                    VersionKind::Source
                },
            },
            StartupAction::Exit { code: 0 },
        ],
{
    let e0 = Seq::<StartupEvent>::empty();
    let e1 = e0.push(StartupEvent::Start);
    let e2 = e1.push(StartupEvent::CommandLineRead { command_line });
    assert(e2 =~= seq![StartupEvent::Start, StartupEvent::CommandLineRead { command_line }]);
    lemma_trace_and_one_more(StartupPhase::Idle, e0, StartupEvent::Start);
    lemma_trace_and_one_more(
        StartupPhase::Idle,
        e1,
        StartupEvent::CommandLineRead { command_line },
    );
}

/// Whatever state an initialisation is in and whatever is reported to it, it
/// starts a task only once the storage is ready, for a node that is not
/// there for the storage check alone and whose settings allow a bootstrap.
pub proof fn lemma_tasks_need_a_usable_configuration(phase: StartupPhase, event: StartupEvent)
    ensures
        forall|i: int|
            0 <= i < transition(phase, event).actions.len() && starts_a_task(
                #[trigger] transition(phase, event).actions[i],
            ) ==> (phase matches StartupPhase::PreparingStorage { storage_check, settings }
                && !storage_check && settings.network.can_bootstrap() && event
                == StartupEvent::StepSucceeded),
{
}

/// An initialisation that has ended stays as it ended.
pub proof fn lemma_the_end_is_final(phase: StartupPhase, events: Seq<StartupEvent>)
    requires
        is_final(phase),
    ensures
        trace(phase, events).phase == phase,
        trace(phase, events).actions == Seq::<StartupAction>::empty(),
    decreases events.len(),
{
    if events.len() > 0 {
        lemma_the_end_is_final(phase, events.drop_last());
    }
}

/// An initialisation publishes the phase of preparing the storage and then
/// that of preparing the genesis block, in one step and in this order, and
/// no other phase ever.
pub proof fn lemma_phases_of_the_initialisation(phase: StartupPhase, event: StartupEvent)
    ensures
        forall|i: int, j: int|
            0 <= i < j < transition(phase, event).actions.len() ==> (
            #[trigger] transition(phase, event).actions[i] matches StartupAction::PublishState {
                state: first,
            } ==> (#[trigger] transition(phase, event).actions[j] matches StartupAction::PublishState {
                state: second,
            } ==> first == LifecycleState::PreparingStorage && second
                == LifecycleState::PreparingBlock0)),
        forall|i: int|
            0 <= i < transition(phase, event).actions.len() ==> (
            #[trigger] transition(phase, event).actions[i] matches StartupAction::PublishState {
                state,
            } ==> state == LifecycleState::PreparingStorage || state
                == LifecycleState::PreparingBlock0),
{
}

} // verus!
