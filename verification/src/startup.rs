//! The initialisation of a node: from the command line to a node whose
//! storage and genesis block are ready.
//!
//! Like the bootstrap, the initialisation is a state machine: it is told how
//! each step outside ended and answers with the steps to take next.

use vstd::prelude::*;
use crate::error::ErrorKind;
use crate::lifecycle::LifecycleState;
use crate::settings::{CommandLine, Settings};

verus! {

/// The steps that lead to a validated configuration, in their order.
#[derive(Clone, Copy, Debug, PartialEq, Eq, Structural)]
pub enum SetupStep {
    /// Read the configuration.
    LoadSettings,
    /// Set up the log output.
    InitLog,
    /// Collect the system diagnostic.
    CollectDiagnostic,
    /// Validate the configuration.
    ParseSettings,
}

/// The versions that a node can print.
#[derive(Clone, Copy, Debug, PartialEq, Eq, Structural)]
pub enum VersionKind {
    Full,
    Source,
}

/// Where the initialisation stands.
#[derive(Clone, Copy, Debug, PartialEq, Eq)]
pub enum StartupPhase {
    /// Nothing has been done yet.
    Idle,
    /// The command line is being read.
    ReadingCommandLine,
    /// `step` is under way.
    Setup { step: SetupStep, storage_check: bool },
    /// The storage is being prepared.
    PreparingStorage { storage_check: bool, settings: Settings },
    /// The genesis block is being prepared.
    PreparingBlock0 { settings: Settings },
    /// The node is initialised.
    Ready { settings: Settings },
    /// The process has been told to leave normally.
    Exited,
    /// The initialisation has failed.
    Failed { kind: ErrorKind },
}

/// How a step outside the state machine ended.
#[derive(Clone, Copy, Debug, PartialEq, Eq)]
pub enum StartupEvent {
    /// The initialisation is to begin.
    Start,
    /// The command line has been read.
    CommandLineRead { command_line: CommandLine },
    /// The step under way succeeded.
    StepSucceeded,
    /// The configuration is valid; these are its settings.
    SettingsParsed { settings: Settings },
    /// The step under way failed.
    StepFailed,
}

/// What the caller is to do next.
#[derive(Clone, Copy, Debug, PartialEq, Eq, Structural)]
pub enum StartupAction {
    /// Read the command line.
    ReadCommandLine,
    /// Print the version.
    PrintVersion { version: VersionKind },
    /// Leave the process with `code`.
    Exit { code: i32 },
    /// Take `step`.
    Run { step: SetupStep },
    /// Open or create the storage.
    PrepareStorage,
    /// Create the task supervisor and the stop signal of the node, and start
    /// the tasks that watch for the signals of the operating system.
    CreateSupervisor,
    /// Create the status record and store the diagnostic in it.
    CreateStatusRecord,
    /// Write the phase into the status record.
    PublishState { state: LifecycleState },
    /// Start the task that serves the status interface.
    ServeStatus,
    /// Obtain the genesis block.
    PrepareBlock0,
    /// Hand out the initialised node.
    Finish,
    /// Give up with an error of `kind`.
    Abort { kind: ErrorKind },
}

/// A phase and the actions that lead into it.
pub struct StartupTransition {
    pub phase: StartupPhase,
    pub actions: Seq<StartupAction>,
}

impl SetupStep {
    /// The step that follows, if any.
    pub open spec fn following(self) -> Option<SetupStep> {
        match self {
            SetupStep::LoadSettings => Some(SetupStep::InitLog),
            SetupStep::InitLog => Some(SetupStep::CollectDiagnostic),
            SetupStep::CollectDiagnostic => Some(SetupStep::ParseSettings),
            SetupStep::ParseSettings => None,
        }
    }

    /// The kind of error with which a node ends when the step fails.
    pub open spec fn failure(self) -> ErrorKind {
        match self {
            SetupStep::LoadSettings => ErrorKind::Configuration,
            SetupStep::InitLog => ErrorKind::Logging,
            SetupStep::CollectDiagnostic => ErrorKind::Diagnostic,
            SetupStep::ParseSettings => ErrorKind::Configuration,
        }
    }

    /// The step that follows, if any.
    pub fn next(&self) -> (r: Option<SetupStep>)
        ensures
            r == self.following(),
    {
        match self {
            SetupStep::LoadSettings => Some(SetupStep::InitLog),
            SetupStep::InitLog => Some(SetupStep::CollectDiagnostic),
            SetupStep::CollectDiagnostic => Some(SetupStep::ParseSettings),
            SetupStep::ParseSettings => None,
        }
    }

    /// The kind of error with which a node ends when the step fails.
    pub fn error_kind(&self) -> (kind: ErrorKind)
        ensures
            kind == self.failure(),
    {
        match self {
            SetupStep::LoadSettings => ErrorKind::Configuration,
            SetupStep::InitLog => ErrorKind::Logging,
            SetupStep::CollectDiagnostic => ErrorKind::Diagnostic,
            SetupStep::ParseSettings => ErrorKind::Configuration,
        }
    }
}

/// The end of an initialisation that cannot go on.
pub open spec fn failed(kind: ErrorKind) -> StartupTransition {
    StartupTransition {
        phase: StartupPhase::Failed { kind },
        actions: seq![StartupAction::Abort { kind }],
    }
}

/// What the command line asks for before anything else is done: a version
/// is printed and the process leaves with code 0; else the configuration is
/// read.
pub open spec fn command_line_read(command_line: CommandLine) -> StartupTransition {
    if command_line.full_version {
        StartupTransition {
            phase: StartupPhase::Exited,
            actions: seq![
                StartupAction::PrintVersion { version: VersionKind::Full },
                StartupAction::Exit { code: 0 },
            ],
        }
    } else if command_line.source_version {
        StartupTransition {
            phase: StartupPhase::Exited,
            actions: seq![
                StartupAction::PrintVersion { version: VersionKind::Source },
                StartupAction::Exit { code: 0 },
            ],
        }
    } else {
        StartupTransition {
            phase: StartupPhase::Setup {
                step: SetupStep::LoadSettings,
                storage_check: command_line.storage_check,
            },
            actions: seq![StartupAction::Run { step: SetupStep::LoadSettings }],
        }
    }
}

/// What follows once the storage is ready. A node that was only to check
/// its storage leaves with code 0. A node without trusted peers that may not
/// skip the bootstrap has an unusable configuration. For any other node the
/// supervisor is created, the status record too where the status interface
/// is served, and the genesis block is prepared.
pub open spec fn storage_ready(storage_check: bool, settings: Settings) -> StartupTransition {
    if storage_check {
        StartupTransition {
            phase: StartupPhase::Exited,
            actions: seq![StartupAction::Exit { code: 0 }],
        }
    } else if !settings.network.can_bootstrap() {
        failed(ErrorKind::Configuration)
    } else if settings.rest {
        StartupTransition {
            phase: StartupPhase::PreparingBlock0 { settings },
            actions: seq![
                StartupAction::CreateSupervisor,
                StartupAction::CreateStatusRecord,
                StartupAction::PublishState { state: LifecycleState::PreparingStorage },
                StartupAction::ServeStatus,
                StartupAction::PublishState { state: LifecycleState::PreparingBlock0 },
                StartupAction::PrepareBlock0,
            ],
        }
    } else {
        StartupTransition {
            phase: StartupPhase::PreparingBlock0 { settings },
            actions: seq![StartupAction::CreateSupervisor, StartupAction::PrepareBlock0],
        }
    }
}

/// What follows the preparation of the genesis block: the node is handed
/// out, or the error, where the preparation failed.
pub open spec fn block0_prepared(settings: Settings, succeeded: bool) -> StartupTransition {
    if succeeded {
        StartupTransition {
            phase: StartupPhase::Ready { settings },
            actions: seq![StartupAction::Finish],
        }
    } else {
        failed(ErrorKind::Block0)
    }
}

/// The phase and the actions that follow `event` in `phase`. An event that
/// the phase does not wait for changes nothing and asks for nothing.
pub open spec fn transition(phase: StartupPhase, event: StartupEvent) -> StartupTransition {
    match (phase, event) {
        (StartupPhase::Idle, StartupEvent::Start) => StartupTransition {
            phase: StartupPhase::ReadingCommandLine,
            actions: seq![StartupAction::ReadCommandLine],
        },
        (StartupPhase::ReadingCommandLine, StartupEvent::CommandLineRead { command_line }) => {
            command_line_read(command_line)
        },
        (StartupPhase::Setup { step, storage_check }, StartupEvent::StepSucceeded) => {
            match step.following() {
                Some(next) => StartupTransition {
                    phase: StartupPhase::Setup { step: next, storage_check },
                    actions: seq![StartupAction::Run { step: next }],
                },
                None => StartupTransition { phase, actions: Seq::empty() },
            }
        },
        (
            StartupPhase::Setup { step: SetupStep::ParseSettings, storage_check },
            StartupEvent::SettingsParsed { settings },
        ) => StartupTransition {
            phase: StartupPhase::PreparingStorage { storage_check, settings },
            actions: seq![StartupAction::PrepareStorage],
        },
        (StartupPhase::Setup { step, storage_check }, StartupEvent::StepFailed) => failed(
            step.failure(),
        ),
        (StartupPhase::PreparingStorage { storage_check, settings }, StartupEvent::StepSucceeded) => {
            storage_ready(storage_check, settings)
        },
        (StartupPhase::PreparingStorage { storage_check, settings }, StartupEvent::StepFailed) => {
            failed(ErrorKind::Storage)
        },
        (StartupPhase::PreparingBlock0 { settings }, StartupEvent::StepSucceeded) => {
            block0_prepared(settings, true)
        },
        (StartupPhase::PreparingBlock0 { settings }, StartupEvent::StepFailed) => block0_prepared(
            settings,
            false,
        ),
        _ => StartupTransition { phase, actions: Seq::empty() },
    }
}

/// The phase reached from `phase` by `events`, and all the actions asked
/// for on the way, in their order.
pub open spec fn trace(phase: StartupPhase, events: Seq<StartupEvent>) -> StartupTransition
    decreases events.len(),
{
    if events.len() == 0 {
        StartupTransition { phase, actions: Seq::empty() }
    } else {
        let before = trace(phase, events.drop_last());
        let last = transition(before.phase, events.last());
        StartupTransition { phase: last.phase, actions: before.actions + last.actions }
    }
}

fn fail(kind: ErrorKind) -> (r: (StartupPhase, Vec<StartupAction>))
    ensures
        r.0 == failed(kind).phase,
        r.1@ == failed(kind).actions,
{
    (StartupPhase::Failed { kind }, vec![StartupAction::Abort { kind }])
}

fn on_command_line(command_line: CommandLine) -> (r: (StartupPhase, Vec<StartupAction>))
    ensures
        r.0 == command_line_read(command_line).phase,
        r.1@ == command_line_read(command_line).actions,
{
    if command_line.full_version {
        (
            StartupPhase::Exited,
            vec![
                StartupAction::PrintVersion { version: VersionKind::Full },
                StartupAction::Exit { code: 0 },
            ],
        )
    } else if command_line.source_version {
        (
            StartupPhase::Exited,
            vec![
                StartupAction::PrintVersion { version: VersionKind::Source },
                StartupAction::Exit { code: 0 },
            ],
        )
    } else {
        (
            StartupPhase::Setup {
                step: SetupStep::LoadSettings,
                storage_check: command_line.storage_check,
            },
            vec![StartupAction::Run { step: SetupStep::LoadSettings }],
        )
    }
}

fn on_storage_ready(storage_check: bool, settings: Settings) -> (r: (
    StartupPhase,
    Vec<StartupAction>,
))
    ensures
        r.0 == storage_ready(storage_check, settings).phase,
        r.1@ == storage_ready(storage_check, settings).actions,
{
    if storage_check {
        (StartupPhase::Exited, vec![StartupAction::Exit { code: 0 }])
    } else if !settings.network.is_bootstrappable() {
        fail(ErrorKind::Configuration)
    } else if settings.rest {
        (
            StartupPhase::PreparingBlock0 { settings },
            vec![
                StartupAction::CreateSupervisor,
                StartupAction::CreateStatusRecord,
                StartupAction::PublishState { state: LifecycleState::PreparingStorage },
                StartupAction::ServeStatus,
                StartupAction::PublishState { state: LifecycleState::PreparingBlock0 },
                StartupAction::PrepareBlock0,
            ],
        )
    } else {
        (
            StartupPhase::PreparingBlock0 { settings },
            vec![StartupAction::CreateSupervisor, StartupAction::PrepareBlock0],
        )
    }
}

fn on_block0(settings: Settings, succeeded: bool) -> (r: (StartupPhase, Vec<StartupAction>))
    ensures
        r.0 == block0_prepared(settings, succeeded).phase,
        r.1@ == block0_prepared(settings, succeeded).actions,
{
    if succeeded {
        (StartupPhase::Ready { settings }, vec![StartupAction::Finish])
    } else {
        fail(ErrorKind::Block0)
    }
}

/// Takes the initialisation from `phase` over `event`: the answer is the
/// new phase and what the caller is to do, in that order, before it reports
/// the next event.
pub fn step(phase: StartupPhase, event: StartupEvent) -> (r: (StartupPhase, Vec<StartupAction>))
    ensures
        r.0 == transition(phase, event).phase,
        r.1@ == transition(phase, event).actions,
{
    match (phase, event) {
        (StartupPhase::Idle, StartupEvent::Start) => (
            StartupPhase::ReadingCommandLine,
            vec![StartupAction::ReadCommandLine],
        ),
        (StartupPhase::ReadingCommandLine, StartupEvent::CommandLineRead { command_line }) => {
            on_command_line(command_line)
        },
        (StartupPhase::Setup { step, storage_check }, StartupEvent::StepSucceeded) => {
            match step.next() {
                Some(next) => (
                    StartupPhase::Setup { step: next, storage_check },
                    vec![StartupAction::Run { step: next }],
                ),
                None => (phase, Vec::new()),
            }
        },
        (
            StartupPhase::Setup { step: SetupStep::ParseSettings, storage_check },
            StartupEvent::SettingsParsed { settings },
        ) => (
            StartupPhase::PreparingStorage { storage_check, settings },
            vec![StartupAction::PrepareStorage],
        ),
        (StartupPhase::Setup { step, storage_check: _ }, StartupEvent::StepFailed) => fail(
            step.error_kind(),
        ),
        (StartupPhase::PreparingStorage { storage_check, settings }, StartupEvent::StepSucceeded) => {
            on_storage_ready(storage_check, settings)
        },
        (
            StartupPhase::PreparingStorage { storage_check: _, settings: _ },
            StartupEvent::StepFailed,
        ) => fail(ErrorKind::Storage),
        (StartupPhase::PreparingBlock0 { settings }, StartupEvent::StepSucceeded) => on_block0(
            settings,
            true,
        ),
        (StartupPhase::PreparingBlock0 { settings }, StartupEvent::StepFailed) => on_block0(
            settings,
            false,
        ),
        _ => (phase, Vec::new()),
    }
}

/// Runs an initialisation from its beginning over the events that the
/// outside world answered with, and returns the phase it is left in and
/// everything it asked for, in order.
pub fn initialize_node(events: &Vec<StartupEvent>) -> (r: (StartupPhase, Vec<StartupAction>))
    ensures
        r.0 == trace(StartupPhase::Idle, events@).phase,
        r.1@ == trace(StartupPhase::Idle, events@).actions,
{
    let mut phase = StartupPhase::Idle;
    let mut actions: Vec<StartupAction> = Vec::new();
    let mut i: usize = 0;
    while i < events.len()
        invariant
            i <= events.len(),
            phase == trace(StartupPhase::Idle, events@.take(i as int)).phase,
            actions@ == trace(StartupPhase::Idle, events@.take(i as int)).actions,
        decreases events.len() - i,
    {
        let (next, mut asked) = step(phase, events[i]);
        proof {
            let upto = events@.take(i + 1);
            assert(upto.drop_last() =~= events@.take(i as int));
        }
        actions.append(&mut asked);
        phase = next;
        i += 1;
    }
    proof {
        assert(events@.take(events@.len() as int) =~= events@);
    }
    (phase, actions)
}

} // verus!
