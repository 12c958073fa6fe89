//! The tasks that turn a termination request of the operating system into
//! a stop request for the node.

use vstd::prelude::*;
use tokio_util::sync::CancellationToken;
use crate::services::{Services, ServicesView};

verus! {

/// The termination requests that a node listens for.
#[derive(Clone, Copy, Debug, PartialEq, Eq, Structural, Hash)]
pub enum SignalKind {
    /// The request to terminate, on Unix.
    Terminate,
    /// The interrupt from the keyboard, on Unix.
    Interrupt,
    /// The interrupt from the keyboard, elsewhere.
    CtrlC,
}

/// What a watcher does once it has tried to install its listener.
#[derive(Clone, Copy, Debug, PartialEq, Eq, Structural)]
pub enum WatcherPlan {
    /// Wait for the signal and request the stop when it comes.
    CancelOnSignal,
    /// Do nothing, for good: the listener could not be installed.
    Inert,
}

/// A watcher to start: the signal it listens for, the number under which
/// the supervisor knows its task, and its handle on the stop signal.
pub struct SignalWatcher {
    pub signal: SignalKind,
    pub task: usize,
    pub token: CancellationToken,
}

impl SignalKind {
    /// The name of the task that listens for the signal.
    pub open spec fn spec_task_name(self) -> Seq<char> {
        match self {
            SignalKind::Terminate => "sigterm_watcher"@,
            SignalKind::Interrupt => "sigint_watcher"@,
            SignalKind::CtrlC => "ctrl_c_watcher"@,
        }
    }

    /// The name of the task that listens for the signal.
    pub fn task_name(&self) -> (name: &'static str)
        ensures
            name@ == self.spec_task_name(),
    {
        match self {
            SignalKind::Terminate => "sigterm_watcher",
            SignalKind::Interrupt => "sigint_watcher",
            SignalKind::CtrlC => "ctrl_c_watcher",
        }
    }
}

/// The signals that a node listens for: on Unix the request to terminate
/// and the interrupt, elsewhere the interrupt from the keyboard.
pub open spec fn signals_of(unix: bool) -> Seq<SignalKind> {
    if unix {
        seq![SignalKind::Terminate, SignalKind::Interrupt]
    } else {
        seq![SignalKind::CtrlC]
    }
}

/// The supervisor after the watchers of `signals` have been registered, in
/// their order.
pub open spec fn watched(services: ServicesView, signals: Seq<SignalKind>) -> ServicesView
    decreases signals.len(),
{
    if signals.len() == 0 {
        services
    } else {
        watched(services, signals.drop_last()).spawned(signals.last().spec_task_name(), false)
    }
}

/// Registers a watcher task for each signal that the platform has and
/// returns the watchers to start, each with its own handle on the stop
/// signal.
pub fn init_os_signal_watchers(services: &mut Services, token: CancellationToken, unix: bool) -> (watchers:
    Vec<SignalWatcher>)
    ensures
        final(services)@ == watched(old(services)@, signals_of(unix)),
        watchers@.len() == signals_of(unix).len(),
        forall|i: int|
            0 <= i < watchers@.len() ==> (#[trigger] watchers@[i]).signal == signals_of(unix)[i]
                && watchers@[i].task == old(services)@.tasks.len() + i,
        old(services)@.wf() ==> final(services)@.wf(),
{
    let mut watchers: Vec<SignalWatcher> = Vec::new();
    if unix {
        let token_1 = token.clone();
        let first = services.spawn(SignalKind::Terminate.task_name());
        watchers.push(SignalWatcher { signal: SignalKind::Terminate, task: first, token });
        let second = services.spawn(SignalKind::Interrupt.task_name());
        watchers.push(SignalWatcher { signal: SignalKind::Interrupt, task: second, token: token_1 });
        proof {
            let signals = signals_of(unix);
            let one = seq![SignalKind::Terminate];
            assert(signals.drop_last() =~= one);
            assert(watched(old(services)@, one.drop_last()) == old(services)@);
            assert(watched(old(services)@, one) == old(services)@.spawned(
                SignalKind::Terminate.spec_task_name(),
                false,
            ));
        }
    } else {
        let only = services.spawn(SignalKind::CtrlC.task_name());
        watchers.push(SignalWatcher { signal: SignalKind::CtrlC, task: only, token });
        proof {
            let signals = signals_of(unix);
            assert(watched(old(services)@, signals.drop_last()) == old(services)@);
        }
    }
    watchers
}

/// What a watcher does once it has tried to install its listener: with the
/// listener in place it waits for the signal; without, it stays inert, and
/// neither fails nor tries again.
pub fn watch(installed: bool) -> (plan: WatcherPlan)
    ensures
        plan == if installed {
            WatcherPlan::CancelOnSignal
        } else {
            WatcherPlan::Inert
        },
{
    if installed {
        WatcherPlan::CancelOnSignal
    } else {
        WatcherPlan::Inert
    }
}

/// Ends the wait of a watcher: where the signal was received, the stop is
/// requested, once. The answer says whether it was.
pub fn recv_signal_and_cancel(received: Option<()>, token: &CancellationToken) -> (requested: bool)
    ensures
        requested == (received is Some),
{
    match received {
        Some(_) => {
            token.cancel();
            true
        },
        None => false,
    }
}

/// Creates the task supervisor and the stop signal of a node, and registers
/// the watchers that raise the signal on a termination request. The answer
/// holds the supervisor, a handle on the stop signal for the node itself,
/// and the watchers to start.
pub fn create_supervisor(unix: bool) -> (r: (Services, CancellationToken, Vec<SignalWatcher>))
    ensures
        r.0@ == watched(
            ServicesView { tasks: Seq::empty(), completions: Seq::empty() },
            signals_of(unix),
        ),
        r.0@.wf(),
        r.2@.len() == signals_of(unix).len(),
        forall|i: int|
            0 <= i < r.2@.len() ==> (#[trigger] r.2@[i]).signal == signals_of(unix)[i]
                && r.2@[i].task == i,
{
    let mut services = Services::new();
    let ghost empty = services@;
    assert(empty.tasks =~= Seq::empty() && empty.completions =~= Seq::empty());
    let cancellation_token = CancellationToken::new();
    let watchers = init_os_signal_watchers(&mut services, cancellation_token.clone(), unix);
    (services, cancellation_token, watchers)
}

} // verus!
