//! What holds of the task graph of every node.

use vstd::prelude::*;
use crate::lifecycle::LifecycleState;
use crate::settings::Settings;
use crate::topology::{
    api_handles, open_of, service_actions, tasks_of, MailboxKind, ServiceAction, TaskPlan,
};

verus! {

/// Whether `plan` reads or writes the mailbox `kind`.
pub open spec fn uses(plan: TaskPlan, kind: MailboxKind) -> bool {
    plan.consumes == Some(kind) || plan.produces.has(kind)
}

/// The place among the tasks of a node of the one task that reads the
/// mailbox `kind`.
pub open spec fn reader_of(explorer: bool, kind: MailboxKind) -> int {
    let shift: int = if explorer {
        1
    } else {
        0
    };
    match kind {
        MailboxKind::Explorer => 0,
        MailboxKind::Block => shift,
        MailboxKind::Client => shift + 1,
        MailboxKind::Network => shift + 2,
        MailboxKind::Fragment => shift + 4,
    }
}

/// Every mailbox of a node is read by exactly one task, and the mailbox of
/// the explorer task, which only a node that keeps the chain index has, is
/// read by none elsewhere.
pub proof fn lemma_every_mailbox_has_one_reader(settings: Settings, n_pools: usize, kind: MailboxKind)
    ensures
        kind.exists_with(settings.explorer) ==> {
            let reader = reader_of(settings.explorer, kind);
            &&& 0 <= reader < tasks_of(settings, n_pools).len()
            &&& tasks_of(settings, n_pools)[reader].plan(settings.explorer).consumes == Some(kind)
        },
        forall|i: int|
            0 <= i < tasks_of(settings, n_pools).len() && (#[trigger] tasks_of(
                settings,
                n_pools,
            )[i]).plan(settings.explorer).consumes == Some(kind) ==> kind.exists_with(
                settings.explorer,
            ) && i == reader_of(settings.explorer, kind),
{
}

/// No task writes to a mailbox that the node does not have, nor to the
/// mailbox that it reads itself; and the status interface is handed every
/// mailbox that the node has, and no other.
pub proof fn lemma_writers_reach_readers(settings: Settings, n_pools: usize, kind: MailboxKind)
    ensures
        forall|i: int|
            0 <= i < tasks_of(settings, n_pools).len() && (#[trigger] tasks_of(
                settings,
                n_pools,
            )[i]).plan(settings.explorer).produces.has(kind) ==> kind.exists_with(
                settings.explorer,
            ) && i != reader_of(settings.explorer, kind),
        api_handles(settings.explorer).has(kind) <==> kind.exists_with(settings.explorer),
{
}

/// A task is started only after every mailbox that it reads or writes has
/// been created.
pub proof fn lemma_mailboxes_come_first(
    settings: Settings,
    n_pools: usize,
    known: nat,
    at: int,
    kind: MailboxKind,
)
    requires
        0 <= at < service_actions(settings, n_pools, known).len(),
        service_actions(settings, n_pools, known)[at] matches ServiceAction::Spawn { task, .. }
            && uses(task, kind),
    ensures
        exists|before: int|
            0 <= before < at && #[trigger] service_actions(settings, n_pools, known)[before]
                == open_of(kind),
{
    let actions = service_actions(settings, n_pools, known);
    let first: int = if settings.rest {
        1
    } else {
        0
    };
    let place = match kind {
        MailboxKind::Network => first,
        MailboxKind::Block => first + 1,
        MailboxKind::Fragment => first + 2,
        MailboxKind::Client => first + 3,
        MailboxKind::Explorer => first + 4,
    };
    assert(actions[place] == open_of(kind));
}

/// Where a node has a status record, bringing the tasks up publishes the
/// phase of starting them first and the phase of running once all tasks are
/// started and the handles into them attached, and publishes nothing else;
/// where it has none, nothing is published. The wait for the first task to
/// end comes last.
pub proof fn lemma_phases_of_the_start(settings: Settings, n_pools: usize, known: nat)
    ensures
        forall|i: int|
            0 <= i < service_actions(settings, n_pools, known).len() ==> (
            #[trigger] service_actions(settings, n_pools, known)[i] matches ServiceAction::PublishState {
                state,
            } ==> settings.rest && (if i == 0 {
                state == LifecycleState::StartingWorkers
            } else {
                state == LifecycleState::Running
            })),
        settings.rest ==> service_actions(settings, n_pools, known)[0] == (
        ServiceAction::PublishState { state: LifecycleState::StartingWorkers }),
        settings.rest ==> {
            let actions = service_actions(settings, n_pools, known);
            &&& actions[actions.len() - 3] == (ServiceAction::AttachFull {
                handles: api_handles(settings.explorer),
            })
            &&& actions[actions.len() - 2] == (ServiceAction::PublishState {
                state: LifecycleState::Running,
            })
            &&& forall|i: int|
                0 <= i < actions.len() && #[trigger] actions[i] is Spawn ==> i < actions.len() - 3
        },
        service_actions(settings, n_pools, known).last() == ServiceAction::JoinFirst,
{
}

/// The tasks of a node carry different names.
pub proof fn lemma_names_tell_tasks_apart(settings: Settings, n_pools: usize, i: int, j: int)
    requires
        0 <= i < j < tasks_of(settings, n_pools).len(),
    ensures
        tasks_of(settings, n_pools)[i].spec_name() != tasks_of(settings, n_pools)[j].spec_name(),
{
    reveal_strlit("explorer");
    reveal_strlit("block");
    reveal_strlit("client-query");
    reveal_strlit("network");
    reveal_strlit("leadership");
    reveal_strlit("fragment");
    reveal_strlit("stuck_notifier");
    let a = tasks_of(settings, n_pools)[i].spec_name();
    let b = tasks_of(settings, n_pools)[j].spec_name();
    if a.len() == b.len() {
        assert(a[0] != b[0]);
    }
}

} // verus!
