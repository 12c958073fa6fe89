//! The fixed graph of tasks of a running node, and the mailboxes between
//! them.

use vstd::prelude::*;
use crate::error::Error;
use crate::lifecycle::LifecycleState;
use crate::services::{Services, TaskView};
use crate::settings::Settings;

verus! {

/// Messages that fit into the mailbox of the block task.
pub const BLOCK_TASK_QUEUE_LEN: usize = 32;

/// Messages that fit into the mailbox of the fragment task.
pub const FRAGMENT_TASK_QUEUE_LEN: usize = 1024;

/// Messages that fit into the mailbox of the network task.
pub const NETWORK_TASK_QUEUE_LEN: usize = 32;

/// Messages that fit into the mailbox of the explorer task.
pub const EXPLORER_TASK_QUEUE_LEN: usize = 32;

/// Messages that fit into the mailbox of the client task.
pub const CLIENT_TASK_QUEUE_LEN: usize = 32;

/// Seconds between two prunings of the cached chain states.
pub const BLOCK_CACHE_TTL: u64 = 120;

/// The mailboxes of a node, each named after the task that reads it.
#[derive(Clone, Copy, Debug, PartialEq, Eq, Structural, Hash)]
pub enum MailboxKind {
    Network,
    Block,
    Fragment,
    Client,
    Explorer,
}

/// A set of mailboxes: those a task may write to.
#[derive(Clone, Copy, Debug, PartialEq, Eq, Structural)]
pub struct Wiring {
    pub network: bool,
    pub block: bool,
    pub fragment: bool,
    pub client: bool,
    pub explorer: bool,
}

/// The tasks of a running node, with what each is started with.
#[derive(Clone, Copy, Debug, PartialEq, Eq, Structural)]
pub enum TaskKind {
    /// Keeps the chain index.
    Explorer,
    /// Validates and applies blocks.
    Block { garbage_collection_interval: u64 },
    /// Answers the data requests of peers.
    ClientQuery,
    /// Talks to the peers.
    Network,
    /// Produces blocks when this node is scheduled to.
    Leadership { logs_capacity: usize },
    /// Keeps the pool of pending fragments.
    Fragment { pool_max_entries: usize, log_max_entries: usize, n_pools: usize },
    /// Warns when the chain tip has not moved for too long.
    StuckNotifier { warning_interval: u64 },
}

/// A task to start: what it is, whether it may end with an error, the
/// mailbox it reads and the mailboxes it may write to.
#[derive(Clone, Copy, Debug, PartialEq, Eq)]
pub struct TaskPlan {
    pub kind: TaskKind,
    pub fallible: bool,
    pub consumes: Option<MailboxKind>,
    pub produces: Wiring,
}

/// One step of bringing the tasks up.
#[derive(Clone, Copy, Debug, PartialEq, Eq)]
pub enum ServiceAction {
    /// Write the phase into the status record.
    PublishState { state: LifecycleState },
    /// Create the mailbox `kind`, for `capacity` messages.
    OpenMailbox { kind: MailboxKind, capacity: usize },
    /// Start the task; the supervisor knows it under the number `id`.
    Spawn { task: TaskPlan, id: usize },
    /// Attach the handles into the tasks to the status record.
    AttachFull { handles: Wiring },
    /// Wait for the first task to end.
    JoinFirst,
}

impl Wiring {
    /// No mailbox at all.
    pub open spec fn none() -> Wiring {
        Wiring { network: false, block: false, fragment: false, client: false, explorer: false }
    }

    /// Whether `kind` is among the mailboxes.
    pub open spec fn has(self, kind: MailboxKind) -> bool {
        match kind {
            MailboxKind::Network => self.network,
            MailboxKind::Block => self.block,
            MailboxKind::Fragment => self.fragment,
            MailboxKind::Client => self.client,
            MailboxKind::Explorer => self.explorer,
        }
    }

    /// Whether `kind` is among the mailboxes.
    pub fn contains(&self, kind: MailboxKind) -> (b: bool)
        ensures
            b == self.has(kind),
    {
        match kind {
            MailboxKind::Network => self.network,
            MailboxKind::Block => self.block,
            MailboxKind::Fragment => self.fragment,
            MailboxKind::Client => self.client,
            MailboxKind::Explorer => self.explorer,
        }
    }
}

impl MailboxKind {
    /// Number of messages that fit into the mailbox.
    pub open spec fn spec_capacity(self) -> usize {
        match self {
            MailboxKind::Network => NETWORK_TASK_QUEUE_LEN,
            MailboxKind::Block => BLOCK_TASK_QUEUE_LEN,
            MailboxKind::Fragment => FRAGMENT_TASK_QUEUE_LEN,
            MailboxKind::Client => CLIENT_TASK_QUEUE_LEN,
            MailboxKind::Explorer => EXPLORER_TASK_QUEUE_LEN,
        }
    }

    /// Number of messages that fit into the mailbox.
    pub fn capacity(&self) -> (c: usize)
        ensures
            c == self.spec_capacity(),
    {
        match self {
            MailboxKind::Network => NETWORK_TASK_QUEUE_LEN,
            MailboxKind::Block => BLOCK_TASK_QUEUE_LEN,
            MailboxKind::Fragment => FRAGMENT_TASK_QUEUE_LEN,
            MailboxKind::Client => CLIENT_TASK_QUEUE_LEN,
            MailboxKind::Explorer => EXPLORER_TASK_QUEUE_LEN,
        }
    }

    /// Whether a node has this mailbox: the mailbox of the explorer task
    /// exists only where the chain index is kept.
    pub open spec fn exists_with(self, explorer: bool) -> bool {
        self != MailboxKind::Explorer || explorer
    }
}

impl TaskKind {
    /// The name under which the task is known to the supervisor.
    pub open spec fn spec_name(self) -> Seq<char> {
        match self {
            TaskKind::Explorer => "explorer"@,
            TaskKind::Block { .. } => "block"@,
            TaskKind::ClientQuery => "client-query"@,
            TaskKind::Network => "network"@,
            TaskKind::Leadership { .. } => "leadership"@,
            TaskKind::Fragment { .. } => "fragment"@,
            TaskKind::StuckNotifier { .. } => "stuck_notifier"@,
        }
    }

    /// The name under which the task is known to the supervisor.
    pub fn name(&self) -> (n: &'static str)
        ensures
            n@ == self.spec_name(),
    {
        match self {
            TaskKind::Explorer => "explorer",
            TaskKind::Block { .. } => "block",
            TaskKind::ClientQuery => "client-query",
            TaskKind::Network => "network",
            TaskKind::Leadership { .. } => "leadership",
            TaskKind::Fragment { .. } => "fragment",
            TaskKind::StuckNotifier { .. } => "stuck_notifier",
        }
    }

    /// How the task is wired in a node that keeps the chain index
    /// (`explorer`) or does not.
    pub open spec fn plan(self, explorer: bool) -> TaskPlan {
        match self {
            TaskKind::Explorer => TaskPlan {
                kind: self,
                fallible: false,
                consumes: Some(MailboxKind::Explorer),
                produces: Wiring::none(),
            },
            TaskKind::Block { .. } => TaskPlan {
                kind: self,
                fallible: false,
                consumes: Some(MailboxKind::Block),
                produces: Wiring { network: true, fragment: true, explorer, ..Wiring::none() },
            },
            TaskKind::ClientQuery => TaskPlan {
                kind: self,
                fallible: false,
                consumes: Some(MailboxKind::Client),
                produces: Wiring::none(),
            },
            TaskKind::Network => TaskPlan {
                kind: self,
                fallible: false,
                consumes: Some(MailboxKind::Network),
                produces: Wiring { client: true, fragment: true, block: true, ..Wiring::none() },
            },
            TaskKind::Leadership { .. } => TaskPlan {
                kind: self,
                fallible: true,
                consumes: None,
                produces: Wiring { fragment: true, block: true, ..Wiring::none() },
            },
            TaskKind::Fragment { .. } => TaskPlan {
                kind: self,
                fallible: true,
                consumes: Some(MailboxKind::Fragment),
                produces: Wiring { network: true, ..Wiring::none() },
            },
            TaskKind::StuckNotifier { .. } => TaskPlan {
                kind: self,
                fallible: false,
                consumes: None,
                produces: Wiring::none(),
            },
        }
    }

    /// How the task is wired in a node that keeps the chain index
    /// (`explorer`) or does not.
    pub fn wire(&self, explorer: bool) -> (p: TaskPlan)
        ensures
            p == self.plan(explorer),
    {
        let none = Wiring {
            network: false,
            block: false,
            fragment: false,
            client: false,
            explorer: false,
        };
        match self {
            TaskKind::Explorer => TaskPlan {
                kind: *self,
                fallible: false,
                consumes: Some(MailboxKind::Explorer),
                produces: none,
            },
            TaskKind::Block { .. } => TaskPlan {
                kind: *self,
                fallible: false,
                consumes: Some(MailboxKind::Block),
                produces: Wiring { network: true, fragment: true, explorer, ..none },
            },
            TaskKind::ClientQuery => TaskPlan {
                kind: *self,
                fallible: false,
                consumes: Some(MailboxKind::Client),
                produces: none,
            },
            TaskKind::Network => TaskPlan {
                kind: *self,
                fallible: false,
                consumes: Some(MailboxKind::Network),
                produces: Wiring { client: true, fragment: true, block: true, ..none },
            },
            TaskKind::Leadership { .. } => TaskPlan {
                kind: *self,
                fallible: true,
                consumes: None,
                produces: Wiring { fragment: true, block: true, ..none },
            },
            TaskKind::Fragment { .. } => TaskPlan {
                kind: *self,
                fallible: true,
                consumes: Some(MailboxKind::Fragment),
                produces: Wiring { network: true, ..none },
            },
            TaskKind::StuckNotifier { .. } => TaskPlan {
                kind: *self,
                fallible: false,
                consumes: None,
                produces: none,
            },
        }
    }
}

/// The mailboxes that the status interface is handed a producer for: every
/// mailbox that the node has.
pub open spec fn api_handles(explorer: bool) -> Wiring {
    Wiring { network: true, block: true, fragment: true, client: true, explorer }
}

/// The tasks of a node in the order in which they are started. `n_pools` is
/// the number of leader identities that were loaded.
pub open spec fn tasks_of(settings: Settings, n_pools: usize) -> Seq<TaskKind> {
    let explorer = if settings.explorer {
        seq![TaskKind::Explorer]
    } else {
        Seq::empty()
    };
    explorer + seq![
        TaskKind::Block { garbage_collection_interval: BLOCK_CACHE_TTL },
        TaskKind::ClientQuery,
        TaskKind::Network,
        TaskKind::Leadership { logs_capacity: settings.leadership.logs_capacity },
        TaskKind::Fragment {
            pool_max_entries: settings.mempool.pool_max_entries,
            log_max_entries: settings.mempool.log_max_entries,
            n_pools,
        },
        TaskKind::StuckNotifier {
            warning_interval: settings.no_blockchain_updates_warning_interval,
        },
    ]
}

/// The step that starts task number `index` of `tasks_of`, in a supervisor
/// that knew `known` tasks before.
pub open spec fn spawn_of(settings: Settings, n_pools: usize, known: nat, index: int) -> ServiceAction {
    ServiceAction::Spawn {
        task: tasks_of(settings, n_pools)[index].plan(settings.explorer),
        id: (known + index) as usize,
    }
}

/// The step that creates the mailbox `kind`.
pub open spec fn open_of(kind: MailboxKind) -> ServiceAction {
    ServiceAction::OpenMailbox { kind, capacity: kind.spec_capacity() }
}

/// Everything that is done to bring the tasks up, in order: the mailboxes
/// are created and the tasks started, then the handles into the tasks are
/// attached to the status record and the node is running, and at last the
/// first task to end is waited for. The phase is published, and the handles
/// are attached, only where the node has a status record (`settings.rest`).
pub open spec fn service_actions(settings: Settings, n_pools: usize, known: nat) -> Seq<ServiceAction> {
    let starting = if settings.rest {
        seq![ServiceAction::PublishState { state: LifecycleState::StartingWorkers }]
    } else {
        Seq::empty()
    };
    let mailboxes = seq![
        open_of(MailboxKind::Network),
        open_of(MailboxKind::Block),
        open_of(MailboxKind::Fragment),
        open_of(MailboxKind::Client),
    ];
    let explorer = if settings.explorer {
        seq![open_of(MailboxKind::Explorer), spawn_of(settings, n_pools, known, 0)]
    } else {
        Seq::empty()
    };
    let next: int = if settings.explorer {
        1
    } else {
        0
    };
    let workers = seq![
        spawn_of(settings, n_pools, known, next),
        spawn_of(settings, n_pools, known, next + 1),
        spawn_of(settings, n_pools, known, next + 2),
        spawn_of(settings, n_pools, known, next + 3),
        spawn_of(settings, n_pools, known, next + 4),
        spawn_of(settings, n_pools, known, next + 5),
    ];
    let running = if settings.rest {
        seq![
            ServiceAction::AttachFull { handles: api_handles(settings.explorer) },
            ServiceAction::PublishState { state: LifecycleState::Running },
        ]
    } else {
        Seq::empty()
    };
    let watch = seq![ServiceAction::JoinFirst];
    starting + mailboxes + explorer + workers + running + watch
}

/// The supervisor's records of `tasks`.
pub open spec fn records_of(tasks: Seq<TaskKind>, explorer: bool) -> Seq<TaskView> {
    tasks.map_values(
        |kind: TaskKind| TaskView { name: kind.spec_name(), fallible: kind.plan(explorer).fallible },
    )
}

fn spawn_task(
    services: &mut Services,
    actions: &mut Vec<ServiceAction>,
    kind: TaskKind,
    explorer: bool,
)
    ensures
        final(services)@ == old(services)@.spawned(kind.spec_name(), kind.plan(explorer).fallible),
        final(actions)@ == old(actions)@.push(
            ServiceAction::Spawn {
                task: kind.plan(explorer),
                id: old(services)@.tasks.len() as usize,
            },
        ),
        old(services)@.wf() ==> final(services)@.wf(),
{
    let task = kind.wire(explorer);
    let id = if task.fallible {
        services.spawn_fallible(kind.name())
    } else {
        services.spawn(kind.name())
    };
    actions.push(ServiceAction::Spawn { task, id });
}

fn open_mailbox(actions: &mut Vec<ServiceAction>, kind: MailboxKind)
    ensures
        final(actions)@ == old(actions)@.push(open_of(kind)),
{
    actions.push(ServiceAction::OpenMailbox { kind, capacity: kind.capacity() });
}

/// Brings the tasks of a bootstrapped node up: registers each with the
/// supervisor and returns, in order, what is to be done outside: the
/// mailboxes to create, the tasks to start with their wiring, the writes to
/// the status record, and at last the wait for the first task to end.
pub fn start_services(settings: &Settings, n_pools: usize, services: &mut Services) -> (actions: Vec<
    ServiceAction,
>)
    ensures
        actions@ == service_actions(*settings, n_pools, old(services)@.tasks.len()),
        final(services)@.tasks == old(services)@.tasks + records_of(
            tasks_of(*settings, n_pools),
            settings.explorer,
        ),
        final(services)@.completions == old(services)@.completions,
        old(services)@.wf() ==> final(services)@.wf(),
{
    let explorer = settings.explorer;
    let mut actions: Vec<ServiceAction> = Vec::new();
    if settings.rest {
        actions.push(ServiceAction::PublishState { state: LifecycleState::StartingWorkers });
    }
    open_mailbox(&mut actions, MailboxKind::Network);
    open_mailbox(&mut actions, MailboxKind::Block);
    open_mailbox(&mut actions, MailboxKind::Fragment);
    open_mailbox(&mut actions, MailboxKind::Client);
    if explorer {
        open_mailbox(&mut actions, MailboxKind::Explorer);
        spawn_task(services, &mut actions, TaskKind::Explorer, explorer);
    }
    spawn_task(
        services,
        &mut actions,
        TaskKind::Block { garbage_collection_interval: BLOCK_CACHE_TTL },
        explorer,
    );
    spawn_task(services, &mut actions, TaskKind::ClientQuery, explorer);
    spawn_task(services, &mut actions, TaskKind::Network, explorer);
    spawn_task(
        services,
        &mut actions,
        TaskKind::Leadership { logs_capacity: settings.leadership.logs_capacity },
        explorer,
    );
    spawn_task(
        services,
        &mut actions,
        TaskKind::Fragment {
            pool_max_entries: settings.mempool.pool_max_entries,
            log_max_entries: settings.mempool.log_max_entries,
            n_pools,
        },
        explorer,
    );
    spawn_task(
        services,
        &mut actions,
        TaskKind::StuckNotifier {
            warning_interval: settings.no_blockchain_updates_warning_interval,
        },
        explorer,
    );
    if settings.rest {
        actions.push(
            ServiceAction::AttachFull {
                handles: Wiring {
                    network: true,
                    block: true,
                    fragment: true,
                    client: true,
                    explorer,
                },
            },
        );
        actions.push(ServiceAction::PublishState { state: LifecycleState::Running });
    }
    actions.push(ServiceAction::JoinFirst);
    actions
}

/// What the node ends with once the first task has ended: a task that ended
/// normally ends the node normally, and the error of a task ends the node
/// with an error that wraps it, under `message`, with all its causes.
pub fn finish(joined: Result<(), Error>, message: &str) -> (r: Result<(), Error>)
    ensures
        match joined {
            Ok(_) => r is Ok,
            Err(e) => r is Err && r->Err_0@ == e@.wrapped(message@),
        },
{
    match joined {
        Ok(()) => Ok(()),
        Err(e) => Err(Error::service_terminated(message, e)),
    }
}

} // verus!
