use jormungandr::error::{Error, ErrorKind};
use jormungandr::lifecycle::LifecycleState;
use jormungandr::services::Services;
use jormungandr::settings::{LeadershipSettings, MempoolSettings, NetworkSettings, Settings};
use jormungandr::topology::{
    finish, start_services, MailboxKind, ServiceAction, TaskKind, TaskPlan, Wiring,
};

fn settings(explorer: bool, rest: bool) -> Settings {
    Settings {
        network: NetworkSettings {
            trusted_peers: 0,
            skip_bootstrap: true,
            max_bootstrap_attempts: None,
        },
        mempool: MempoolSettings { pool_max_entries: 10_000, log_max_entries: 100_000 },
        leadership: LeadershipSettings { logs_capacity: 1024 },
        explorer,
        rest,
        secrets: 1,
        rewards_report_all: false,
        no_blockchain_updates_warning_interval: 1800,
    }
}

const NONE: Wiring =
    Wiring { network: false, block: false, fragment: false, client: false, explorer: false };

fn spawned(actions: &[ServiceAction]) -> Vec<(TaskPlan, usize)> {
    actions
        .iter()
        .filter_map(|a| match a {
            ServiceAction::Spawn { task, id } => Some((*task, *id)),
            _ => None,
        })
        .collect()
}

#[test]
fn mailbox_capacities() {
    assert_eq!(MailboxKind::Network.capacity(), 32);
    assert_eq!(MailboxKind::Block.capacity(), 32);
    assert_eq!(MailboxKind::Fragment.capacity(), 1024);
    assert_eq!(MailboxKind::Client.capacity(), 32);
    assert_eq!(MailboxKind::Explorer.capacity(), 32);
}

#[test]
fn task_names() {
    assert_eq!(TaskKind::Explorer.name(), "explorer");
    assert_eq!(TaskKind::Block { garbage_collection_interval: 120 }.name(), "block");
    assert_eq!(TaskKind::ClientQuery.name(), "client-query");
    assert_eq!(TaskKind::Network.name(), "network");
    assert_eq!(TaskKind::Leadership { logs_capacity: 1 }.name(), "leadership");
    assert_eq!(
        TaskKind::Fragment { pool_max_entries: 1, log_max_entries: 2, n_pools: 3 }.name(),
        "fragment"
    );
    assert_eq!(TaskKind::StuckNotifier { warning_interval: 5 }.name(), "stuck_notifier");
}

#[test]
fn wiring_contains() {
    let w = Wiring { network: true, fragment: true, ..NONE };
    assert!(w.contains(MailboxKind::Network));
    assert!(w.contains(MailboxKind::Fragment));
    assert!(!w.contains(MailboxKind::Block));
    assert!(!w.contains(MailboxKind::Client));
    assert!(!w.contains(MailboxKind::Explorer));
}

#[test]
fn full_node_with_explorer_and_rest() {
    let mut services = Services::new();
    services.spawn("sigterm_watcher");
    services.spawn("sigint_watcher");
    services.spawn("rest");
    let actions = start_services(&settings(true, true), 1, &mut services);
    let block = TaskKind::Block { garbage_collection_interval: 120 };
    let leadership = TaskKind::Leadership { logs_capacity: 1024 };
    let fragment =
        TaskKind::Fragment { pool_max_entries: 10_000, log_max_entries: 100_000, n_pools: 1 };
    let stuck = TaskKind::StuckNotifier { warning_interval: 1800 };
    let expected = vec![
        ServiceAction::PublishState { state: LifecycleState::StartingWorkers },
        ServiceAction::OpenMailbox { kind: MailboxKind::Network, capacity: 32 },
        ServiceAction::OpenMailbox { kind: MailboxKind::Block, capacity: 32 },
        ServiceAction::OpenMailbox { kind: MailboxKind::Fragment, capacity: 1024 },
        ServiceAction::OpenMailbox { kind: MailboxKind::Client, capacity: 32 },
        ServiceAction::OpenMailbox { kind: MailboxKind::Explorer, capacity: 32 },
        ServiceAction::Spawn {
            task: TaskPlan {
                kind: TaskKind::Explorer,
                fallible: false,
                consumes: Some(MailboxKind::Explorer),
                produces: NONE,
            },
            id: 3,
        },
        ServiceAction::Spawn {
            task: TaskPlan {
                kind: block,
                fallible: false,
                consumes: Some(MailboxKind::Block),
                produces: Wiring { network: true, fragment: true, explorer: true, ..NONE },
            },
            id: 4,
        },
        ServiceAction::Spawn {
            task: TaskPlan {
                kind: TaskKind::ClientQuery,
                fallible: false,
                consumes: Some(MailboxKind::Client),
                produces: NONE,
            },
            id: 5,
        },
        ServiceAction::Spawn {
            task: TaskPlan {
                kind: TaskKind::Network,
                fallible: false,
                consumes: Some(MailboxKind::Network),
                produces: Wiring { client: true, fragment: true, block: true, ..NONE },
            },
            id: 6,
        },
        ServiceAction::Spawn {
            task: TaskPlan {
                kind: leadership,
                fallible: true,
                consumes: None,
                produces: Wiring { fragment: true, block: true, ..NONE },
            },
            id: 7,
        },
        ServiceAction::Spawn {
            task: TaskPlan {
                kind: fragment,
                fallible: true,
                consumes: Some(MailboxKind::Fragment),
                produces: Wiring { network: true, ..NONE },
            },
            id: 8,
        },
        ServiceAction::Spawn {
            task: TaskPlan { kind: stuck, fallible: false, consumes: None, produces: NONE },
            id: 9,
        },
        ServiceAction::AttachFull {
            handles: Wiring {
                network: true,
                block: true,
                fragment: true,
                client: true,
                explorer: true,
            },
        },
        ServiceAction::PublishState { state: LifecycleState::Running },
        ServiceAction::JoinFirst,
    ];
    assert_eq!(actions, expected);
    assert_eq!(services.task_count(), 10);
    let names: Vec<String> =
        (0..10).map(|i| services.task(i).unwrap().name.clone()).collect();
    assert_eq!(
        names,
        vec![
            "sigterm_watcher",
            "sigint_watcher",
            "rest",
            "explorer",
            "block",
            "client-query",
            "network",
            "leadership",
            "fragment",
            "stuck_notifier"
        ]
    );
    assert!(services.task(7).unwrap().fallible);
    assert!(services.task(8).unwrap().fallible);
    assert!(!services.task(4).unwrap().fallible);
    assert!(services.join_first().is_none());
}

#[test]
fn node_without_explorer_and_rest() {
    let mut services = Services::new();
    let actions = start_services(&settings(false, false), 0, &mut services);
    assert!(!actions.iter().any(|a| matches!(a, ServiceAction::PublishState { .. })));
    assert!(!actions.iter().any(|a| matches!(a, ServiceAction::AttachFull { .. })));
    assert!(!actions
        .iter()
        .any(|a| matches!(a, ServiceAction::OpenMailbox { kind: MailboxKind::Explorer, .. })));
    let tasks = spawned(&actions);
    assert_eq!(tasks.len(), 6);
    for (i, (_, id)) in tasks.iter().enumerate() {
        assert_eq!(*id, i);
    }
    // the block task has nowhere to send chain index updates
    assert!(!tasks[0].0.produces.explorer);
    assert_eq!(
        tasks[4].0.kind,
        TaskKind::Fragment { pool_max_entries: 10_000, log_max_entries: 100_000, n_pools: 0 }
    );
    assert_eq!(actions.last(), Some(&ServiceAction::JoinFirst));
    assert_eq!(services.task_count(), 6);
}

#[test]
fn every_mailbox_has_one_reader_and_is_opened_first() {
    for explorer in [false, true] {
        let mut services = Services::new();
        let actions = start_services(&settings(explorer, true), 2, &mut services);
        let kinds = [
            MailboxKind::Network,
            MailboxKind::Block,
            MailboxKind::Fragment,
            MailboxKind::Client,
            MailboxKind::Explorer,
        ];
        for kind in kinds {
            let opened = actions
                .iter()
                .position(|a| matches!(a, ServiceAction::OpenMailbox { kind: k, .. } if *k == kind));
            let readers = spawned(&actions)
                .iter()
                .filter(|(task, _)| task.consumes == Some(kind))
                .count();
            let exists = kind != MailboxKind::Explorer || explorer;
            assert_eq!(opened.is_some(), exists);
            assert_eq!(readers, if exists { 1 } else { 0 });
            for (at, action) in actions.iter().enumerate() {
                if let ServiceAction::Spawn { task, .. } = action {
                    if task.consumes == Some(kind) || task.produces.contains(kind) {
                        assert!(opened.unwrap() < at);
                    }
                }
            }
        }
    }
}

#[test]
fn clean_finish_is_ok_and_error_is_wrapped() {
    assert!(finish(Ok(()), "Service has terminated with an error").is_ok());
    let source = Error::new(ErrorKind::Storage, "disk full").caused_by("write failed");
    let wrapped = finish(Err(source), "Service has terminated with an error").unwrap_err();
    assert_eq!(wrapped.kind, ErrorKind::ServiceTerminated);
    assert_ne!(wrapped.code(), 0);
    assert_eq!(
        wrapped.report_lines(),
        vec![
            "Service has terminated with an error".to_string(),
            " |-> disk full".to_string(),
            " |-> write failed".to_string(),
        ]
    );
}

#[test]
fn status_interface_is_handed_every_mailbox_after_all_tasks() {
    for explorer in [false, true] {
        let mut services = Services::new();
        let actions = start_services(&settings(explorer, true), 1, &mut services);
        let attached = actions
            .iter()
            .position(|a| matches!(a, ServiceAction::AttachFull { .. }))
            .unwrap();
        let last_spawn = actions
            .iter()
            .rposition(|a| matches!(a, ServiceAction::Spawn { .. }))
            .unwrap();
        assert!(last_spawn < attached);
        assert_eq!(
            actions[attached],
            ServiceAction::AttachFull {
                handles: Wiring { network: true, block: true, fragment: true, client: true, explorer },
            }
        );
        assert_eq!(
            actions[attached + 1],
            ServiceAction::PublishState { state: LifecycleState::Running }
        );
        assert_eq!(attached + 3, actions.len());
    }
}
