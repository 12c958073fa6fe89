use jormungandr::services::Services;
use jormungandr::signals::{
    create_supervisor, init_os_signal_watchers, recv_signal_and_cancel, watch, SignalKind,
    WatcherPlan,
};
use tokio_util::sync::CancellationToken;

#[test]
fn unix_watches_terminate_and_interrupt() {
    let mut services = Services::new();
    services.spawn("other");
    let token = CancellationToken::new();
    let watchers = init_os_signal_watchers(&mut services, token.clone(), true);
    assert_eq!(watchers.len(), 2);
    assert_eq!(watchers[0].signal, SignalKind::Terminate);
    assert_eq!(watchers[0].task, 1);
    assert_eq!(watchers[1].signal, SignalKind::Interrupt);
    assert_eq!(watchers[1].task, 2);
    assert_eq!(services.task_count(), 3);
    assert_eq!(services.task(1).unwrap().name, "sigterm_watcher");
    assert_eq!(services.task(2).unwrap().name, "sigint_watcher");
    assert!(!services.task(1).unwrap().fallible);
    // every watcher holds the node's own stop signal
    assert!(!token.is_cancelled());
    watchers[1].token.cancel();
    assert!(token.is_cancelled());
    assert!(watchers[0].token.is_cancelled());
}

#[test]
fn elsewhere_ctrl_c_is_watched() {
    let mut services = Services::new();
    let token = CancellationToken::new();
    let watchers = init_os_signal_watchers(&mut services, token.clone(), false);
    assert_eq!(watchers.len(), 1);
    assert_eq!(watchers[0].signal, SignalKind::CtrlC);
    assert_eq!(watchers[0].task, 0);
    assert_eq!(services.task(0).unwrap().name, "ctrl_c_watcher");
    watchers[0].token.cancel();
    assert!(token.is_cancelled());
}

#[test]
fn watcher_task_names() {
    assert_eq!(SignalKind::Terminate.task_name(), "sigterm_watcher");
    assert_eq!(SignalKind::Interrupt.task_name(), "sigint_watcher");
    assert_eq!(SignalKind::CtrlC.task_name(), "ctrl_c_watcher");
}

#[test]
fn failed_install_leaves_the_watcher_inert() {
    assert_eq!(watch(true), WatcherPlan::CancelOnSignal);
    assert_eq!(watch(false), WatcherPlan::Inert);
}

#[test]
fn received_signal_cancels_once() {
    let token = CancellationToken::new();
    assert!(!recv_signal_and_cancel(None, &token));
    assert!(!token.is_cancelled());
    assert!(recv_signal_and_cancel(Some(()), &token));
    assert!(token.is_cancelled());
    // a second signal has no further effect
    assert!(recv_signal_and_cancel(Some(()), &token));
    assert!(token.is_cancelled());
}

#[test]
fn supervisor_is_created_with_its_watchers() {
    let (services, token, watchers) = create_supervisor(true);
    assert_eq!(services.task_count(), 2);
    assert_eq!(watchers.len(), 2);
    assert_eq!(watchers[0].task, 0);
    assert_eq!(watchers[1].task, 1);
    assert!(services.join_first().is_none());
    assert!(!token.is_cancelled());
    watchers[0].token.cancel();
    assert!(token.is_cancelled());
    let (services, _token, watchers) = create_supervisor(false);
    assert_eq!(services.task_count(), 1);
    assert_eq!(watchers.len(), 1);
}
