use jormungandr::error::{Error, ErrorKind};
use jormungandr::services::{Services, TaskOutcome};

#[test]
fn spawned_tasks_are_numbered_in_order() {
    let mut services = Services::new();
    assert_eq!(services.task_count(), 0);
    assert_eq!(services.spawn("block"), 0);
    assert_eq!(services.spawn_fallible("leadership"), 1);
    assert_eq!(services.spawn("network"), 2);
    assert_eq!(services.task_count(), 3);
    let block = services.task(0).unwrap();
    assert_eq!(block.name, "block");
    assert!(!block.fallible);
    let leadership = services.task(1).unwrap();
    assert_eq!(leadership.name, "leadership");
    assert!(leadership.fallible);
    assert!(services.task(3).is_none());
}

#[test]
fn join_first_waits_while_all_tasks_run() {
    let mut services = Services::new();
    assert!(services.join_first().is_none());
    services.spawn("block");
    services.spawn("network");
    assert!(services.join_first().is_none());
    assert_eq!(services.outcome(0), Some(TaskOutcome::Running));
    assert_eq!(services.outcome(1), Some(TaskOutcome::Running));
    assert_eq!(services.outcome(2), None);
}

#[test]
fn join_first_returns_the_first_error_while_others_run() {
    let mut services = Services::new();
    services.spawn("block");
    let failing = services.spawn_fallible("fragment");
    services.spawn("network");
    services.spawn_fallible("leadership");
    let taken = services.complete(failing, Err(Error::new(ErrorKind::NodeSecrets, "boom")));
    assert!(taken);
    {
        let first = services.join_first().unwrap();
        assert_eq!(first.task, failing);
        let error = first.result.as_ref().unwrap_err();
        assert_eq!(error.message, "boom");
        assert_eq!(error.kind, ErrorKind::NodeSecrets);
    }
    assert_eq!(services.outcome(failing), Some(TaskOutcome::Failed));
    assert_eq!(services.outcome(0), Some(TaskOutcome::Running));
    assert_eq!(services.outcome(2), Some(TaskOutcome::Running));
    assert_eq!(services.outcome(3), Some(TaskOutcome::Running));
}

#[test]
fn later_ends_do_not_change_the_first() {
    let mut services = Services::new();
    let a = services.spawn("client-query");
    let b = services.spawn_fallible("fragment");
    assert!(services.complete(a, Ok(())));
    assert!(services.complete(b, Err(Error::new(ErrorKind::Storage, "late"))));
    let first = services.join_first().unwrap();
    assert_eq!(first.task, a);
    assert!(first.result.is_ok());
    assert_eq!(services.outcome(a), Some(TaskOutcome::Finished));
    assert_eq!(services.outcome(b), Some(TaskOutcome::Failed));
}

#[test]
fn ends_that_cannot_be_are_not_taken() {
    let mut services = Services::new();
    let plain = services.spawn("block");
    // no such task
    assert!(!services.complete(7, Ok(())));
    // a task that cannot fail does not end with an error
    assert!(!services.complete(plain, Err(Error::new(ErrorKind::Storage, "no"))));
    assert!(services.join_first().is_none());
    assert!(services.complete(plain, Ok(())));
    // a task ends once
    assert!(!services.complete(plain, Ok(())));
    assert_eq!(services.join_first().unwrap().task, plain);
}

#[test]
fn run_to_completion_hands_the_result_back() {
    let mut services = Services::new();
    services.spawn("rest");
    let answer = services.run_to_completion("prepare_block_0", |name: &str| {
        format!("{} done", name)
    });
    assert_eq!(answer, "prepare_block_0 done");
    let failed: Result<u8, String> =
        services.run_to_completion("bootstrap", |_name: &str| Err("no".to_string()));
    assert_eq!(failed, Err("no".to_string()));
    // a computation is no task
    assert_eq!(services.task_count(), 1);
    assert!(services.join_first().is_none());
}
