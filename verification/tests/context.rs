use jormungandr::context::Context;
use jormungandr::lifecycle::LifecycleState;
use tokio_util::sync::CancellationToken;

type TestContext = Context<String, u32, u64, Vec<&'static str>>;

const ORDER: [LifecycleState; 5] = [
    LifecycleState::PreparingStorage,
    LifecycleState::PreparingBlock0,
    LifecycleState::Bootstrapping,
    LifecycleState::StartingWorkers,
    LifecycleState::Running,
];

#[test]
fn new_record_has_nothing_yet() {
    let context = TestContext::new();
    assert_eq!(context.node_state(), LifecycleState::PreparingStorage);
    assert!(context.diagnostic().is_none());
    assert!(context.blockchain().is_none());
    assert!(context.blockchain_tip().is_none());
    assert!(!context.has_bootstrap_stopper());
    assert!(context.try_full().is_none());
}

#[test]
fn phase_moves_forward_through_the_order() {
    let mut context = TestContext::new();
    for state in ORDER {
        assert!(context.set_node_state(state));
        assert_eq!(context.node_state(), state);
    }
}

#[test]
fn phase_never_goes_back() {
    for (i, from) in ORDER.iter().enumerate() {
        for (j, to) in ORDER.iter().enumerate() {
            let mut context = TestContext::new();
            assert!(context.set_node_state(*from));
            let taken = context.set_node_state(*to);
            assert_eq!(taken, j >= i);
            let seen = context.node_state();
            assert_eq!(seen, if j >= i { *to } else { *from });
            assert!(seen >= *from);
        }
    }
}

#[test]
fn diagnostic_and_bundle_are_written_once() {
    let mut context = TestContext::new();
    assert_eq!(context.set_diagnostic_data("first".to_string()), Ok(()));
    assert_eq!(context.set_diagnostic_data("second".to_string()), Err("second".to_string()));
    assert_eq!(context.diagnostic().map(|s| s.as_str()), Some("first"));
    assert_eq!(context.set_full(vec!["network"]), Ok(()));
    assert_eq!(context.set_full(vec!["fragment"]), Err(vec!["fragment"]));
    assert_eq!(context.try_full(), Some(&vec!["network"]));
}

#[test]
fn chain_handles_are_set_and_cleared() {
    let mut context = TestContext::new();
    context.set_blockchain(7);
    context.set_blockchain_tip(9);
    assert_eq!(context.blockchain(), Some(&7));
    assert_eq!(context.blockchain_tip(), Some(&9));
    context.set_blockchain(8);
    assert_eq!(context.blockchain(), Some(&8));
    context.clear_blockchain();
    assert_eq!(context.blockchain(), None);
    assert_eq!(context.blockchain_tip(), Some(&9));
    context.clear_blockchain_tip();
    assert_eq!(context.blockchain_tip(), None);
    assert_eq!(context.node_state(), LifecycleState::PreparingStorage);
}

#[test]
fn stopping_the_bootstrap_raises_its_signal_once() {
    let mut context = TestContext::new();
    assert!(!context.stop_bootstrap());
    assert!(context.set_node_state(LifecycleState::Bootstrapping));
    let token = CancellationToken::new();
    assert!(context.set_bootstrap_stopper(token.clone()).is_ok());
    assert!(context.has_bootstrap_stopper());
    assert!(!token.is_cancelled());
    assert!(context.stop_bootstrap());
    assert!(token.is_cancelled());
    assert!(!context.has_bootstrap_stopper());
    assert!(!context.stop_bootstrap());
}

#[test]
fn removing_the_stopper_does_not_raise_it() {
    let mut context = TestContext::new();
    assert!(context.set_node_state(LifecycleState::Bootstrapping));
    let token = CancellationToken::new();
    assert!(context.set_bootstrap_stopper(token.clone()).is_ok());
    context.remove_bootstrap_stopper();
    assert!(!context.has_bootstrap_stopper());
    assert!(!token.is_cancelled());
}

#[test]
fn stopper_is_attached_only_while_bootstrapping() {
    for state in ORDER {
        let mut context = TestContext::new();
        assert!(context.set_node_state(state));
        let attached = context.set_bootstrap_stopper(CancellationToken::new());
        assert_eq!(attached.is_ok(), state == LifecycleState::Bootstrapping);
        assert_eq!(context.has_bootstrap_stopper(), state == LifecycleState::Bootstrapping);
    }
}

#[test]
fn leaving_the_bootstrap_lets_go_of_the_stopper() {
    let mut context = TestContext::new();
    assert!(context.set_node_state(LifecycleState::Bootstrapping));
    let token = CancellationToken::new();
    assert!(context.set_bootstrap_stopper(token.clone()).is_ok());
    // a phase that is refused changes nothing
    assert!(!context.set_node_state(LifecycleState::PreparingBlock0));
    assert!(context.has_bootstrap_stopper());
    // the same phase again keeps the stopper
    assert!(context.set_node_state(LifecycleState::Bootstrapping));
    assert!(context.has_bootstrap_stopper());
    assert!(context.set_node_state(LifecycleState::StartingWorkers));
    assert!(!context.has_bootstrap_stopper());
    assert!(!context.stop_bootstrap());
    assert!(!token.is_cancelled());
}
