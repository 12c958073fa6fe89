use jormungandr::error::{Error, ErrorKind};
use jormungandr::node::{bootstrap, BootstrapData, BootstrapInput, InitializedNode};
use jormungandr::services::Services;
use jormungandr::settings::{LeadershipSettings, MempoolSettings, NetworkSettings, Settings};
use tokio_util::sync::CancellationToken;

fn settings(explorer: bool) -> Settings {
    Settings {
        network: NetworkSettings {
            trusted_peers: 1,
            skip_bootstrap: false,
            max_bootstrap_attempts: None,
        },
        mempool: MempoolSettings { pool_max_entries: 1, log_max_entries: 2 },
        leadership: LeadershipSettings { logs_capacity: 3 },
        explorer,
        rest: true,
        secrets: 0,
        rewards_report_all: false,
        no_blockchain_updates_warning_interval: 10,
    }
}

fn initialized(explorer: bool) -> InitializedNode<&'static str, u8, String, u16> {
    let mut services = Services::new();
    services.spawn("sigterm_watcher");
    services.spawn("sigint_watcher");
    InitializedNode {
        settings: settings(explorer),
        block0: "genesis",
        storage: 7,
        rest_context: Some("status".to_string()),
        services,
        cancellation_token: CancellationToken::new(),
        _logger_guards: vec![11, 12],
    }
}

type Data = BootstrapData<String, u64, [u8; 4], String, String>;

#[test]
fn bootstrapped_node_is_assembled() {
    let node = initialized(true);
    let result = bootstrap(node, |input: BootstrapInput<&'static str, u8, String>| {
        assert_eq!(input.block0, "genesis");
        assert_eq!(input.storage, 7);
        assert_eq!(input.settings, settings(true));
        let data: Data = BootstrapData {
            blockchain: format!("chain of {}", input.block0),
            blockchain_tip: 42,
            block0_hash: [1, 2, 3, 4],
            explorer_db: Some("index".to_string()),
            rest_context: input.rest_context,
            settings: input.settings,
        };
        Ok(data)
    });
    let node = result.ok().unwrap();
    assert_eq!(node.settings, settings(true));
    assert_eq!(node.blockchain, "chain of genesis");
    assert_eq!(node.blockchain_tip, 42);
    assert_eq!(node.block0_hash, [1, 2, 3, 4]);
    assert_eq!(node.explorer_db.as_deref(), Some("index"));
    assert_eq!(node.rest_context.as_deref(), Some("status"));
    assert_eq!(node._logger_guards, vec![11, 12]);
    assert_eq!(node.services.task_count(), 2);
    assert_eq!(node.services.task(1).unwrap().name, "sigint_watcher");
}

#[test]
fn bootstrap_error_is_returned() {
    let node = initialized(false);
    let result = bootstrap(
        node,
        |_input: BootstrapInput<&'static str, u8, String>| -> Result<Data, Error> {
            Err(Error::new(ErrorKind::Interrupted, "interrupted"))
        },
    );
    let error = result.err().unwrap();
    assert_eq!(error.kind, ErrorKind::Interrupted);
    assert_eq!(error.message, "interrupted");
}

#[test]
fn bootstrap_is_given_the_stop_signal_of_the_node() {
    let node = initialized(false);
    let token = node.cancellation_token.clone();
    token.cancel();
    let result = bootstrap(
        node,
        |input: BootstrapInput<&'static str, u8, String>| -> Result<Data, Error> {
            if input.cancellation_token.is_cancelled() {
                Err(Error::new(ErrorKind::Interrupted, "stop"))
            } else {
                Err(Error::new(ErrorKind::Blockchain, "not reached"))
            }
        },
    );
    assert_eq!(result.err().unwrap().kind, ErrorKind::Interrupted);
}
