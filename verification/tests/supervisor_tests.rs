use walletnode::errors::NodeError;
use walletnode::supervisor::{NodeStatus, NodeSupervisor, StartParams};

fn params() -> StartParams {
    StartParams {
        network: "regtest".to_string(),
        datapath: Some("data/alice".to_string()),
        daemon_listening_port: "3001".to_string(),
        ldk_peer_listening_port: "9735".to_string(),
    }
}

#[test]
fn test_second_start_fails_already_running() {
    let mut sup = NodeSupervisor::new(true);
    sup.start(params(), "alice".to_string()).unwrap();
    sup.confirm_spawn(4242);

    // Same account.
    assert_eq!(sup.start(params(), "alice".to_string()).unwrap_err(), NodeError::AlreadyRunning);
    // Different account.
    assert_eq!(sup.start(params(), "bob".to_string()).unwrap_err(), NodeError::AlreadyRunning);
    // The first run's owner is untouched.
    assert_eq!(sup.get_current_account(), Some("alice".to_string()));
    assert_eq!(sup.current_status(), NodeStatus::Running);
    assert_eq!(sup.current_process_id(), Some(4242));
}

#[test]
fn test_stop_when_stopped_fails_not_running() {
    let mut sup = NodeSupervisor::new(true);
    assert_eq!(sup.stop().unwrap_err(), NodeError::NotRunning);
    // State unchanged.
    assert_eq!(sup.current_status(), NodeStatus::Stopped);
    assert_eq!(sup.get_current_account(), None);
    assert_eq!(sup.current_process_id(), None);
    assert!(!sup.is_running());
}

#[test]
fn test_running_for_account_lifecycle() {
    let mut sup = NodeSupervisor::new(true);
    assert!(!sup.is_running_for_account("alice"));

    sup.start(params(), "alice".to_string()).unwrap();
    sup.confirm_spawn(7);
    assert!(sup.is_running_for_account("alice"));
    assert!(!sup.is_running_for_account("bob"));
    assert!(sup.is_node_running(Some("alice")));
    assert!(!sup.is_node_running(Some("bob")));
    assert!(sup.is_node_running(None));

    sup.stop().unwrap();
    // Still running for alice until the process actually terminates.
    assert!(sup.is_running_for_account("alice"));
    sup.process_exited();
    assert!(!sup.is_running_for_account("alice"));
    assert!(!sup.is_node_running(None));
    assert_eq!(sup.current_status(), NodeStatus::Stopped);
    assert_eq!(sup.get_current_account(), None);
}

#[test]
fn test_unsupported_platform_refuses_start() {
    let mut sup = NodeSupervisor::new(false);
    assert!(!sup.is_local_node_supported());
    assert_eq!(
        sup.start(params(), "alice".to_string()).unwrap_err(),
        NodeError::PlatformUnsupported
    );
    assert_eq!(sup.current_status(), NodeStatus::Stopped);
}

#[test]
fn test_spawn_failure_returns_to_stopped() {
    let mut sup = NodeSupervisor::new(true);
    sup.start(params(), "alice".to_string()).unwrap();
    assert_eq!(sup.current_status(), NodeStatus::Starting);
    assert!(sup.is_running());
    let e = sup.spawn_failed();
    assert_eq!(e, NodeError::SpawnFailed);
    assert_eq!(sup.current_status(), NodeStatus::Stopped);
    assert_eq!(sup.get_current_account(), None);
    assert!(!sup.is_running());
}

#[test]
fn test_unexpected_exit_is_a_crash_and_allows_restart() {
    let mut sup = NodeSupervisor::new(true);
    sup.start(params(), "alice".to_string()).unwrap();
    sup.confirm_spawn(9);
    sup.process_exited();
    assert_eq!(sup.current_status(), NodeStatus::Crashed);
    assert!(!sup.is_running());
    assert_eq!(sup.get_current_account(), None);
    // A crash requires an explicit new start, which is accepted.
    sup.start(params(), "alice".to_string()).unwrap();
    assert_eq!(sup.current_status(), NodeStatus::Starting);
}

#[test]
fn test_force_kill_is_idempotent() {
    let mut sup = NodeSupervisor::new(true);
    sup.force_kill();
    assert_eq!(sup.current_status(), NodeStatus::Stopped);

    sup.start(params(), "alice".to_string()).unwrap();
    sup.confirm_spawn(11);
    sup.force_kill();
    assert_eq!(sup.current_status(), NodeStatus::Stopped);
    assert_eq!(sup.get_current_account(), None);
    assert_eq!(sup.current_process_id(), None);
    sup.force_kill();
    assert_eq!(sup.current_status(), NodeStatus::Stopped);
}

#[test]
fn test_stop_records_shutting_down() {
    let mut sup = NodeSupervisor::new(true);
    sup.start(params(), "alice".to_string()).unwrap();
    sup.confirm_spawn(5);
    sup.stop().unwrap();
    assert_eq!(sup.current_status(), NodeStatus::ShuttingDown);
    // A second graceful request is accepted (the signal is re-issued).
    sup.shutdown().unwrap();
    assert_eq!(sup.current_status(), NodeStatus::ShuttingDown);
    assert!(sup.is_running());
}
