use walletnode::accounts::{find_account_by_name, mnemonic_bundle, Account};
use walletnode::errors::NodeError;
use walletnode::strutil::str_eq;

fn account(id: i32, name: &str) -> Account {
    Account {
        id,
        name: name.to_string(),
        network: "regtest".to_string(),
        datapath: None,
        rpc_connection_url: "http://localhost:18443".to_string(),
        node_url: "http://localhost:3001".to_string(),
        indexer_url: "tcp://localhost:50001".to_string(),
        proxy_endpoint: "rpc://localhost:3000/json-rpc".to_string(),
        default_lsp_url: "http://localhost:8000".to_string(),
        maker_urls: "".to_string(),
        default_maker_url: "".to_string(),
        daemon_listening_port: "3001".to_string(),
        ldk_peer_listening_port: "9735".to_string(),
        bearer_token: None,
        encrypted_mnemonic: None,
        mnemonic_salt: None,
        mnemonic_nonce: None,
    }
}

#[test]
fn test_find_account_by_name() {
    let accounts = vec![account(1, "alice"), account(2, "bob")];
    assert_eq!(find_account_by_name(&accounts, "alice"), Some(0));
    assert_eq!(find_account_by_name(&accounts, "bob"), Some(1));
    assert_eq!(find_account_by_name(&accounts, "carol"), None);
    assert_eq!(find_account_by_name(&Vec::new(), "alice"), None);
}

#[test]
fn test_mnemonic_bundle() {
    assert_eq!(
        mnemonic_bundle(Some("e".to_string()), Some("s".to_string()), Some("n".to_string())),
        Some(("e".to_string(), "s".to_string(), "n".to_string()))
    );
    assert_eq!(mnemonic_bundle(None, Some("s".to_string()), Some("n".to_string())), None);
    assert_eq!(mnemonic_bundle(Some("e".to_string()), None, Some("n".to_string())), None);
    assert_eq!(mnemonic_bundle(Some("e".to_string()), Some("s".to_string()), None), None);
}

#[test]
fn test_str_eq() {
    assert!(str_eq("alice", "alice"));
    assert!(!str_eq("alice", "alicia"));
    assert!(!str_eq("alice", "alic"));
    assert!(str_eq("", ""));
    assert!(str_eq("naïve ✓", "naïve ✓"));
    assert!(!str_eq("naïve", "naive"));
}

#[test]
fn test_node_error_messages() {
    assert_eq!(NodeError::AlreadyRunning.message(), "node is already running");
    assert_eq!(NodeError::NotRunning.message(), "node is not running");
    assert_eq!(
        NodeError::PlatformUnsupported.message(),
        "local node is not supported on this platform"
    );
    assert_eq!(NodeError::SpawnFailed.message(), "failed to spawn the node process");
    assert_eq!(NodeError::LockUnavailable.message(), "node state is unavailable");
    assert_eq!(NodeError::IoError.message(), "failed to write logs to file");
    assert_eq!(
        NodeError::InvalidPageRequest.message(),
        "page number and page size must be at least 1"
    );
}
