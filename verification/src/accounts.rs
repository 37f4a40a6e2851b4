//! Account and channel-order records, and the pure decisions the command
//! layer makes over them.  Persistence of these records is an external
//! collaborator; only plain values cross this boundary.

use vstd::prelude::*;

verus! {

use crate::strutil::str_eq;

/// A named configuration profile under which a node runs.
#[derive(Debug, Clone)]
pub struct Account {
    pub id: i32,
    pub name: String,
    pub network: String,
    pub datapath: Option<String>,
    pub rpc_connection_url: String,
    pub node_url: String,
    pub indexer_url: String,
    pub proxy_endpoint: String,
    pub default_lsp_url: String,
    pub maker_urls: String,
    pub default_maker_url: String,
    pub daemon_listening_port: String,
    pub ldk_peer_listening_port: String,
    pub bearer_token: Option<String>,
    pub encrypted_mnemonic: Option<String>,
    pub mnemonic_salt: Option<String>,
    pub mnemonic_nonce: Option<String>,
}

/// One channel order of an account.
#[derive(Debug, Clone)]
pub struct ChannelOrder {
    pub id: i32,
    pub account_id: i32,
    pub order_id: String,
    pub created_at: String,
    pub status: String,
    pub payload: String,
}

/// Index of the first account named `name`, if any.
pub fn find_account_by_name(accounts: &Vec<Account>, name: &str) -> (r: Option<usize>)
    ensures
        match r {
            Some(i) => {
                &&& i < accounts@.len()
                &&& accounts@[i as int].name@ == name@
                &&& forall|j: int| 0 <= j < i ==> accounts@[j].name@ != name@
            },
            None => forall|j: int| 0 <= j < accounts@.len() ==> accounts@[j].name@ != name@,
        },
{
    let n = accounts.len();
    let mut i: usize = 0;
    while i < n
        invariant
            i <= n == accounts@.len(),
            forall|j: int| 0 <= j < i ==> accounts@[j].name@ != name@,
        decreases n - i,
    {
        if str_eq(accounts[i].name.as_str(), name) {
            return Some(i);
        }
        i += 1;
    }
    None
}

/// Combines the three stored mnemonic columns into one bundle: `Some`
/// exactly when all three parts are present.
pub fn mnemonic_bundle(
    encrypted: Option<String>,
    salt: Option<String>,
    nonce: Option<String>,
) -> (r: Option<(String, String, String)>)
    ensures
        r is Some <==> (encrypted is Some && salt is Some && nonce is Some),
        r matches Some(t) ==> {
            &&& Some(t.0) == encrypted
            &&& Some(t.1) == salt
            &&& Some(t.2) == nonce
        },
{
    match (encrypted, salt, nonce) {
        (Some(e), Some(s), Some(n)) => Some((e, s, n)),
        _ => None,
    }
}

} // verus!
