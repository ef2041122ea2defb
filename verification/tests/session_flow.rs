//! The session lifecycle as the engine sees it: empty slot at start, filled
//! only by a successful connect, emptied by disconnect, and every
//! session-dependent operation declining while the slot is empty.

use breez_godot::network::Network;
use breez_godot::outcomes::get_balance_result;
use breez_godot::outcomes::list_payments_result;
use breez_godot::outcomes::list_unclaimed_deposits_result;
use breez_godot::outcomes::payment_request_result;
use breez_godot::outcomes::sync_wallet_result;
use breez_godot::requests::connect_request;
use breez_godot::session::BreezNode;

fn connected_node() -> BreezNode {
    let mut node = BreezNode::init();
    assert!(node.finish_connect(true));
    node
}

#[test]
fn fresh_adapter_is_disconnected() {
    let node = BreezNode::init();
    assert!(!node.is_sdk_connected());
}

#[test]
fn failed_connect_leaves_adapter_disconnected() {
    let mut node = BreezNode::init();
    assert!(!node.finish_connect(false));
    assert!(!node.is_sdk_connected());
}

#[test]
fn successful_connect_fills_the_slot() {
    let mut node = BreezNode::init();
    assert!(node.finish_connect(true));
    assert!(node.is_sdk_connected());
}

#[test]
fn disconnect_empties_the_slot() {
    let mut node = connected_node();
    let had_session = node.disconnect_breez();
    assert!(had_session);
    assert!(!node.is_sdk_connected());
}

#[test]
fn failed_connect_keeps_an_existing_session() {
    let mut node = connected_node();
    assert!(!node.finish_connect(false));
    assert!(node.is_sdk_connected());
}

#[test]
fn second_disconnect_is_silent() {
    let mut node = connected_node();
    assert!(node.disconnect_breez());
    assert!(!node.is_sdk_connected());
    // The second disconnect finds no session, so no drop is reported.
    assert!(!node.disconnect_breez());
    assert!(!node.is_sdk_connected());
}

#[test]
fn disconnect_on_fresh_adapter_is_silent() {
    let mut node = BreezNode::init();
    assert!(!node.disconnect_breez());
    assert!(!node.is_sdk_connected());
}

#[test]
fn connect_with_invalid_network_builds_no_request() {
    // No request means the glue makes no network call and stores no session.
    for name in ["invalid", "testnet", "", "Mainnet", "mainnet "] {
        let r = connect_request(
            "abandon ability able".to_string(),
            "api-key".to_string(),
            name,
            "/tmp/wallet".to_string(),
        );
        assert!(r.is_none());
    }
}

#[test]
fn connect_request_carries_the_inputs() {
    let r = connect_request(
        "abandon ability able".to_string(),
        "key".to_string(),
        "mainnet",
        "/data/wallet".to_string(),
    )
    .unwrap();
    assert_eq!(r.network, Network::Mainnet);
    assert_eq!(r.api_key, Some("key".to_string()));
    assert_eq!(r.seed.mnemonic, "abandon ability able".to_string());
    assert_eq!(r.seed.passphrase, None);
    assert_eq!(r.storage_dir, "/data/wallet".to_string());

    let r = connect_request(
        "m".to_string(),
        "k".to_string(),
        "regtest",
        "d".to_string(),
    )
    .unwrap();
    assert_eq!(r.network, Network::Regtest);
}

#[test]
fn disconnected_operations_build_no_request() {
    let node = BreezNode::init();
    assert!(node.get_balance_request().is_none());
    assert!(node.get_bitcoin_address_request().is_none());
    assert!(node.get_spark_address_request().is_none());
    assert!(node.create_invoice_request(1000, "d".to_string()).is_none());
    assert!(node.pay_invoice_prepare("lnbc1".to_string()).is_none());
    assert!(node.sync_wallet_request().is_none());
    assert!(node.list_payments_request(0, 10).is_none());
    assert!(node.list_unclaimed_deposits_request().is_none());
    assert!(node
        .claim_deposit_request("txid".to_string(), 0, 100)
        .is_none());
}

#[test]
fn disconnected_operations_collapse_to_their_sentinels() {
    assert_eq!(get_balance_result(None), 0);
    assert_eq!(payment_request_result(None), "".to_string());
    assert!(!sync_wallet_result(None));
    assert!(list_payments_result(None).is_empty());
    assert!(list_unclaimed_deposits_result(None).is_empty());
}
