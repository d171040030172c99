use moveforge::rpc::{random, RpcParams, RpcResponse, RpcServer};
use moveforge::simulator::TxRequest;
use moveforge::state::StateManager;

fn no_params() -> RpcParams {
    RpcParams { first_string: None, transactions: None }
}

#[test]
fn test_block_number_starts_at_zero() {
    let server = RpcServer::new(8545, StateManager::new(), true);
    match server.handle_request("eth_blockNumber", &no_params()) {
        RpcResponse::BlockNumber(s) => assert_eq!(s, "0x0"),
        _ => panic!("expected a block number"),
    }
}

#[test]
fn test_block_number_is_hexadecimal() {
    let mut state = StateManager::new();
    for _ in 0..26 {
        state.increment_block();
    }
    let server = RpcServer::new(8545, state, true);
    match server.handle_request("eth_blockNumber", &no_params()) {
        RpcResponse::BlockNumber(s) => assert_eq!(s, "0x1a"),
        _ => panic!("expected a block number"),
    }
}

#[test]
fn test_get_balance_of_unknown_address() {
    let server = RpcServer::new(8545, StateManager::new(), true);
    let params = RpcParams { first_string: Some("0x404".to_string()), transactions: None };
    match server.handle_request("eth_getBalance", &params) {
        RpcResponse::Balance(s) => assert_eq!(s, "0x0"),
        _ => panic!("expected a balance"),
    }
}

#[test]
fn test_get_balance_of_known_address() {
    let mut state = StateManager::new();
    let mut account = state.get_or_create_account("0xabc".to_string());
    account.balance = "12345".to_string();
    state.set_account("0xabc".to_string(), account);
    let server = RpcServer::new(8545, state, true);
    let params = RpcParams { first_string: Some("0xabc".to_string()), transactions: None };
    match server.handle_request("eth_getBalance", &params) {
        RpcResponse::Balance(s) => assert_eq!(s, "12345"),
        _ => panic!("expected a balance"),
    }
}

#[test]
fn test_send_transaction_hash_shape() {
    let server = RpcServer::new(8545, StateManager::new(), true);
    match server.handle_request("eth_sendTransaction", &no_params()) {
        RpcResponse::TxHash(h) => {
            assert_eq!(h.len(), 66);
            assert!(h.starts_with("0x"));
            assert!(h[2..].chars().all(|c| c.is_ascii_hexdigit()));
        }
        _ => panic!("expected a transaction hash"),
    }
}

#[test]
fn test_call_and_estimate_gas() {
    let server = RpcServer::new(8545, StateManager::new(), true);
    match server.handle_request("eth_call", &no_params()) {
        RpcResponse::CallResult(s) => assert_eq!(s, "0x"),
        _ => panic!("expected a call result"),
    }
    match server.handle_request("eth_estimateGas", &no_params()) {
        RpcResponse::GasEstimate(s) => assert_eq!(s, "0x5208"),
        _ => panic!("expected a gas estimate"),
    }
}

#[test]
fn test_execute_move_transaction() {
    let server = RpcServer::new(8545, StateManager::new(), true);
    match server.handle_request("move_executeTransaction", &no_params()) {
        RpcResponse::MoveExecution { hash, status } => {
            assert_eq!(status, "success");
            assert_eq!(hash.len(), 66);
            assert!(hash.starts_with("0x"));
        }
        _ => panic!("expected an execution response"),
    }
}

#[test]
fn test_simulate_batch_request() {
    let server = RpcServer::new(8545, StateManager::new(), true);
    let txs = vec![
        TxRequest { id: Some("tx_1".to_string()), tx_type: Some("transfer".to_string()) },
        TxRequest { id: Some("tx_2".to_string()), tx_type: Some("swap".to_string()) },
    ];
    let params = RpcParams { first_string: None, transactions: Some(txs) };
    match server.handle_request("paraforge_simulateBatch", &params) {
        RpcResponse::BatchResults(results) => {
            assert_eq!(results.len(), 2);
            assert_eq!(results[0].id, "tx_1");
            assert_eq!(results[0].gas_used, 21000);
            assert_eq!(results[1].id, "tx_2");
            assert_eq!(results[1].gas_used, 85000);
        }
        _ => panic!("expected batch results"),
    }
}

#[test]
fn test_simulate_batch_with_no_arguments() {
    let server = RpcServer::new(8545, StateManager::new(), false);
    match server.handle_request("paraforge_simulateBatch", &no_params()) {
        RpcResponse::BatchResults(results) => assert!(results.is_empty()),
        _ => panic!("expected batch results"),
    }
}

#[test]
fn test_unknown_method() {
    let server = RpcServer::new(8545, StateManager::new(), true);
    assert!(matches!(
        server.handle_request("eth_unknownThing", &no_params()),
        RpcResponse::MethodNotFound
    ));
}

#[test]
fn test_random_smoke() {
    let a: u64 = random();
    let _b: u128 = random();
    let _ = a;
}
