use moveforge::state::StateManager;
use moveforge::types::{Block, ExecutionStatus, TransactionReceipt};

#[test]
fn test_state_manager() {
    let mut state = StateManager::new();
    let account = state.get_or_create_account("0x123".to_string());
    assert_eq!(account.address, "0x123");
    assert_eq!(account.balance, "0");
}

#[test]
fn test_forked_state() {
    let state = StateManager::forked(
        "https://aptos.testnet.porto.movementlabs.xyz/v1".to_string(),
    );
    assert_eq!(
        state.fork_url.as_deref(),
        Some("https://aptos.testnet.porto.movementlabs.xyz/v1")
    );
    assert_eq!(state.current_block_number(), 0);
}

#[test]
fn test_get_or_create_is_idempotent() {
    let mut state = StateManager::new();
    let first = state.get_or_create_account("0xabc".to_string());
    let second = state.get_or_create_account("0xabc".to_string());
    assert_eq!(first.address, second.address);
    assert_eq!(first.balance, second.balance);
    assert_eq!(first.nonce, second.nonce);
    assert_eq!(second.balance, "0");
    assert_eq!(second.nonce, 0);
}

#[test]
fn test_get_or_create_keeps_existing_account() {
    let mut state = StateManager::new();
    let mut account = state.get_or_create_account("0xdef".to_string());
    account.balance = "999".to_string();
    account.nonce = 7;
    state.set_account("0xdef".to_string(), account);
    let again = state.get_or_create_account("0xdef".to_string());
    assert_eq!(again.balance, "999");
    assert_eq!(again.nonce, 7);
}

#[test]
fn test_increment_block_counts() {
    let mut state = StateManager::new();
    assert_eq!(state.current_block_number(), 0);
    for _ in 0..10 {
        state.increment_block();
    }
    assert_eq!(state.current_block_number(), 10);
}

#[test]
fn test_block_roundtrip() {
    let mut state = StateManager::new();
    assert!(state.get_block(5).is_none());
    let block = Block {
        number: 5,
        hash: "0xblock".to_string(),
        parent_hash: "0xparent".to_string(),
        timestamp: 1000,
        transactions: vec!["0xt1".to_string(), "0xt2".to_string()],
        state_root: "0xroot".to_string(),
    };
    state.add_block(block);
    let got = state.get_block(5).expect("block stored");
    assert_eq!(got.hash, "0xblock");
    assert_eq!(got.parent_hash, "0xparent");
    assert_eq!(got.timestamp, 1000);
    assert_eq!(got.transactions, vec!["0xt1".to_string(), "0xt2".to_string()]);
    assert!(state.get_block(6).is_none());
}

#[test]
fn test_receipt_roundtrip() {
    let mut state = StateManager::new();
    assert!(state.get_transaction("0xh").is_none());
    let receipt = TransactionReceipt {
        hash: "0xh".to_string(),
        status: ExecutionStatus::Success,
        gas_used: 21000,
        block_number: 1,
        logs: vec![],
        resource_changes: vec![],
    };
    state.add_transaction("0xh".to_string(), receipt);
    let got = state.get_transaction("0xh").expect("receipt stored");
    assert_eq!(got.hash, "0xh");
    assert_eq!(got.gas_used, 21000);
    assert_eq!(got.status, ExecutionStatus::Success);
}

#[test]
fn test_set_account_overwrites() {
    let mut state = StateManager::new();
    let mut account = state.get_or_create_account("0x1".to_string());
    account.balance = "5".to_string();
    state.set_account("0x1".to_string(), account.clone());
    account.balance = "6".to_string();
    state.set_account("0x1".to_string(), account);
    let got = state.get_account("0x1").expect("account stored");
    assert_eq!(got.balance, "6");
}

#[test]
fn test_default_store_is_fresh() {
    let state = StateManager::default();
    assert_eq!(state.current_block_number(), 0);
    assert!(state.get_account("0x123").is_none());
    assert!(state.fork_url.is_none());
}
