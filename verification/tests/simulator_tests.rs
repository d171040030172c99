use moveforge::policy::{gas_cost_for, resource_changes_for, AdmissionPolicy};
use moveforge::simulator::{
    generate_sample_transactions, SimError, Simulator, TxOutcome, TxRequest,
};
use moveforge::types::{ChangeType, ExecutionStatus};

fn tx(id: &str, tx_type: &str) -> TxRequest {
    TxRequest { id: Some(id.to_string()), tx_type: Some(tx_type.to_string()) }
}

fn assert_same_content(a: &TxOutcome, b: &TxOutcome) {
    assert_eq!(a.id, b.id);
    assert_eq!(a.tx_type, b.tx_type);
    assert_eq!(a.status, b.status);
    assert_eq!(a.gas_used, b.gas_used);
    assert_eq!(a.resource_changes.len(), b.resource_changes.len());
    for (ca, cb) in a.resource_changes.iter().zip(b.resource_changes.iter()) {
        assert_eq!(ca.address, cb.address);
        assert_eq!(ca.resource_type, cb.resource_type);
        assert_eq!(ca.change_type, cb.change_type);
        assert_eq!(ca.data, cb.data);
    }
    assert_eq!(a.conflicts, b.conflicts);
}

#[test]
fn test_simulator() {
    let sim = Simulator::new(true);
    let txs = vec![tx("tx_1", "transfer"), tx("tx_2", "swap")];
    let results = sim.simulate_batch(&txs);
    assert!(results.is_ok());
}

#[test]
fn test_parallel_and_sequential_agree() {
    let txs = generate_sample_transactions(10);
    let parallel = Simulator::new(true).simulate_batch(&txs).expect("batch is well formed");
    let sequential = Simulator::new(false).simulate_batch(&txs).expect("batch is well formed");
    assert_eq!(parallel.len(), sequential.len());
    for (a, b) in parallel.iter().zip(sequential.iter()) {
        assert_same_content(a, b);
    }
}

#[test]
fn test_empty_batch_returns_empty() {
    let sim = Simulator::new(true);
    let results = sim.simulate_batch(&vec![]).expect("empty batch is well formed");
    assert_eq!(results.len(), 0);
}

#[test]
fn test_result_length_matches_batch() {
    let sim = Simulator::new(false);
    let txs = generate_sample_transactions(5);
    let results = sim.simulate_batch(&txs).expect("batch is well formed");
    assert_eq!(results.len(), 5);
}

#[test]
fn test_missing_type_rejects_batch() {
    let sim = Simulator::new(false);
    let txs = vec![
        tx("tx_0", "transfer"),
        TxRequest { id: Some("tx_1".to_string()), tx_type: None },
        TxRequest { id: None, tx_type: None },
    ];
    let err = sim.simulate_batch(&txs).expect_err("typeless descriptor is rejected");
    assert_eq!(err, SimError::MissingTxType { index: 1 });
}

#[test]
fn test_reference_policy_scenario() {
    let sim = Simulator::new(false);
    let txs: Vec<TxRequest> = (0..7).map(|i| tx(&format!("tx_{}", i), "transfer")).collect();
    let results = sim.simulate_batch(&txs).expect("batch is well formed");
    assert_eq!(results.len(), 7);
    for (i, r) in results.iter().enumerate() {
        if i == 0 {
            assert_eq!(r.status, ExecutionStatus::Failed);
            assert_eq!(r.conflicts, vec!["resource_0x123".to_string()]);
        } else {
            assert_eq!(r.status, ExecutionStatus::Success);
            assert!(r.conflicts.is_empty());
        }
        assert_eq!(r.gas_used, 21000);
        assert_eq!(r.tx_type, "transfer");
    }
}

#[test]
fn test_gas_table() {
    assert_eq!(gas_cost_for("transfer"), 21000);
    assert_eq!(gas_cost_for("swap"), 85000);
    assert_eq!(gas_cost_for("mint"), 120000);
    assert_eq!(gas_cost_for("burn"), 50000);
    assert_eq!(gas_cost_for("anything_else"), 50000);
}

#[test]
fn test_resource_change_table() {
    let transfer = resource_changes_for("transfer");
    assert_eq!(transfer.len(), 2);
    assert_eq!(transfer[0].address, "0xsender");
    assert_eq!(transfer[0].resource_type, "Coin<MOVE>");
    assert_eq!(transfer[0].change_type, ChangeType::Update);
    assert_eq!(transfer[1].address, "0xrecipient");
    assert_eq!(transfer[1].resource_type, "Coin<MOVE>");

    let swap = resource_changes_for("swap");
    assert_eq!(swap.len(), 1);
    assert_eq!(swap[0].address, "0xpool");
    assert_eq!(swap[0].resource_type, "LiquidityPool");
    assert_eq!(swap[0].change_type, ChangeType::Update);

    let mint = resource_changes_for("mint");
    assert_eq!(mint.len(), 1);
    assert_eq!(mint[0].address, "0xminter");
    assert_eq!(mint[0].resource_type, "NFT");
    assert_eq!(mint[0].change_type, ChangeType::Create);

    assert!(resource_changes_for("deploy").is_empty());
}

#[test]
fn test_sample_generator() {
    let txs = generate_sample_transactions(4);
    assert_eq!(txs.len(), 4);
    assert_eq!(txs[0].id.as_deref(), Some("tx_0"));
    assert_eq!(txs[0].tx_type.as_deref(), Some("transfer"));
    assert_eq!(txs[1].id.as_deref(), Some("tx_1"));
    assert_eq!(txs[1].tx_type.as_deref(), Some("swap"));
    assert_eq!(txs[2].tx_type.as_deref(), Some("mint"));
    assert_eq!(txs[3].tx_type.as_deref(), Some("transfer"));
}

#[test]
fn test_identifier_synthesized_from_position() {
    let sim = Simulator::new(false);
    let txs = vec![
        tx("given", "swap"),
        TxRequest { id: None, tx_type: Some("swap".to_string()) },
    ];
    let results = sim.simulate_batch(&txs).expect("batch is well formed");
    assert_eq!(results[0].id, "given");
    assert_eq!(results[1].id, "tx_1");
}

#[test]
fn test_empty_type_tag_uses_default_bucket() {
    let sim = Simulator::new(false);
    let txs = vec![tx("tx_0", "")];
    let results = sim.simulate_batch(&txs).expect("a present tag is enough");
    assert_eq!(results[0].gas_used, 50000);
    assert!(results[0].resource_changes.is_empty());
    assert_eq!(results[0].tx_type, "");
}

#[test]
fn test_all_succeed_policy() {
    let sim = Simulator::with_policy(false, AdmissionPolicy::AllSucceed);
    let txs = generate_sample_transactions(8);
    let results = sim.simulate_batch(&txs).expect("batch is well formed");
    assert!(results.iter().all(|r| r.status == ExecutionStatus::Success));
    assert!(results.iter().all(|r| r.conflicts.is_empty()));
}

#[test]
fn test_every_nth_policy_period_three() {
    let sim = Simulator::with_policy(true, AdmissionPolicy::EveryNthFails(3));
    let txs = generate_sample_transactions(6);
    let results = sim.simulate_batch(&txs).expect("batch is well formed");
    for (i, r) in results.iter().enumerate() {
        if i % 3 == 0 {
            assert_eq!(r.status, ExecutionStatus::Failed);
        } else {
            assert_eq!(r.status, ExecutionStatus::Success);
        }
    }
}
