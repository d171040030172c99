use moveforge::simulator::{Simulator, TxOutcome, TxRequest};
use moveforge::types::{ChangeType, ExecutionStatus, ResourceChange};

fn outcome(id: &str, resources: &[&str]) -> TxOutcome {
    TxOutcome {
        id: id.to_string(),
        tx_type: "transfer".to_string(),
        status: ExecutionStatus::Success,
        gas_used: 21000,
        resource_changes: resources
            .iter()
            .map(|r| ResourceChange {
                address: "0xaddr".to_string(),
                resource_type: r.to_string(),
                change_type: ChangeType::Update,
                data: String::new(),
            })
            .collect(),
        conflicts: vec![],
        execution_time_ms: 0,
    }
}

#[test]
fn test_conflict_analysis() {
    let sim = Simulator::new(true);
    let results = vec![
        outcome("tx_1", &["Coin<MOVE>"]),
        outcome("tx_2", &["Coin<MOVE>"]),
    ];
    let report = sim.analyze_conflicts(&results);
    assert!(report.total_conflicts >= 1);
    let entry = report
        .conflicts
        .iter()
        .find(|c| c.resource == "Coin<MOVE>")
        .expect("the shared resource is reported");
    assert_eq!(entry.conflicting_txs, vec![0, 1]);
}

#[test]
fn test_disjoint_batch_has_no_conflicts() {
    let sim = Simulator::new(true);
    let results = vec![
        outcome("tx_1", &["Coin<MOVE>", "Coin<MOVE>"]),
        outcome("tx_2", &["LiquidityPool"]),
        outcome("tx_3", &["NFT"]),
    ];
    let report = sim.analyze_conflicts(&results);
    assert_eq!(report.total_conflicts, 0);
    assert!(report.conflicts.is_empty());
    assert_eq!(
        report.recommendation,
        "No conflicts detected. Transactions can execute in parallel safely."
    );
}

#[test]
fn test_simulated_transfers_conflict_on_coin() {
    let sim = Simulator::new(false);
    let txs = vec![
        TxRequest { id: Some("a".to_string()), tx_type: Some("transfer".to_string()) },
        TxRequest { id: Some("b".to_string()), tx_type: Some("transfer".to_string()) },
    ];
    let results = sim.simulate_batch(&txs).expect("batch is well formed");
    let report = sim.analyze_conflicts(&results);
    assert_eq!(report.total_conflicts, 1);
    assert_eq!(report.conflicts[0].resource, "Coin<MOVE>");
    assert_eq!(report.conflicts[0].conflicting_txs, vec![0, 1]);
    assert_eq!(report.conflicts[0].severity, "high");
    assert_eq!(
        report.recommendation,
        "Conflicts detected. Consider retry logic or transaction reordering."
    );
}

#[test]
fn test_counts_match_conflict_list() {
    let sim = Simulator::new(true);
    let results = vec![
        outcome("tx_1", &["A", "B"]),
        outcome("tx_2", &["B", "C"]),
        outcome("tx_3", &["C", "A"]),
    ];
    let report = sim.analyze_conflicts(&results);
    assert_eq!(report.total_conflicts, report.conflicts.len());
    assert_eq!(report.total_conflicts, 3);
    for entry in &report.conflicts {
        assert_eq!(entry.severity, "high");
        assert_eq!(entry.conflicting_txs.len(), 2);
    }
}

#[test]
fn test_three_way_conflict_lists_all_positions() {
    let sim = Simulator::new(true);
    let results = vec![
        outcome("tx_1", &["Pool"]),
        outcome("tx_2", &["Pool"]),
        outcome("tx_3", &["Pool"]),
    ];
    let report = sim.analyze_conflicts(&results);
    assert_eq!(report.total_conflicts, 1);
    assert_eq!(report.conflicts[0].conflicting_txs, vec![0, 1, 2]);
}

#[test]
fn test_empty_results_are_safe() {
    let sim = Simulator::new(true);
    let report = sim.analyze_conflicts(&vec![]);
    assert_eq!(report.total_conflicts, 0);
    assert_eq!(
        report.recommendation,
        "No conflicts detected. Transactions can execute in parallel safely."
    );
}

#[test]
fn test_repeated_touch_by_one_transaction_is_not_a_conflict() {
    let sim = Simulator::new(true);
    let results = vec![outcome("tx_1", &["Coin<MOVE>", "Coin<MOVE>"])];
    let report = sim.analyze_conflicts(&results);
    assert_eq!(report.total_conflicts, 0);
}
