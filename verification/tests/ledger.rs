use xero_core::cluster::ClusterKind;
use xero_core::ledger::{now_ms, LocalCostLedger, TxCostRecord};

fn rec(cluster: ClusterKind, sig: &str, fee: u64, prio: u64, cu: u64, rent: u64, ts: u64) -> TxCostRecord {
    TxCostRecord {
        cluster,
        signature: sig.to_string(),
        lamports_fee: fee,
        priority_fee_lamports: prio,
        compute_units_consumed: cu,
        rent_lamports: rent,
        timestamp_ms: ts,
    }
}

#[test]
fn summary_ignores_clusters_not_requested() {
    let mut ledger = LocalCostLedger::new();
    ledger.record(rec(ClusterKind::Mainnet, "a", 1_000, 200, 50_000, 0, now_ms()));
    ledger.record(rec(ClusterKind::Devnet, "b", 500, 0, 10_000, 0, now_ms()));
    let summary = ledger.summary(&[ClusterKind::Mainnet], None);
    assert_eq!(summary.tx_count, 1);
    assert_eq!(summary.lamports_spent, 1_200);
}

#[test]
fn window_cutoff_excludes_old_entries() {
    let mut ledger = LocalCostLedger::new();
    ledger.record(rec(ClusterKind::Mainnet, "old", 1_000, 0, 0, 0, 1));
    let summary = ledger.summary(&[ClusterKind::Mainnet], Some(60));
    assert_eq!(summary.tx_count, 0);
}

#[test]
fn capacity_evicts_oldest_records() {
    let mut ledger = LocalCostLedger::with_capacity(2);
    for i in 0..3 {
        ledger.record(rec(ClusterKind::Devnet, &format!("s-{i}"), 100, 0, 0, 0, now_ms()));
    }
    assert_eq!(ledger.len(), 2);
}

#[test]
fn summary_rolls_per_cluster_breakdowns() {
    let mut ledger = LocalCostLedger::new();
    ledger.record(rec(ClusterKind::Mainnet, "a", 100, 0, 1, 0, now_ms()));
    ledger.record(rec(ClusterKind::Devnet, "b", 200, 50, 2, 500, now_ms()));
    let summary = ledger.summary(&[ClusterKind::Mainnet, ClusterKind::Devnet], None);
    let mainnet = summary.by_cluster.iter().find(|b| b.cluster == ClusterKind::Mainnet).unwrap();
    let devnet = summary.by_cluster.iter().find(|b| b.cluster == ClusterKind::Devnet).unwrap();
    assert_eq!(mainnet.tx_count, 1);
    assert_eq!(devnet.rent_locked_lamports, 500);
    assert_eq!(devnet.lamports_spent, 250);
}

#[test]
fn summary_at_saturates_and_orders_breakdowns() {
    let mut ledger = LocalCostLedger::with_capacity(0);
    ledger.record(rec(ClusterKind::Devnet, "a", u64::MAX, 5, 1, 2, 10));
    assert_eq!(ledger.len(), 1);
    ledger.record(rec(ClusterKind::Devnet, "b", 7, 0, 1, 2, 10));
    assert_eq!(ledger.len(), 1);
    let s = ledger.summary_at(&[ClusterKind::Mainnet, ClusterKind::Devnet], Some(1), 2_000);
    assert_eq!(s.tx_count, 0);
    let s = ledger.summary_at(&[ClusterKind::Mainnet, ClusterKind::Devnet], Some(1), 1_010);
    assert_eq!(s.tx_count, 1);
    assert_eq!(s.lamports_spent, 7);
    assert_eq!(s.by_cluster.len(), 2);
    assert_eq!(s.by_cluster[0].cluster, ClusterKind::Devnet);
    assert_eq!(s.by_cluster[1].cluster, ClusterKind::Mainnet);
    ledger.clear();
    assert!(ledger.is_empty());
}
