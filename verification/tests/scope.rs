use xero_core::cluster::ClusterKind;
use xero_core::secrets::{
    check_scope, imported_on_fork_warning, label_warning, Persona, ScopeWarningKind, SecretSeverity,
};

fn persona(name: &str, cluster: ClusterKind, pubkey: &str, note: Option<&str>) -> Persona {
    Persona {
        name: name.to_string(),
        cluster,
        pubkey: pubkey.to_string(),
        keypair_path: String::new(),
        created_at_ms: 0,
        note: note.map(String::from),
    }
}

#[test]
fn mainnet_label_on_devnet_triggers_warning() {
    let warning = label_warning(&persona("mainnet-deployer", ClusterKind::Devnet, "PUBKEY", None))
        .expect("should flag");
    assert_eq!(warning.kind, ScopeWarningKind::MainnetLabelOnNonMainnet);
    assert_eq!(warning.severity, SecretSeverity::High);
}

#[test]
fn imported_note_on_fork_raises_medium_warning() {
    let warning = imported_on_fork_warning(&persona(
        "whale",
        ClusterKind::MainnetFork,
        "PUBKEY",
        Some("imported from prod"),
    ))
    .expect("should flag");
    assert_eq!(warning.kind, ScopeWarningKind::SuspectedRealKeyOnForkOrDevnet);
}

#[test]
fn mainnet_persona_is_not_label_flagged() {
    assert!(label_warning(&persona(
        "deploy",
        ClusterKind::Mainnet,
        "PUBKEY",
        Some("mainnet authority"),
    ))
    .is_none());
}

#[test]
fn empty_store_emits_no_warnings() {
    let report = check_scope(vec![Vec::new(), Vec::new(), Vec::new(), Vec::new()]).unwrap();
    assert!(report.warnings.is_empty());
    assert!(!report.blocks_deploy);
    assert_eq!(report.personas_inspected, 0);
}

#[test]
fn pubkey_reused_on_mainnet_blocks_deploy() {
    let report = check_scope(vec![
        vec![persona("alice", ClusterKind::Localnet, "KEY1", None)],
        vec![],
        vec![persona("bob", ClusterKind::Devnet, "KEY2", None)],
        vec![persona("carol", ClusterKind::Mainnet, "KEY1", None)],
    ])
    .unwrap();
    assert_eq!(report.personas_inspected, 3);
    assert!(report.blocks_deploy);
    assert_eq!(report.warnings.len(), 2);
    assert_eq!(report.warnings[0].persona, "alice");
    assert_eq!(report.warnings[0].severity, SecretSeverity::Critical);
    assert_eq!(report.warnings[0].related_clusters, vec![ClusterKind::Mainnet]);
    assert_eq!(
        report.warnings[0].message,
        "Pubkey KEY1 is registered on 2 different cluster(s): localnet, mainnet"
    );
    assert_eq!(report.warnings[1].persona, "carol");
    assert_eq!(report.warnings[1].related_clusters, vec![ClusterKind::Localnet]);
}

#[test]
fn warnings_sort_by_severity_then_persona() {
    let report = check_scope(vec![
        vec![],
        vec![persona("zed", ClusterKind::MainnetFork, "K1", Some("Imported key"))],
        vec![persona("amy", ClusterKind::Devnet, "K2", Some("prod wallet"))],
        vec![],
    ])
    .unwrap();
    assert!(!report.blocks_deploy);
    assert_eq!(report.warnings.len(), 2);
    assert_eq!(report.warnings[0].kind, ScopeWarningKind::MainnetLabelOnNonMainnet);
    assert_eq!(report.warnings[0].persona, "amy");
    assert_eq!(report.warnings[1].kind, ScopeWarningKind::SuspectedRealKeyOnForkOrDevnet);
    assert_eq!(report.warnings[1].severity, SecretSeverity::Medium);
}

#[test]
fn pubkey_shared_on_one_cluster_is_not_cross_cluster_reuse() {
    let report = check_scope(vec![
        vec![],
        vec![],
        vec![persona("a", ClusterKind::Devnet, "KEY1", None), persona("b", ClusterKind::Devnet, "KEY1", None)],
        vec![],
    ])
    .unwrap();
    assert!(report.warnings.iter().all(|w| w.kind != ScopeWarningKind::CrossClusterReuse));
    assert!(!report.blocks_deploy);
}
