use base64::Engine;
use xero_core::cluster::ClusterKind;
use xero_core::drift::{
    classify, empty_probe, finalize_with_account, finalize_with_programdata, probe_program_account,
    probe_programdata_account, start_probe, DriftProbe, DriftStatus, ProbeStep, RpcAccount, BPF_UPGRADEABLE_LOADER,
    PROGRAMDATA_DATA_OFFSET, assemble_drift_report, drift_clusters, drift_targets, plan_probes, summarise,
    DriftCheckRequest, TrackedProgram,
};

fn probe(cluster: ClusterKind, hash: Option<&str>, error: Option<&str>) -> DriftProbe {
    DriftProbe {
        cluster,
        rpc_url: "u".into(),
        program_data_sha256: hash.map(String::from),
        program_data_length: hash.map(|_| 4),
        upgrade_authority: None,
        last_deployed_slot: None,
        error: error.map(String::from),
    }
}

#[test]
fn classify_returns_in_sync_for_identical_hashes() {
    let probes = vec![probe(ClusterKind::Devnet, Some("abc"), None), probe(ClusterKind::Mainnet, Some("abc"), None)];
    assert_eq!(classify(&probes), DriftStatus::InSync);
}

#[test]
fn classify_detects_drift_across_clusters() {
    let probes = vec![probe(ClusterKind::Devnet, Some("abc"), None), probe(ClusterKind::Mainnet, Some("def"), None)];
    assert_eq!(classify(&probes), DriftStatus::Drift);
}

#[test]
fn classify_detects_partial_deploy() {
    let probes = vec![
        probe(ClusterKind::Devnet, Some("abc"), None),
        probe(ClusterKind::Mainnet, None, Some("program_not_found")),
    ];
    assert_eq!(classify(&probes), DriftStatus::PartiallyDeployed);
}

#[test]
fn classify_reports_inconclusive_when_every_lookup_failed() {
    let probes = vec![probe(ClusterKind::Devnet, None, Some("rpc: down")), probe(ClusterKind::Mainnet, None, None)];
    assert_eq!(classify(&probes), DriftStatus::Inconclusive);
    assert_eq!(classify(&[]), DriftStatus::InSync);
    assert_eq!(DriftStatus::PartiallyDeployed.as_str(), "partially_deployed");
}

#[test]
fn programdata_is_decoded_into_slot_authority_and_hash() {
    let mut bytes = vec![0u8; 45];
    bytes[0] = 3;
    bytes[4..12].copy_from_slice(&42u64.to_le_bytes());
    bytes[12] = 1;
    bytes[13..45].copy_from_slice(&[9u8; 32]);
    bytes.extend_from_slice(&[1, 2, 3, 4]);
    let data = base64::engine::general_purpose::STANDARD.encode(bytes);
    let p = finalize_with_programdata(empty_probe(ClusterKind::Devnet, "http://u"), &data);
    assert!(p.error.is_none());
    assert_eq!(p.program_data_length, Some(4));
    assert_eq!(p.last_deployed_slot, Some(42));
    assert_eq!(p.upgrade_authority.as_deref(), Some(bs58::encode([9u8; 32]).into_string().as_str()));
    assert_eq!(
        p.program_data_sha256.as_deref(),
        Some("9f64a747e1b97f131fabb6b447296c9b6f0201e79fb3c5356e6c77e89b6a806a")
    );
}

#[test]
fn short_or_invalid_programdata_is_an_error() {
    let data = base64::engine::general_purpose::STANDARD.encode([0u8; 10]);
    let p = finalize_with_programdata(empty_probe(ClusterKind::Devnet, "http://u"), &data);
    assert!(p.error.is_some());
    assert!(p.program_data_sha256.is_none());
    let p = finalize_with_programdata(empty_probe(ClusterKind::Devnet, "http://u"), "***");
    assert!(p.error.is_some());
}

#[test]
fn account_bytes_are_hashed_directly() {
    let data = base64::engine::general_purpose::STANDARD.encode(b"direct");
    let p = finalize_with_account(empty_probe(ClusterKind::Localnet, "http://u"), &data);
    assert!(p.error.is_none());
    assert_eq!(p.program_data_length, Some(6));
    assert_eq!(
        p.program_data_sha256.as_deref(),
        Some("d15690f08a575024650b01ffac892cfd2b93e6c57c140f1b6d9e47753cabd579")
    );
}

fn account(owner: &str, data_b64: &str) -> Option<RpcAccount> {
    Some(RpcAccount { owner: Some(owner.into()), data: data_b64.into() })
}

fn encode_program_account_pointing_at(programdata_pubkey_bytes: &[u8; 32]) -> String {
    let mut bytes = vec![0u8; 36];
    bytes[0] = 2;
    bytes[4..36].copy_from_slice(programdata_pubkey_bytes);
    base64::engine::general_purpose::STANDARD.encode(bytes)
}

fn encode_programdata(slot: u64, authority: Option<[u8; 32]>, program_bytes: &[u8]) -> String {
    let mut bytes = vec![0u8; PROGRAMDATA_DATA_OFFSET];
    bytes[0] = 3;
    bytes[4..12].copy_from_slice(&slot.to_le_bytes());
    if let Some(auth) = authority {
        bytes[12] = 1;
        bytes[13..45].copy_from_slice(&auth);
    }
    bytes.extend_from_slice(program_bytes);
    base64::engine::general_purpose::STANDARD.encode(bytes)
}

#[test]
fn probe_program_follows_upgradeable_loader_pointer() {
    let programdata_pubkey = [7u8; 32];
    assert!(start_probe(ClusterKind::Devnet, "http://u").is_none());
    let step = probe_program_account(
        empty_probe(ClusterKind::Devnet, "http://u"),
        Ok(account(BPF_UPGRADEABLE_LOADER, &encode_program_account_pointing_at(&programdata_pubkey))),
    );
    let (probe, address) = match step {
        ProbeStep::FetchProgramData { probe, address } => (probe, address),
        ProbeStep::Done(p) => panic!("unexpected error: {:?}", p.error),
    };
    assert_eq!(address, bs58::encode(programdata_pubkey).into_string());
    let probe = probe_programdata_account(
        probe,
        Ok(account(BPF_UPGRADEABLE_LOADER, &encode_programdata(42, Some([9u8; 32]), &[1, 2, 3, 4]))),
    );
    assert!(probe.error.is_none(), "unexpected error: {:?}", probe.error);
    assert_eq!(probe.program_data_length, Some(4));
    assert_eq!(probe.last_deployed_slot, Some(42));
    assert!(probe.upgrade_authority.is_some());
    assert!(probe.program_data_sha256.is_some());
}

#[test]
fn probe_program_handles_non_upgradeable() {
    let step = probe_program_account(
        empty_probe(ClusterKind::Localnet, "http://u"),
        Ok(account("11111111111111111111111111111111", &base64::engine::general_purpose::STANDARD.encode(b"direct"))),
    );
    let probe = match step {
        ProbeStep::Done(p) => p,
        ProbeStep::FetchProgramData { .. } => panic!("a non-upgradeable program is read directly"),
    };
    assert!(probe.error.is_none());
    assert_eq!(probe.program_data_length, Some(6));
}

#[test]
fn probe_program_reports_missing_program() {
    let step = probe_program_account(empty_probe(ClusterKind::Devnet, "http://u"), Ok(None));
    match step {
        ProbeStep::Done(probe) => assert_eq!(probe.error.as_deref(), Some("program_not_found")),
        _ => panic!("expected a finished probe"),
    }
}

#[test]
fn probe_failures_are_recorded() {
    let p = start_probe(ClusterKind::Devnet, "").expect("done at once");
    assert_eq!(p.error.as_deref(), Some("rpc_url_missing"));
    match probe_program_account(empty_probe(ClusterKind::Devnet, "u"), Err("timeout".into())) {
        ProbeStep::Done(p) => assert_eq!(p.error.as_deref(), Some("rpc: timeout")),
        _ => panic!("expected a finished probe"),
    }
    match probe_program_account(
        empty_probe(ClusterKind::Devnet, "u"),
        Ok(Some(RpcAccount { owner: None, data: String::new() })),
    ) {
        ProbeStep::Done(p) => assert_eq!(p.error.as_deref(), Some("program_owner_missing")),
        _ => panic!("expected a finished probe"),
    }
    match probe_program_account(
        empty_probe(ClusterKind::Devnet, "u"),
        Ok(account(BPF_UPGRADEABLE_LOADER, &base64::engine::general_purpose::STANDARD.encode([0u8; 10]))),
    ) {
        ProbeStep::Done(p) => assert_eq!(p.error.as_deref(), Some("program_state_too_short")),
        _ => panic!("expected a finished probe"),
    }
    let p = probe_programdata_account(empty_probe(ClusterKind::Devnet, "u"), Ok(None));
    assert_eq!(p.error.as_deref(), Some("programdata_not_found"));
    let p = probe_programdata_account(empty_probe(ClusterKind::Devnet, "u"), Err("refused".into()));
    assert_eq!(p.error.as_deref(), Some("rpc_programdata: refused"));
    let p = probe_programdata_account(
        empty_probe(ClusterKind::Devnet, "u"),
        Ok(account(BPF_UPGRADEABLE_LOADER, &base64::engine::general_purpose::STANDARD.encode([0u8; 20]))),
    );
    assert_eq!(p.error.as_deref(), Some("programdata_header_short: 20 bytes, want >= 45"));
}

fn program(label: &str, id: &str) -> TrackedProgram {
    TrackedProgram { label: label.into(), program_id: id.into() }
}

fn request(additional: Vec<TrackedProgram>, clusters: Vec<ClusterKind>, skip_builtins: bool) -> DriftCheckRequest {
    DriftCheckRequest { additional, clusters, rpc_urls: Vec::new(), skip_builtins, timeout_ms: None }
}

#[test]
fn summaries_name_the_program_and_its_clusters() {
    let p = program("Token Metadata", "meta");
    let same = vec![probe(ClusterKind::Devnet, Some("abc"), None), probe(ClusterKind::Mainnet, Some("abc"), None)];
    assert_eq!(
        summarise(&p, &same, DriftStatus::InSync),
        "Token Metadata has identical bytes across 2 cluster(s)."
    );
    let drift = vec![
        probe(ClusterKind::Mainnet, Some("ffff0000aaaa"), None),
        probe(ClusterKind::Devnet, Some("0123456789abcdef"), None),
        probe(ClusterKind::Localnet, Some("ffff0000aaaa"), None),
    ];
    assert_eq!(
        summarise(&p, &drift, DriftStatus::Drift),
        "Token Metadata drifts: devnet: 01234567\u{2026} | mainnet+localnet: ffff0000\u{2026}"
    );
    assert_eq!(
        summarise(&p, &drift, DriftStatus::PartiallyDeployed),
        "Token Metadata is missing on at least one cluster \u{2014} deploy before cross-cluster work."
    );
    assert_eq!(
        summarise(&p, &drift, DriftStatus::Inconclusive),
        "Token Metadata lookups failed. Check RPC health and try again."
    );
}

#[test]
fn drift_targets_need_at_least_one_program() {
    let err = drift_targets(&request(Vec::new(), Vec::new(), true), vec![program("A", "a")]).unwrap_err();
    assert_eq!(err.code, "solana_drift_no_programs");
    assert_eq!(
        err.message,
        "Drift check needs at least one tracked program. Pass `additional` or unset `skip_builtins`."
    );
    let targets = drift_targets(&request(vec![program("B", "b")], Vec::new(), false), vec![program("A", "a")]).unwrap();
    let labels: Vec<&str> = targets.iter().map(|t| t.label.as_str()).collect();
    assert_eq!(labels, vec!["A", "B"]);
    let only_extra = drift_targets(&request(vec![program("B", "b")], Vec::new(), true), vec![program("A", "a")]).unwrap();
    assert_eq!(only_extra.len(), 1);
}

#[test]
fn drift_clusters_default_to_every_cluster() {
    assert_eq!(
        drift_clusters(&request(Vec::new(), Vec::new(), false)),
        vec![ClusterKind::Localnet, ClusterKind::MainnetFork, ClusterKind::Devnet, ClusterKind::Mainnet]
    );
    assert_eq!(drift_clusters(&request(Vec::new(), vec![ClusterKind::Devnet], false)), vec![ClusterKind::Devnet]);
}

#[test]
fn probe_plan_prefers_overrides_and_skips_unreachable_clusters() {
    let mut req = request(Vec::new(), Vec::new(), false);
    req.rpc_urls = vec![(ClusterKind::Devnet, "http://override".to_string())];
    let clusters = vec![ClusterKind::Localnet, ClusterKind::Devnet, ClusterKind::Mainnet, ClusterKind::Localnet];
    let healthy = vec![None, Some("http://devnet-healthy".to_string()), Some("http://main".to_string()), Some("http://local".to_string())];
    let (checked, urls) = plan_probes(&clusters, &req, &healthy);
    assert_eq!(checked, vec![ClusterKind::Devnet, ClusterKind::Mainnet, ClusterKind::Localnet]);
    assert_eq!(urls, vec!["http://override".to_string(), "http://main".to_string(), "http://local".to_string()]);
}

#[test]
fn probe_plan_uses_the_last_url_of_a_repeated_cluster() {
    let req = request(Vec::new(), Vec::new(), false);
    let clusters = vec![ClusterKind::Mainnet, ClusterKind::Mainnet];
    let healthy = vec![Some("http://first".to_string()), Some("http://second".to_string())];
    let (checked, urls) = plan_probes(&clusters, &req, &healthy);
    assert_eq!(checked, vec![ClusterKind::Mainnet, ClusterKind::Mainnet]);
    assert_eq!(urls, vec!["http://second".to_string(), "http://second".to_string()]);
}

#[test]
fn drift_report_sorts_entries_by_label_and_flags_drift() {
    let programs = vec![program("Zeta", "z"), program("Alpha", "a"), program("Mid", "m")];
    let probes = vec![
        vec![probe(ClusterKind::Devnet, Some("aa"), None), probe(ClusterKind::Mainnet, Some("bb"), None)],
        vec![probe(ClusterKind::Devnet, Some("aa"), None)],
        vec![probe(ClusterKind::Devnet, None, Some("program_not_found")), probe(ClusterKind::Mainnet, Some("cc"), None)],
    ];
    let report = assemble_drift_report(programs, probes, vec![ClusterKind::Devnet, ClusterKind::Mainnet], 12);
    let labels: Vec<&str> = report.entries.iter().map(|e| e.program.label.as_str()).collect();
    assert_eq!(labels, vec!["Alpha", "Mid", "Zeta"]);
    assert_eq!(report.entries[0].status, DriftStatus::InSync);
    assert_eq!(report.entries[1].status, DriftStatus::PartiallyDeployed);
    assert_eq!(report.entries[2].status, DriftStatus::Drift);
    assert_eq!(report.entries[2].summary, "Zeta drifts: devnet: aa\u{2026} | mainnet: bb\u{2026}");
    assert!(report.has_drift);
    assert_eq!(report.duration_ms, 12);
    assert_eq!(report.clusters_checked, vec![ClusterKind::Devnet, ClusterKind::Mainnet]);

    let calm = assemble_drift_report(vec![program("A", "a")], vec![vec![]], Vec::new(), 0);
    assert!(!calm.has_drift);
    assert_eq!(calm.entries[0].summary, "A has identical bytes across 0 cluster(s).");
}

#[test]
fn a_failed_lookup_beside_a_hash_is_inconclusive() {
    let probes = vec![
        probe(ClusterKind::Devnet, Some("abc"), None),
        probe(ClusterKind::Mainnet, None, Some("rpc: timeout")),
    ];
    assert_eq!(classify(&probes), DriftStatus::Inconclusive);
}
