use xero_core::workflow::{
    compute_workflow_handoff_package_hash, parse_workflow_gate_state, parse_workflow_transition_gate_decision,
    validate_rfc3339_timestamp, validate_workflow_graph_upsert_payload, validate_workflow_handoff_package_hash,
    workflow_gate_state_sql_value, workflow_transition_gate_decision_sql_value, PhaseStatus, WorkflowGateState,
    WorkflowGraphEdgeRecord, WorkflowGraphNodeRecord, WorkflowGraphUpsertRecord, WorkflowTransitionGateDecision,
};

fn node(id: &str, phase: u32, order: u32) -> WorkflowGraphNodeRecord {
    WorkflowGraphNodeRecord {
        node_id: id.into(),
        phase_id: phase,
        sort_order: order,
        name: format!("Node {id}"),
        description: String::new(),
        status: PhaseStatus::Pending,
        current_step: None,
        task_count: 2,
        completed_tasks: 1,
        summary: None,
    }
}

#[test]
fn package_hash_is_hex_sha256_and_passes_validation() {
    let h = compute_workflow_handoff_package_hash("abc");
    assert_eq!(h, "ba7816bf8f01cfea414140de5dae2223b00361a396177a9cb410ff61f20015ad");
    assert!(validate_workflow_handoff_package_hash(&h, "package_hash").is_ok());
    assert_eq!(
        validate_workflow_handoff_package_hash(&h.to_uppercase(), "package_hash").unwrap_err(),
        "Field `package_hash` must use lowercase hexadecimal characters."
    );
    assert_eq!(
        validate_workflow_handoff_package_hash("abc", "package_hash").unwrap_err(),
        "Field `package_hash` must be a 64-character hexadecimal hash."
    );
}

#[test]
fn gate_texts_round_trip() {
    for s in [WorkflowGateState::Pending, WorkflowGateState::Satisfied, WorkflowGateState::Blocked, WorkflowGateState::Skipped] {
        assert_eq!(parse_workflow_gate_state(workflow_gate_state_sql_value(&s)).unwrap(), s);
    }
    for d in [
        WorkflowTransitionGateDecision::Approved,
        WorkflowTransitionGateDecision::Rejected,
        WorkflowTransitionGateDecision::Blocked,
        WorkflowTransitionGateDecision::NotApplicable,
    ] {
        assert_eq!(parse_workflow_transition_gate_decision(workflow_transition_gate_decision_sql_value(&d)).unwrap(), d);
    }
    assert_eq!(
        parse_workflow_gate_state("open").unwrap_err(),
        "Field `gate_state` must be a known workflow gate state, found `open`."
    );
}

#[test]
fn graphs_need_distinct_nodes_and_known_edges() {
    let ok = WorkflowGraphUpsertRecord {
        nodes: vec![node("a", 1, 1), node("b", 2, 2)],
        edges: vec![WorkflowGraphEdgeRecord {
            from_node_id: "a".into(),
            to_node_id: "b".into(),
            transition_kind: "advance".into(),
            gate_requirement: None,
        }],
        gates: vec![],
    };
    assert!(validate_workflow_graph_upsert_payload(&ok).is_ok());
    let dup = WorkflowGraphUpsertRecord { nodes: vec![node("a", 1, 1), node("a", 2, 2)], edges: vec![], gates: vec![] };
    let e = validate_workflow_graph_upsert_payload(&dup).unwrap_err();
    assert_eq!(e.code, "workflow_graph_request_invalid");
    assert_eq!(e.message, "Workflow graph contains duplicate node id `a`.");
    let mut over = node("a", 1, 1);
    over.completed_tasks = 5;
    let e = validate_workflow_graph_upsert_payload(&WorkflowGraphUpsertRecord { nodes: vec![over], edges: vec![], gates: vec![] })
        .unwrap_err();
    assert_eq!(e.message, "Workflow node `a` has completed_tasks (5) greater than task_count (2).");
}

#[test]
fn timestamps_must_be_rfc3339() {
    assert!(validate_rfc3339_timestamp("2026-04-30T12:00:00Z", "occurred_at", "code").is_ok());
    assert!(validate_rfc3339_timestamp("yesterday", "occurred_at", "code").is_err());
}
