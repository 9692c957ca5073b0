use xero_core::dispatch::{
    derive_auto_dispatch_operator_scope, format_unresolved_dispatch_candidate_summary,
    is_plan_mode_required_gate_key, resolve_automatic_dispatch_candidate, select_unresolved_dispatch_approval,
    WorkflowAutomaticDispatchCandidateResolution, WorkflowAutomaticDispatchPlanModeRequirement,
    WorkflowAutomaticDispatchUnresolvedContinuationCandidate, WorkflowAutomaticDispatchUnresolvedGateCandidate,
};
use xero_core::workflow::{
    PhaseStatus, WorkflowGateMetadataRecord, WorkflowGateState, WorkflowGraphEdgeRecord, WorkflowGraphNodeRecord,
};

fn node(id: &str) -> WorkflowGraphNodeRecord {
    WorkflowGraphNodeRecord {
        node_id: id.into(),
        phase_id: 1,
        sort_order: 1,
        name: id.into(),
        description: String::new(),
        status: PhaseStatus::Pending,
        current_step: None,
        task_count: 0,
        completed_tasks: 0,
        summary: None,
    }
}

fn edge(from: &str, to: &str, kind: &str, gate: Option<&str>) -> WorkflowGraphEdgeRecord {
    WorkflowGraphEdgeRecord {
        from_node_id: from.into(),
        to_node_id: to.into(),
        transition_kind: kind.into(),
        gate_requirement: gate.map(String::from),
    }
}

fn gate(node: &str, key: &str, state: WorkflowGateState) -> WorkflowGateMetadataRecord {
    WorkflowGateMetadataRecord {
        node_id: node.into(),
        gate_key: key.into(),
        gate_state: state,
        action_type: Some(" approve ".into()),
        title: Some("Title".into()),
        detail: Some("Detail".into()),
        decision_context: None,
    }
}

const DISABLED: WorkflowAutomaticDispatchPlanModeRequirement = WorkflowAutomaticDispatchPlanModeRequirement::Disabled;

#[test]
fn a_single_open_edge_is_the_candidate() {
    let nodes = vec![node("a"), node("b")];
    let r = resolve_automatic_dispatch_candidate(&nodes, vec![edge("a", "b", "advance", None)], &vec![], "a", DISABLED)
        .unwrap();
    match r {
        WorkflowAutomaticDispatchCandidateResolution::Candidate(c) => {
            assert_eq!(c.to_node_id, "b");
            assert_eq!(c.transition_kind, "advance");
        }
        other => panic!("unexpected {other:?}"),
    }
    let r = resolve_automatic_dispatch_candidate(&nodes, vec![edge("b", "a", "back", None)], &vec![], "a", DISABLED)
        .unwrap();
    assert!(matches!(r, WorkflowAutomaticDispatchCandidateResolution::NoContinuation));
}

#[test]
fn missing_source_or_target_is_refused() {
    let nodes = vec![node("a")];
    let e = resolve_automatic_dispatch_candidate(&nodes, vec![], &vec![], "zz", DISABLED).unwrap_err();
    assert_eq!(e.code, "workflow_transition_auto_dispatch_source_missing");
    assert_eq!(
        e.message,
        "Cadence cannot resolve automatic continuation from `zz` because the workflow node is missing."
    );
    let e = resolve_automatic_dispatch_candidate(&nodes, vec![edge("a", "b", "advance", None)], &vec![], "a", DISABLED)
        .unwrap_err();
    assert_eq!(e.code, "workflow_transition_illegal_edge");
    assert_eq!(
        e.message,
        "Cadence cannot automatically dispatch `a` -> `b` (advance) because target node `b` does not exist."
    );
}

#[test]
fn two_open_edges_are_ambiguous() {
    let nodes = vec![node("a"), node("b"), node("c")];
    let e = resolve_automatic_dispatch_candidate(
        &nodes,
        vec![edge("a", "c", "advance", None), edge("a", "b", "advance", None)],
        &vec![],
        "a",
        DISABLED,
    )
    .unwrap_err();
    assert_eq!(e.code, "workflow_transition_ambiguous_next_step");
    assert_eq!(
        e.message,
        "Cadence cannot auto-dispatch from `a` because multiple legal continuation edges exist (a->b:advance, a->c:advance)."
    );
}

#[test]
fn pending_gates_hold_an_edge_back() {
    let nodes = vec![node("a"), node("b")];
    let gates = vec![gate("b", "review", WorkflowGateState::Pending), gate("b", "done", WorkflowGateState::Satisfied)];
    let r = resolve_automatic_dispatch_candidate(&nodes, vec![edge("a", "b", "advance", Some("review"))], &gates, "a", DISABLED)
        .unwrap();
    let blocked = match r {
        WorkflowAutomaticDispatchCandidateResolution::Unresolved { completed_node_id, blocked_candidates } => {
            assert_eq!(completed_node_id, "a");
            blocked_candidates
        }
        other => panic!("unexpected {other:?}"),
    };
    assert_eq!(blocked.len(), 1);
    assert_eq!(blocked[0].unresolved_gates.len(), 1);
    assert_eq!(format_unresolved_dispatch_candidate_summary(&blocked), "a->b:advance gate=review [b:review:pending]");
    let approval = select_unresolved_dispatch_approval(&blocked).expect("approval");
    assert_eq!(approval.gate_link.gate_key, "review");
    assert_eq!(approval.gate_link.transition_to_node_id, "b");
    assert_eq!(approval.action_type, "approve");
    assert_eq!(approval.title, "Title");

    let e = resolve_automatic_dispatch_candidate(&nodes, vec![edge("a", "b", "advance", Some("nope"))], &gates, "a", DISABLED)
        .unwrap_err();
    assert_eq!(e.code, "workflow_transition_auto_dispatch_gate_mapping_invalid");
    assert_eq!(
        e.message,
        "Cadence found invalid automatic-dispatch gate mapping for `a` -> `b` (advance) because required gate `nope` is missing on target node `b`."
    );
}

fn blocked(gates: Vec<WorkflowAutomaticDispatchUnresolvedGateCandidate>, req: Option<&str>) -> WorkflowAutomaticDispatchUnresolvedContinuationCandidate {
    WorkflowAutomaticDispatchUnresolvedContinuationCandidate {
        from_node_id: "a".into(),
        to_node_id: "b".into(),
        transition_kind: "advance".into(),
        gate_requirement: req.map(String::from),
        unresolved_gates: gates,
    }
}

fn ugate(node: &str, key: &str, action: Option<&str>) -> WorkflowAutomaticDispatchUnresolvedGateCandidate {
    WorkflowAutomaticDispatchUnresolvedGateCandidate {
        gate_node_id: node.into(),
        gate_key: key.into(),
        gate_state: WorkflowGateState::Blocked,
        action_type: action.map(String::from),
        title: Some("t".into()),
        detail: Some("d".into()),
    }
}

#[test]
fn approvals_need_one_actionable_gate_on_the_target() {
    let e = select_unresolved_dispatch_approval(&vec![]).unwrap_err();
    assert_eq!(
        e.message,
        "Cadence skipped automatic dispatch because no unresolved continuation candidates were available for persistence."
    );
    let e = select_unresolved_dispatch_approval(&vec![blocked(vec![ugate("b", "k", Some("x"))], None); 2]).unwrap_err();
    assert!(e.message.starts_with("Cadence skipped automatic dispatch because unresolved continuation metadata was ambiguous ("));
    let e = select_unresolved_dispatch_approval(&vec![blocked(vec![ugate("b", "k", Some("x"))], Some("other"))]).unwrap_err();
    assert_eq!(
        e.message,
        "Cadence skipped automatic dispatch for `a` -> `b` (advance) because required gate linkage could not be resolved from unresolved metadata."
    );
    let e = select_unresolved_dispatch_approval(&vec![blocked(vec![ugate("b", "k", Some("x")), ugate("b", "j", Some("y"))], None)])
        .unwrap_err();
    assert!(e.message.ends_with("because unresolved gate metadata was ambiguous for deterministic approval persistence."));
    let e = select_unresolved_dispatch_approval(&vec![blocked(vec![ugate("c", "k", Some("x"))], None)]).unwrap_err();
    assert_eq!(e.code, "runtime_action_request_invalid");
    assert_eq!(
        e.message,
        "Cadence could not persist gate-unmet auto-dispatch approval because gate node `c` did not match continuation target `b`."
    );
    let e = select_unresolved_dispatch_approval(&vec![blocked(vec![ugate("b", "k", Some("  "))], None)]).unwrap_err();
    assert_eq!(
        e.message,
        "Cadence skipped automatic dispatch for `a` -> `b` (advance) because unresolved gate `k` is non-actionable (missing `action_type`)."
    );
}

#[test]
fn operator_scope_prefers_the_runtime_session() {
    let (session, flow) = derive_auto_dispatch_operator_scope("p", "t", None, None).unwrap();
    assert_eq!(session, "workflow-auto-dispatch:p");
    assert_eq!(flow.as_deref(), Some("workflow-auto-dispatch:p:t"));
    let (session, flow) = derive_auto_dispatch_operator_scope("p", "t", Some(" flow-1 "), Some("  ")).unwrap();
    assert_eq!(session, "workflow-auto-dispatch:p");
    assert_eq!(flow.as_deref(), Some("flow-1"));
    let (session, flow) = derive_auto_dispatch_operator_scope("p", "t", None, Some("s-1")).unwrap();
    assert_eq!(session, "s-1");
    assert_eq!(flow, None);
}

#[test]
fn plan_mode_gate_key_is_trimmed() {
    assert!(is_plan_mode_required_gate_key("  plan_mode_required "));
    assert!(!is_plan_mode_required_gate_key("plan_mode"));
}
