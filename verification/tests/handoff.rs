use xero_core::error::{CommandError, CommandErrorClass};
use xero_core::handoff::{
    assemble_workflow_handoff_package_payload, ensure_workflow_handoff_safe_text,
    map_workflow_handoff_build_dependency_error, planning_lifecycle_stage_label,
    validate_workflow_handoff_lifecycle_projection, validate_workflow_handoff_request,
    workflow_handoff_package_upsert_record, workflow_handoff_transition_missing_error, OperatorApprovalDto,
    OperatorApprovalStatus, PlanningLifecycleStageDto, PlanningLifecycleStageKindDto, ResumeHistoryEntryDto,
};
use xero_core::workflow::{
    PhaseStatus, WorkflowGateMetadataRecord, WorkflowGateState, WorkflowGraphNodeRecord,
    WorkflowTransitionEventRecord, WorkflowTransitionGateDecision,
};

fn transition(id: &str, causal: Option<&str>) -> WorkflowTransitionEventRecord {
    WorkflowTransitionEventRecord {
        id: 1,
        transition_id: id.into(),
        causal_transition_id: causal.map(String::from),
        from_node_id: "plan".into(),
        to_node_id: "build".into(),
        transition_kind: "advance".into(),
        gate_decision: WorkflowTransitionGateDecision::Approved,
        gate_decision_context: Some("ok".into()),
        created_at: "2026-02-01T00:00:00Z".into(),
    }
}

fn node(id: &str, description: &str) -> WorkflowGraphNodeRecord {
    WorkflowGraphNodeRecord {
        node_id: id.into(),
        phase_id: 2,
        sort_order: 2,
        name: "Build".into(),
        description: description.into(),
        status: PhaseStatus::Active,
        current_step: None,
        task_count: 3,
        completed_tasks: 1,
        summary: None,
    }
}

fn gate(node: &str, key: &str, state: WorkflowGateState, action: Option<&str>) -> WorkflowGateMetadataRecord {
    WorkflowGateMetadataRecord {
        node_id: node.into(),
        gate_key: key.into(),
        gate_state: state,
        action_type: action.map(String::from),
        title: None,
        detail: Some("d".into()),
        decision_context: None,
    }
}

fn stage(kind: PlanningLifecycleStageKindDto, node: &str) -> PlanningLifecycleStageDto {
    PlanningLifecycleStageDto { stage: kind, node_id: node.into() }
}

fn approval(id: &str, status: OperatorApprovalStatus, to: Option<&str>) -> OperatorApprovalDto {
    OperatorApprovalDto {
        action_id: id.into(),
        action_type: "approve".into(),
        status,
        gate_node_id: Some("build".into()),
        gate_key: Some("review".into()),
        transition_from_node_id: Some("plan".into()),
        transition_to_node_id: to.map(String::from),
        transition_kind: Some("advance".into()),
        created_at: "c".into(),
        updated_at: "u".into(),
    }
}

fn resume(source: Option<&str>, status: &str) -> ResumeHistoryEntryDto {
    ResumeHistoryEntryDto { source_action_id: source.map(String::from), status: status.into(), created_at: "r".into() }
}

#[test]
fn package_payload_collects_destination_lifecycle_and_operator_state() {
    let payload = assemble_workflow_handoff_package_payload(
        &transition("t-1", None),
        Ok(vec![node("plan", "p"), node("build", "Build it")]),
        Ok(vec![
            gate("build", "zeta", WorkflowGateState::Satisfied, None),
            gate("build", "alpha", WorkflowGateState::Blocked, Some("approve")),
            gate("plan", "other", WorkflowGateState::Pending, None),
            gate("build", "alpha", WorkflowGateState::Pending, None),
        ]),
        Ok(vec![
            stage(PlanningLifecycleStageKindDto::Discussion, "discuss"),
            stage(PlanningLifecycleStageKindDto::Roadmap, "roadmap"),
        ]),
        Ok(vec![
            approval("b-action", OperatorApprovalStatus::Pending, Some("build")),
            approval("a-action", OperatorApprovalStatus::Pending, Some("build")),
            approval("c-action", OperatorApprovalStatus::Approved, Some("build")),
            approval("d-action", OperatorApprovalStatus::Pending, Some("plan")),
            approval("e-action", OperatorApprovalStatus::Pending, None),
        ]),
        Ok(vec![resume(Some("zzz"), "started"), resume(Some("a-action"), "failed"), resume(None, "started")]),
    )
    .expect("assembled");
    assert_eq!(payload.schema_version, 1);
    assert_eq!(payload.trigger_transition.transition_id, "t-1");
    assert_eq!(payload.trigger_transition.gate_decision, "approved");
    assert!(payload.trigger_transition.gate_decision_context_present);
    assert_eq!(payload.trigger_transition.occurred_at, "2026-02-01T00:00:00Z");
    let dest = &payload.destination_state;
    assert_eq!(dest.node_id, "build");
    assert_eq!(dest.description, "Build it");
    let gates: Vec<(&str, &str)> = dest.gates.iter().map(|g| (g.gate_key.as_str(), g.gate_state.as_str())).collect();
    assert_eq!(gates, vec![("alpha", "blocked"), ("alpha", "pending"), ("zeta", "satisfied")]);
    assert_eq!(dest.pending_gate_count, 2);
    assert!(dest.gates[0].detail_present);
    assert_eq!(payload.lifecycle_projection.stages.len(), 2);
    let actions: Vec<&str> = payload
        .operator_continuity
        .pending_gate_actions
        .iter()
        .map(|a| a.action_id.as_str())
        .collect();
    assert_eq!(actions, vec!["a-action", "b-action"]);
    assert_eq!(payload.operator_continuity.pending_gate_action_count, 2);
    let latest = payload.operator_continuity.latest_resume.as_ref().expect("resume");
    assert_eq!(latest.source_action_id.as_deref(), Some("a-action"));
    assert_eq!(latest.status, "failed");
}

#[test]
fn latest_resume_is_the_newest_entry_without_pending_actions() {
    let payload = assemble_workflow_handoff_package_payload(
        &transition("t-1", None),
        Ok(vec![node("build", "b")]),
        Ok(vec![]),
        Ok(vec![]),
        Ok(vec![]),
        Ok(vec![resume(None, "started"), resume(Some("x"), "failed")]),
    )
    .expect("assembled");
    let latest = payload.operator_continuity.latest_resume.expect("resume");
    assert_eq!(latest.source_action_id, None);
    assert_eq!(latest.status, "started");
}

#[test]
fn automatic_transitions_need_their_cause() {
    let e = assemble_workflow_handoff_package_payload(
        &transition("auto:t-1:abc", None),
        Ok(vec![]),
        Ok(vec![]),
        Ok(vec![]),
        Ok(vec![]),
        Ok(vec![]),
    )
    .unwrap_err();
    assert_eq!(e.code, "workflow_handoff_build_causal_missing");
    assert_eq!(e.class, CommandErrorClass::SystemFault);
    assert_eq!(
        e.message,
        "Cadence cannot assemble workflow handoff package `auto:t-1:abc` because automatic transitions must retain causal transition linkage."
    );
}

#[test]
fn missing_destination_and_failed_loads_are_reported_in_order() {
    let e = assemble_workflow_handoff_package_payload(
        &transition("t-1", None),
        Ok(vec![node("plan", "p")]),
        Err(CommandError::retryable("db_busy", "busy")),
        Ok(vec![]),
        Ok(vec![]),
        Ok(vec![]),
    )
    .unwrap_err();
    assert_eq!(e.code, "workflow_handoff_build_target_missing");
    assert_eq!(
        e.message,
        "Cadence cannot assemble workflow handoff package `t-1` because destination node `build` metadata is missing."
    );
    let e = assemble_workflow_handoff_package_payload(
        &transition("t-1", None),
        Ok(vec![node("build", "b")]),
        Err(CommandError::retryable("db_busy", "busy")),
        Ok(vec![]),
        Ok(vec![]),
        Ok(vec![]),
    )
    .unwrap_err();
    assert_eq!(e.code, "workflow_handoff_build_gate_state_invalid");
    assert_eq!(e.class, CommandErrorClass::Retryable);
    assert!(e.retryable);
    assert_eq!(
        e.message,
        "Cadence could not assemble workflow handoff package because destination gate state could not be loaded: busy"
    );
}

#[test]
fn secret_bearing_texts_are_refused() {
    let e = assemble_workflow_handoff_package_payload(
        &transition("t-1", None),
        Ok(vec![node("build", "uses Authorization: Bearer abc")]),
        Ok(vec![]),
        Ok(vec![]),
        Ok(vec![]),
        Ok(vec![]),
    )
    .unwrap_err();
    assert_eq!(e.code, "workflow_handoff_redaction_failed");
    assert_eq!(
        e.message,
        "Cadence refused to assemble workflow handoff package because `destinationState.description` contained authorization headers. Remove secret-bearing transcript/tool/auth content before retrying."
    );
    assert!(ensure_workflow_handoff_safe_text("plain text", "f").is_ok());
}

#[test]
fn lifecycle_stages_appear_once_in_canonical_order() {
    let ok = vec![
        stage(PlanningLifecycleStageKindDto::Discussion, "a"),
        stage(PlanningLifecycleStageKindDto::Requirements, "b"),
    ];
    assert!(validate_workflow_handoff_lifecycle_projection(&ok, "t").is_ok());
    let twice = vec![
        stage(PlanningLifecycleStageKindDto::Research, "a"),
        stage(PlanningLifecycleStageKindDto::Research, "b"),
    ];
    let e = validate_workflow_handoff_lifecycle_projection(&twice, "t").unwrap_err();
    assert_eq!(e.code, "workflow_handoff_build_lifecycle_invalid");
    assert_eq!(
        e.message,
        "Cadence cannot assemble workflow handoff package `t` because lifecycle stage `research` appears more than once."
    );
    let backwards = vec![
        stage(PlanningLifecycleStageKindDto::Roadmap, "a"),
        stage(PlanningLifecycleStageKindDto::Discussion, "b"),
    ];
    let e = validate_workflow_handoff_lifecycle_projection(&backwards, "t").unwrap_err();
    assert_eq!(
        e.message,
        "Cadence cannot assemble workflow handoff package `t` because lifecycle stages are not in canonical order."
    );
    assert_eq!(planning_lifecycle_stage_label(&PlanningLifecycleStageKindDto::Roadmap), "roadmap");
}

#[test]
fn dependency_errors_keep_their_class_under_the_build_code() {
    let e = map_workflow_handoff_build_dependency_error(
        "workflow_handoff_build_node_state_invalid",
        "workflow node state",
        CommandError::policy_denied("no"),
    );
    assert_eq!(e.class, CommandErrorClass::UserFixable);
    assert_eq!(e.code, "workflow_handoff_build_node_state_invalid");
    assert_eq!(
        e.message,
        "Cadence could not assemble workflow handoff package because workflow node state could not be loaded: no"
    );
    let e = map_workflow_handoff_build_dependency_error("c", "d", CommandError::system_fault("x", "y"));
    assert_eq!(e.class, CommandErrorClass::SystemFault);
}

#[test]
fn upsert_record_stores_the_canonical_payload() {
    let t = transition("t-1", Some("t-0"));
    let r = workflow_handoff_package_upsert_record("p-1", &t, Ok("{\"b\":1,\"a\":{\"d\":2,\"c\":3}}".into()), "/db")
        .expect("record");
    assert_eq!(r.package_payload, "{\"a\":{\"c\":3,\"d\":2},\"b\":1}");
    assert_eq!(r.project_id, "p-1");
    assert_eq!(r.handoff_transition_id, "t-1");
    assert_eq!(r.causal_transition_id.as_deref(), Some("t-0"));
    assert_eq!(r.created_at, "2026-02-01T00:00:00Z");
    let e = workflow_handoff_package_upsert_record("p-1", &t, Err("boom".into()), "/db").unwrap_err();
    assert_eq!(e.code, "workflow_handoff_serialize_failed");
    assert_eq!(e.message, "Cadence could not serialize workflow handoff package payload in /db: boom");
    let e = workflow_handoff_package_upsert_record("p-1", &t, Ok("{\"k\":\"api_key=1\"}".into()), "/db").unwrap_err();
    assert_eq!(e.code, "workflow_handoff_redaction_failed");
    assert_eq!(
        e.message,
        "Cadence refused to assemble workflow handoff package because serialized payload contained API keys. Remove secret-bearing transcript/tool/auth content before retrying."
    );
}

#[test]
fn handoff_requests_name_project_and_transition() {
    let e = validate_workflow_handoff_request(" ", "t").unwrap_err();
    assert_eq!(e.code, "workflow_handoff_request_invalid");
    assert_eq!(e.message, "Field `project_id` must be a non-empty string.");
    assert!(validate_workflow_handoff_request("p", "t").is_ok());
    let e = workflow_handoff_transition_missing_error("t-9", "p-1");
    assert_eq!(
        e.message,
        "Cadence could not assemble a workflow handoff package because transition `t-9` is not present for project `p-1`."
    );
}
