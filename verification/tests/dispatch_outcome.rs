use xero_core::dispatch::WorkflowAutomaticDispatchPlanModeRequirement;
use xero_core::dispatch_outcome::{
    applied_transition_event, automatic_dispatch_outcome_from_error, gate_unmet_outcome, persisted_package_outcome,
    plan_mode_requirement_from, replayed_package_outcome, WorkflowAutomaticDispatchOutcome,
    WorkflowAutomaticDispatchPackageOutcome, WorkflowHandoffPackagePersistDisposition,
    WorkflowHandoffPackagePersistResult,
};
use xero_core::error::{CommandError, CommandErrorClass};
use xero_core::workflow::{WorkflowHandoffPackageRecord, WorkflowTransitionEventRecord, WorkflowTransitionGateDecision};

fn event(id: &str) -> WorkflowTransitionEventRecord {
    WorkflowTransitionEventRecord {
        id: 7,
        transition_id: id.into(),
        causal_transition_id: Some("cause".into()),
        from_node_id: "plan".into(),
        to_node_id: "build".into(),
        transition_kind: "advance".into(),
        gate_decision: WorkflowTransitionGateDecision::NotApplicable,
        gate_decision_context: None,
        created_at: "2026-02-01T00:00:00Z".into(),
    }
}

fn package(transition_id: &str) -> WorkflowHandoffPackageRecord {
    WorkflowHandoffPackageRecord {
        id: 3,
        project_id: "project-1".into(),
        handoff_transition_id: transition_id.into(),
        causal_transition_id: Some("cause".into()),
        from_node_id: "plan".into(),
        to_node_id: "build".into(),
        transition_kind: "advance".into(),
        package_payload: "{}".into(),
        package_hash: "0".repeat(64),
        created_at: "2026-02-01T00:00:00Z".into(),
    }
}

fn error(code: &str) -> CommandError {
    CommandError { code: code.into(), class: CommandErrorClass::Retryable, message: "failed".into(), retryable: true }
}

fn skipped_code(o: &WorkflowAutomaticDispatchPackageOutcome) -> Option<&str> {
    match o {
        WorkflowAutomaticDispatchPackageOutcome::Skipped { code, .. } => Some(code.as_str()),
        _ => None,
    }
}

#[test]
fn replayed_packages_need_a_linked_row() {
    let ev = event("auto:1");
    let missing = replayed_package_outcome(Ok(None), &ev, "/db");
    match &missing {
        WorkflowAutomaticDispatchPackageOutcome::Skipped { code, message } => {
            assert_eq!(code, "workflow_handoff_replay_not_found");
            assert_eq!(
                message,
                "Cadence replayed automatic transition `auto:1` in /db but no workflow handoff package row exists for that transition."
            );
        },
        other => panic!("unexpected {other:?}"),
    }
    let replayed = replayed_package_outcome(Ok(Some(package("auto:1"))), &ev, "/db");
    assert!(matches!(replayed, WorkflowAutomaticDispatchPackageOutcome::Replayed { .. }));
    let other = replayed_package_outcome(Ok(Some(package("auto:2"))), &ev, "/db");
    assert_eq!(skipped_code(&other), Some("workflow_handoff_linkage_mismatch"));
    let failed = replayed_package_outcome(Err(error("read_failed")), &ev, "/db");
    assert_eq!(skipped_code(&failed), Some("read_failed"));
}

#[test]
fn persisted_packages_keep_their_disposition() {
    let ev = event("auto:1");
    let written = persisted_package_outcome(
        Ok(WorkflowHandoffPackagePersistResult {
            package: package("auto:1"),
            disposition: WorkflowHandoffPackagePersistDisposition::Persisted,
        }),
        &ev,
    );
    assert!(matches!(written, WorkflowAutomaticDispatchPackageOutcome::Persisted { .. }));
    let found = persisted_package_outcome(
        Ok(WorkflowHandoffPackagePersistResult {
            package: package("auto:1"),
            disposition: WorkflowHandoffPackagePersistDisposition::Replayed,
        }),
        &ev,
    );
    assert!(matches!(found, WorkflowAutomaticDispatchPackageOutcome::Replayed { .. }));
    let failed = persisted_package_outcome(Err(error("persist_failed")), &ev);
    assert_eq!(skipped_code(&failed), Some("persist_failed"));
}

#[test]
fn applied_transitions_are_read_back() {
    assert_eq!(applied_transition_event(Ok(Some(event("auto:1"))), "auto:1", "/db").unwrap().transition_id, "auto:1");
    match applied_transition_event(Ok(None), "auto:1", "/db") {
        Err(WorkflowAutomaticDispatchOutcome::Skipped { code, message }) => {
            assert_eq!(code, "workflow_transition_auto_dispatch_event_missing_after_persist");
            assert_eq!(message, "Cadence persisted automatic transition `auto:1` in /db but could not read it back.");
        },
        other => panic!("unexpected {other:?}"),
    }
    match automatic_dispatch_outcome_from_error(error("boom")) {
        WorkflowAutomaticDispatchOutcome::Skipped { code, message } => {
            assert_eq!(code, "boom");
            assert_eq!(message, "failed");
        },
        other => panic!("unexpected {other:?}"),
    }
}

#[test]
fn plan_mode_requirement_follows_the_selected_session() {
    assert_eq!(plan_mode_requirement_from(false, Ok(Some(true))).unwrap(), WorkflowAutomaticDispatchPlanModeRequirement::Unknown);
    assert_eq!(plan_mode_requirement_from(true, Ok(Some(true))).unwrap(), WorkflowAutomaticDispatchPlanModeRequirement::Required);
    assert_eq!(plan_mode_requirement_from(true, Ok(Some(false))).unwrap(), WorkflowAutomaticDispatchPlanModeRequirement::Disabled);
    assert_eq!(plan_mode_requirement_from(true, Ok(None)).unwrap(), WorkflowAutomaticDispatchPlanModeRequirement::Unknown);
    assert_eq!(plan_mode_requirement_from(true, Err(error("runtime_run_decode_failed"))).unwrap(), WorkflowAutomaticDispatchPlanModeRequirement::Unknown);
    assert_eq!(plan_mode_requirement_from(true, Err(error("db_locked"))).unwrap_err().code, "db_locked");
}

#[test]
fn gate_unmet_skip_names_the_pending_approval() {
    match gate_unmet_outcome("plan", "build (gate `review`)", "action-1", "Queued 1 notification.") {
        WorkflowAutomaticDispatchOutcome::Skipped { code, message } => {
            assert_eq!(code, "workflow_transition_gate_unmet");
            assert_eq!(
                message,
                "Cadence skipped automatic dispatch from `plan` because continuation edges are still blocked by unresolved gates: build (gate `review`). Persisted pending operator approval `action-1` for deterministic replay. Queued 1 notification."
            );
        },
        other => panic!("unexpected {other:?}"),
    }
}

use xero_core::dispatch::WorkflowAutomaticDispatchCandidateResolution;
use xero_core::dispatch_outcome::replayed_write_outcome;
use xero_core::dispatch_step::{
    next_auto_dispatch_step, AutoDispatchAction, AutoDispatchEvent, WorkflowTransitionMutationApplyOutcome,
};

#[test]
fn dispatch_steps_follow_the_database_answers() {
    let a = next_auto_dispatch_step(
        AutoDispatchEvent::PlanModeRead { session_selected: true, snapshot: Ok(Some(true)) },
        "/db",
    );
    assert!(matches!(a, AutoDispatchAction::ResolveCandidate(WorkflowAutomaticDispatchPlanModeRequirement::Required)));
    let a = next_auto_dispatch_step(
        AutoDispatchEvent::CandidateResolved(Ok(WorkflowAutomaticDispatchCandidateResolution::NoContinuation)),
        "/db",
    );
    assert!(matches!(a, AutoDispatchAction::Finish(WorkflowAutomaticDispatchOutcome::NoContinuation)));
    let a = next_auto_dispatch_step(
        AutoDispatchEvent::TransitionApplied {
            transition_id: "auto:1".into(),
            applied: Ok(WorkflowTransitionMutationApplyOutcome::Applied),
        },
        "/db",
    );
    assert!(matches!(a, AutoDispatchAction::CommitTransition(ref t) if t == "auto:1"));
    let a = next_auto_dispatch_step(
        AutoDispatchEvent::TransitionReadBack { transition_id: "auto:1".into(), read: Ok(None) },
        "/db",
    );
    match a {
        AutoDispatchAction::Finish(WorkflowAutomaticDispatchOutcome::Skipped { code, .. }) => {
            assert_eq!(code, "workflow_transition_auto_dispatch_event_missing_after_persist")
        },
        other => panic!("unexpected {other:?}"),
    }
    let a = next_auto_dispatch_step(
        AutoDispatchEvent::PackagePersisted {
            transition_event: event("auto:1"),
            persisted: Ok(WorkflowHandoffPackagePersistResult {
                package: package("auto:1"),
                disposition: WorkflowHandoffPackagePersistDisposition::Persisted,
            }),
        },
        "/db",
    );
    assert!(matches!(
        a,
        AutoDispatchAction::Finish(WorkflowAutomaticDispatchOutcome::Applied {
            handoff_package: WorkflowAutomaticDispatchPackageOutcome::Persisted { .. },
            ..
        })
    ));
    let a = next_auto_dispatch_step(
        AutoDispatchEvent::NotificationsEnqueued {
            completed_node_id: "plan".into(),
            blocked_summary: "s".into(),
            action_id: "act".into(),
            note: "n".into(),
        },
        "/db",
    );
    match a {
        AutoDispatchAction::Finish(WorkflowAutomaticDispatchOutcome::Skipped { code, .. }) => {
            assert_eq!(code, "workflow_transition_gate_unmet")
        },
        other => panic!("unexpected {other:?}"),
    }
}

#[test]
fn replayed_writes_need_the_same_hash() {
    let stored = package("auto:1");
    let hash = stored.package_hash.clone();
    let ok = replayed_write_outcome(Some(stored.clone()), "auto:1", &hash, "/db").unwrap();
    assert_eq!(ok.disposition, WorkflowHandoffPackagePersistDisposition::Replayed);
    let e = replayed_write_outcome(Some(stored), "auto:1", "abc", "/db").unwrap_err();
    assert_eq!(e.code, "workflow_handoff_hash_conflict");
    assert_eq!(
        e.message,
        format!("Cadence refused to overwrite replayed workflow handoff package for transition `auto:1` because stored hash `{hash}` did not match derived hash `abc` in /db.")
    );
    let e = replayed_write_outcome(None, "auto:1", "abc", "/db").unwrap_err();
    assert_eq!(e.code, "workflow_handoff_missing_after_replay");
}
