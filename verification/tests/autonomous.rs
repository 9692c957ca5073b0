use xero_core::autonomous::{
    autonomous_run_status_sql_value, autonomous_unit_status_sql_value, parse_autonomous_run_status,
    parse_autonomous_unit_status, AutonomousRunStatus, AutonomousUnitStatus,
};
use xero_core::autonomous_history::{autonomous_unit_status_is_open, rollover_autonomous_unit_status};

const RUN_STATUSES: [AutonomousRunStatus; 10] = [
    AutonomousRunStatus::Starting,
    AutonomousRunStatus::Running,
    AutonomousRunStatus::Paused,
    AutonomousRunStatus::Cancelling,
    AutonomousRunStatus::Cancelled,
    AutonomousRunStatus::Stale,
    AutonomousRunStatus::Failed,
    AutonomousRunStatus::Stopped,
    AutonomousRunStatus::Crashed,
    AutonomousRunStatus::Completed,
];

#[test]
fn status_texts_round_trip() {
    for s in RUN_STATUSES {
        assert_eq!(parse_autonomous_run_status(autonomous_run_status_sql_value(&s)).unwrap(), s);
    }
    for s in [
        AutonomousUnitStatus::Pending,
        AutonomousUnitStatus::Active,
        AutonomousUnitStatus::Blocked,
        AutonomousUnitStatus::Paused,
        AutonomousUnitStatus::Completed,
        AutonomousUnitStatus::Cancelled,
        AutonomousUnitStatus::Failed,
    ] {
        assert_eq!(parse_autonomous_unit_status(autonomous_unit_status_sql_value(&s)).unwrap(), s);
    }
    assert!(parse_autonomous_run_status("sleeping").is_err());
}

#[test]
fn rollover_closes_every_unit() {
    for s in RUN_STATUSES {
        assert!(!autonomous_unit_status_is_open(&rollover_autonomous_unit_status(&s)));
    }
    assert_eq!(rollover_autonomous_unit_status(&AutonomousRunStatus::Cancelled), AutonomousUnitStatus::Cancelled);
    assert_eq!(rollover_autonomous_unit_status(&AutonomousRunStatus::Crashed), AutonomousUnitStatus::Failed);
    assert_eq!(rollover_autonomous_unit_status(&AutonomousRunStatus::Stopped), AutonomousUnitStatus::Completed);
    assert!(autonomous_unit_status_is_open(&AutonomousUnitStatus::Paused));
    assert!(!autonomous_unit_status_is_open(&AutonomousUnitStatus::Completed));
}

use xero_core::autonomous::{
    AutonomousRunRecord, AutonomousRunUpsertRecord, AutonomousUnitAttemptRecord, AutonomousUnitHistoryRecord,
    AutonomousUnitKind, AutonomousUnitRecord,
};
use xero_core::autonomous_rollover::{
    check_runtime_run_identity, plan_attempt_rollover, plan_unit_rollover, rollover_timestamp, select_open_attempt,
    select_open_unit, select_snapshot_entries, RuntimeRunIdentity,
};

fn run_record() -> AutonomousRunRecord {
    AutonomousRunRecord {
        project_id: "project-1".into(),
        agent_session_id: "session-1".into(),
        run_id: "run-1".into(),
        runtime_kind: "openai_codex".into(),
        provider_id: "openai_codex".into(),
        supervisor_kind: "owned_agent".into(),
        status: AutonomousRunStatus::Running,
        active_unit_sequence: None,
        duplicate_start_detected: false,
        duplicate_start_run_id: None,
        duplicate_start_reason: None,
        started_at: "2026-01-01T00:00:00Z".into(),
        last_heartbeat_at: None,
        last_checkpoint_at: None,
        paused_at: None,
        cancelled_at: None,
        completed_at: None,
        crashed_at: None,
        stopped_at: None,
        pause_reason: None,
        cancel_reason: None,
        crash_reason: None,
        last_error: None,
        updated_at: "2026-01-01T00:05:00Z".into(),
    }
}

fn unit(id: &str, status: AutonomousUnitStatus, boundary: Option<&str>) -> AutonomousUnitRecord {
    AutonomousUnitRecord {
        project_id: "project-1".into(),
        run_id: "run-1".into(),
        unit_id: id.into(),
        sequence: 1,
        kind: AutonomousUnitKind::Executor,
        status,
        summary: "work".into(),
        boundary_id: boundary.map(String::from),
        workflow_linkage: None,
        started_at: format!("{id}-start"),
        finished_at: None,
        updated_at: "2026-01-01T00:00:00Z".into(),
        last_error: None,
    }
}

fn attempt(id: &str, status: AutonomousUnitStatus, boundary: Option<&str>) -> AutonomousUnitAttemptRecord {
    AutonomousUnitAttemptRecord {
        project_id: "project-1".into(),
        run_id: "run-1".into(),
        unit_id: "unit-1".into(),
        attempt_id: id.into(),
        attempt_number: 1,
        child_session_id: "child".into(),
        status,
        boundary_id: boundary.map(String::from),
        workflow_linkage: None,
        started_at: format!("{id}-start"),
        finished_at: None,
        updated_at: "2026-01-01T00:00:00Z".into(),
        last_error: None,
    }
}

fn identity(run_id: &str, kind: &str, provider: &str) -> RuntimeRunIdentity {
    RuntimeRunIdentity { run_id: run_id.into(), runtime_kind: kind.into(), provider_id: provider.into() }
}

#[test]
fn runtime_row_must_name_this_run() {
    let run = run_record();
    assert!(check_runtime_run_identity(&run, Some(identity("run-1", "openai_codex", "openai_codex")), "/db").is_ok());
    let e = check_runtime_run_identity(&run, None, "/db").unwrap_err();
    assert_eq!(e.code, "autonomous_run_missing_runtime_row");
    assert_eq!(
        e.message,
        "Cadence could not persist autonomous-run metadata in /db because the selected project has no durable runtime-run row."
    );
    assert!(e.retryable);
    let e = check_runtime_run_identity(&run, Some(identity("run-2", "openai_codex", "openai_codex")), "/db").unwrap_err();
    assert_eq!(
        e.message,
        "Cadence refused to persist autonomous-run metadata for run `run-1` because the durable runtime-run row currently points at `run-2`."
    );
    let e = check_runtime_run_identity(&run, Some(identity("run-1", "kind", "prov")), "/db").unwrap_err();
    assert_eq!(e.code, "autonomous_run_mismatch");
    assert_eq!(
        e.message,
        "Cadence refused to persist autonomous-run metadata for run `run-1` because the durable runtime-run identity is `prov`/`kind` instead of `openai_codex`/`openai_codex`."
    );
}

#[test]
fn at_most_one_open_unit_is_selected() {
    let units = vec![
        unit("u1", AutonomousUnitStatus::Completed, None),
        unit("u2", AutonomousUnitStatus::Active, None),
    ];
    assert_eq!(select_open_unit(units, "run-1", "/db").unwrap().unwrap().unit_id, "u2");
    assert!(select_open_unit(vec![unit("u1", AutonomousUnitStatus::Failed, None)], "run-1", "/db").unwrap().is_none());
    let e = select_open_unit(
        vec![unit("u1", AutonomousUnitStatus::Paused, None), unit("u2", AutonomousUnitStatus::Pending, None)],
        "run-1",
        "/db",
    )
    .unwrap_err();
    assert_eq!(e.code, "autonomous_unit_conflict");
    assert_eq!(
        e.message,
        "Cadence refused to persist autonomous unit rollover because run `run-1` already has 2 open durable unit rows in /db."
    );
    let e = select_open_attempt(
        vec![
            attempt("a1", AutonomousUnitStatus::Active, None),
            attempt("a2", AutonomousUnitStatus::Blocked, None),
            attempt("a3", AutonomousUnitStatus::Active, None),
        ],
        "run-1",
        "/db",
    )
    .unwrap_err();
    assert_eq!(e.code, "autonomous_unit_attempt_conflict");
    assert_eq!(
        e.message,
        "Cadence refused to persist autonomous attempt rollover because run `run-1` already has 3 open durable attempt rows in /db."
    );
}

#[test]
fn superseded_units_close_unless_bound_to_a_boundary() {
    let incoming = unit("u2", AutonomousUnitStatus::Active, None);
    assert_eq!(plan_unit_rollover(None, &incoming, &AutonomousRunStatus::Running).unwrap(), None);
    let same = unit("u2", AutonomousUnitStatus::Active, None);
    assert_eq!(plan_unit_rollover(Some(&same), &incoming, &AutonomousRunStatus::Running).unwrap(), None);
    let old = unit("u1", AutonomousUnitStatus::Active, None);
    assert_eq!(
        plan_unit_rollover(Some(&old), &incoming, &AutonomousRunStatus::Cancelled).unwrap(),
        Some(AutonomousUnitStatus::Cancelled)
    );
    let bound = unit("u1", AutonomousUnitStatus::Active, Some("boundary-9"));
    let e = plan_unit_rollover(Some(&bound), &incoming, &AutonomousRunStatus::Running).unwrap_err();
    assert_eq!(e.code, "autonomous_unit_boundary_drift");
    assert_eq!(
        e.message,
        "Cadence refused to roll durable autonomous unit `u1` to `u2` because the existing unit is still attached to boundary `boundary-9`."
    );

    let a_new = attempt("a2", AutonomousUnitStatus::Active, None);
    let a_old = attempt("a1", AutonomousUnitStatus::Active, None);
    assert_eq!(plan_attempt_rollover(Some(&a_old), None, &AutonomousRunStatus::Running).unwrap(), None);
    assert_eq!(
        plan_attempt_rollover(Some(&a_old), Some(&a_new), &AutonomousRunStatus::Failed).unwrap(),
        Some(AutonomousUnitStatus::Failed)
    );
    let a_bound = attempt("a1", AutonomousUnitStatus::Active, Some("b"));
    let e = plan_attempt_rollover(Some(&a_bound), Some(&a_new), &AutonomousRunStatus::Running).unwrap_err();
    assert_eq!(
        e.message,
        "Cadence refused to roll durable autonomous attempt `a1` to `a2` because the existing attempt is still attached to boundary `b`."
    );
}

#[test]
fn rollover_moment_prefers_attempt_then_unit_then_run() {
    let mut payload = AutonomousRunUpsertRecord {
        run: run_record(),
        unit: Some(unit("u1", AutonomousUnitStatus::Active, None)),
        attempt: Some(attempt("a1", AutonomousUnitStatus::Active, None)),
        artifacts: Vec::new(),
    };
    assert_eq!(rollover_timestamp(&payload), "a1-start");
    payload.attempt = None;
    assert_eq!(rollover_timestamp(&payload), "u1-start");
    payload.unit = None;
    assert_eq!(rollover_timestamp(&payload), "2026-01-01T00:05:00Z");
}

fn entry(id: &str, sequence: u32, status: AutonomousUnitStatus) -> AutonomousUnitHistoryRecord {
    let mut u = unit(id, status, None);
    u.sequence = sequence;
    AutonomousUnitHistoryRecord { unit: u, latest_attempt: None, artifacts: Vec::new() }
}

#[test]
fn snapshot_shows_the_in_flight_unit_or_the_first() {
    let mut run = run_record();
    assert_eq!(select_snapshot_entries(&run, &Vec::new()).unwrap(), None);
    let history = vec![
        entry("u1", 1, AutonomousUnitStatus::Completed),
        entry("u2", 2, AutonomousUnitStatus::Paused),
        entry("u3", 3, AutonomousUnitStatus::Active),
    ];
    assert_eq!(select_snapshot_entries(&run, &history).unwrap(), Some((1, 1)));
    let done = vec![entry("u1", 1, AutonomousUnitStatus::Completed), entry("u2", 2, AutonomousUnitStatus::Failed)];
    assert_eq!(select_snapshot_entries(&run, &done).unwrap(), Some((0, 0)));
    run.active_unit_sequence = Some(2);
    assert_eq!(select_snapshot_entries(&run, &history).unwrap(), Some((1, 1)));
    run.active_unit_sequence = Some(5);
    assert_eq!(
        select_snapshot_entries(&run, &history).unwrap_err(),
        "Autonomous run active_unit_sequence 5 does not match durable unit `u2` sequence 2."
    );
}

use xero_core::autonomous_rules::{artifacts_input_checkable, is_action_boundary_cuttable};

#[test]
fn cuttable_action_ids_are_recognised() {
    assert!(is_action_boundary_cuttable("scope:run:r1:boundary:b1:tool", "b1"));
    assert!(!is_action_boundary_cuttable("scope:boundary:b1:x:run:r1", "b1"));
    assert!(is_action_boundary_cuttable("has space", "b1"));
    assert!(artifacts_input_checkable(&Vec::new(), &Vec::new()));
    assert!(!artifacts_input_checkable(&Vec::new(), &vec![None]));
}
