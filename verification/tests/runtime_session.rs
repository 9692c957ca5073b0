use xero_core::anthropic::RuntimeAuthPhase;
use xero_core::error::{CommandError, CommandErrorClass};
use xero_core::runtime_session::{
    logged_out_session_at, logout_account_id, finish_runtime_reconcile, is_transient_phase, plan_runtime_reconcile, runtime_provider_label, signed_out_runtime,
    RuntimeDiagnosticDto, RuntimeProviderReconcileOutcome, RuntimeReconcileStep, RuntimeSessionDto,
};

fn session(phase: RuntimeAuthPhase) -> RuntimeSessionDto {
    RuntimeSessionDto {
        project_id: "project-1".into(),
        runtime_kind: "openai_codex".into(),
        provider_id: "openai_codex".into(),
        flow_id: None,
        session_id: Some("session-1".into()),
        account_id: Some("account-1".into()),
        phase,
        callback_bound: Some(true),
        authorization_url: None,
        redirect_uri: None,
        last_error_code: None,
        last_error: None,
        updated_at: "2026-01-01T00:00:00Z".into(),
    }
}

fn diagnostic(code: &str, message: &str, retryable: bool) -> RuntimeDiagnosticDto {
    RuntimeDiagnosticDto { code: code.into(), message: message.into(), retryable }
}

#[test]
fn transient_phases_are_the_in_flight_ones() {
    assert!(is_transient_phase(&RuntimeAuthPhase::Starting));
    assert!(is_transient_phase(&RuntimeAuthPhase::AwaitingBrowserCallback));
    assert!(is_transient_phase(&RuntimeAuthPhase::AwaitingManualInput));
    assert!(is_transient_phase(&RuntimeAuthPhase::ExchangingCode));
    assert!(is_transient_phase(&RuntimeAuthPhase::Refreshing));
    assert!(!is_transient_phase(&RuntimeAuthPhase::Idle));
    assert!(!is_transient_phase(&RuntimeAuthPhase::Authenticated));
    assert!(!is_transient_phase(&RuntimeAuthPhase::Failed));
}

#[test]
fn provider_label_falls_back_to_session_fields() {
    let mut s = session(RuntimeAuthPhase::Idle);
    assert_eq!(runtime_provider_label(&s, &Some("xai".into())), "xai");
    s.provider_id = "  custom  ".into();
    assert_eq!(runtime_provider_label(&s, &None), "custom");
    s.provider_id = " ".into();
    s.runtime_kind = " kind ".into();
    assert_eq!(runtime_provider_label(&s, &None), "kind");
    s.runtime_kind = "".into();
    assert_eq!(runtime_provider_label(&s, &None), "runtime");
}

#[test]
fn abandoned_login_flow_fails_with_unavailable_error() {
    let mut s = session(RuntimeAuthPhase::AwaitingBrowserCallback);
    s.flow_id = Some("flow-1".into());
    let step = plan_runtime_reconcile(s, Ok("openai_codex".into()), "now".into());
    match step {
        RuntimeReconcileStep::Persist(next) => {
            assert_eq!(next.phase, RuntimeAuthPhase::Failed);
            assert!(next.flow_id.is_none());
            assert!(next.callback_bound.is_none());
            assert_eq!(next.session_id.as_deref(), Some("session-1"));
            assert_eq!(next.last_error_code.as_deref(), Some("auth_flow_unavailable"));
            let err = next.last_error.expect("error");
            assert_eq!(
                err.message,
                "Cadence no longer has the in-memory openai_codex login flow for this project. Start login again."
            );
            assert!(!err.retryable);
            assert_eq!(next.updated_at, "now");
        },
        other => panic!("unexpected step {other:?}"),
    }
}

#[test]
fn flows_with_a_url_or_idle_sessions_are_kept() {
    let mut s = session(RuntimeAuthPhase::Starting);
    s.flow_id = Some("flow-1".into());
    s.authorization_url = Some("https://auth".into());
    assert!(matches!(plan_runtime_reconcile(s, Ok("p".into()), "now".into()), RuntimeReconcileStep::Keep(_)));
    let idle = session(RuntimeAuthPhase::Idle);
    assert!(matches!(plan_runtime_reconcile(idle, Ok("p".into()), "now".into()), RuntimeReconcileStep::Keep(_)));
}

#[test]
fn authenticated_sessions_ask_the_provider_or_sign_out() {
    let s = session(RuntimeAuthPhase::Authenticated);
    assert!(matches!(
        plan_runtime_reconcile(s.clone(), Ok("openai_codex".into()), "now".into()),
        RuntimeReconcileStep::AskProvider(_)
    ));
    match plan_runtime_reconcile(s, Err(diagnostic("provider_unknown", "Unknown provider.", false)), "now".into()) {
        RuntimeReconcileStep::Persist(next) => {
            assert_eq!(next.phase, RuntimeAuthPhase::Idle);
            assert!(next.session_id.is_none());
            assert_eq!(next.account_id.as_deref(), Some("account-1"));
            assert_eq!(next.last_error_code.as_deref(), Some("provider_unknown"));
        },
        other => panic!("unexpected step {other:?}"),
    }
}

#[test]
fn provider_answers_keep_or_sign_out_the_session() {
    let s = session(RuntimeAuthPhase::Authenticated);
    assert!(matches!(
        finish_runtime_reconcile(s.clone(), Ok(RuntimeProviderReconcileOutcome::Authenticated), "now".into()),
        RuntimeReconcileStep::Keep(_)
    ));
    match finish_runtime_reconcile(
        s.clone(),
        Ok(RuntimeProviderReconcileOutcome::SignedOut(diagnostic("expired", "Session expired.", true))),
        "now".into(),
    ) {
        RuntimeReconcileStep::Persist(next) => {
            let err = next.last_error.expect("error");
            assert_eq!(err.code, "expired");
            assert!(err.retryable);
        },
        other => panic!("unexpected step {other:?}"),
    }
    let failure = CommandError {
        code: "store_failed".into(),
        class: CommandErrorClass::SystemFault,
        message: "Store failed.".into(),
        retryable: false,
    };
    match finish_runtime_reconcile(s, Err(failure), "now".into()) {
        RuntimeReconcileStep::Persist(next) => assert_eq!(next.last_error_code.as_deref(), Some("store_failed")),
        other => panic!("unexpected step {other:?}"),
    }
}

#[test]
fn signed_out_sessions_keep_provider_and_account() {
    let next = signed_out_runtime(session(RuntimeAuthPhase::Authenticated), "signed_out", "Signed out.", false);
    assert_eq!(next.phase, RuntimeAuthPhase::Idle);
    assert_eq!(next.provider_id, "openai_codex");
    assert_eq!(next.account_id.as_deref(), Some("account-1"));
    assert!(next.session_id.is_none());
    assert!(!next.updated_at.is_empty());
}

#[test]
fn logout_keeps_the_account_and_names_the_provider() {
    let mut current = session(RuntimeAuthPhase::Authenticated);
    assert_eq!(logout_account_id(&current).as_deref(), Some("account-1"));
    let next = logged_out_session_at("project-1".into(), &current, "openai_codex", "openai_codex", None, "now".into());
    assert_eq!(next.phase, RuntimeAuthPhase::Idle);
    assert_eq!(next.account_id.as_deref(), Some("account-1"));
    assert!(next.session_id.is_none());
    assert!(next.last_error.is_none());
    current.account_id = Some("   ".into());
    assert!(logout_account_id(&current).is_none());
    let next = logged_out_session_at(
        "project-1".into(),
        &current,
        "default_kind",
        "default",
        Some(diagnostic("provider_unknown", "Unknown.", false)),
        "now".into(),
    );
    assert!(next.account_id.is_none());
    assert_eq!(next.provider_id, "default");
    assert_eq!(next.last_error_code.as_deref(), Some("provider_unknown"));
}
