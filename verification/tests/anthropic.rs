use xero_core::anthropic::{
    anthropic_binding_needs_probe, bind_anthropic_runtime_session, check_model_listed, interpret_models_response,
    map_probe_status_error, normalize_anthropic_model_thinking, normalize_anthropic_models,
    reconcile_anthropic_runtime_session, synthetic_binding, AnthropicAuthConfig, AnthropicBindOutcome,
    AnthropicDiscoveredModel, AnthropicDiscoveredThinkingEffort, AnthropicReconcileOutcome, AnthropicRuntimeSettings,
    AuthFlowError, ModelCapabilities, ModelSummary, ModelsResponse, RuntimeAuthPhase,
};

fn settings(key: Option<&str>) -> AnthropicRuntimeSettings {
    AnthropicRuntimeSettings {
        provider_id: "anthropic".into(),
        model_id: "sonnet-4-5".into(),
        updated_at: "2026-01-01T00:00:00Z".into(),
        anthropic_api_key: key.map(String::from),
        anthropic_credentials_updated_at: None,
    }
}

fn caps() -> ModelCapabilities {
    ModelCapabilities {
        effort_supported: false,
        effort_low: false,
        effort_medium: false,
        effort_high: false,
        effort_xhigh: false,
        thinking_supported: false,
        thinking_adaptive: false,
        thinking_enabled: false,
    }
}

fn model(id: &str, name: Option<&str>) -> ModelSummary {
    ModelSummary { id: id.into(), display_name: name.map(String::from), capabilities: caps() }
}

#[test]
fn platform_config_points_at_the_public_models_endpoint() {
    let c = AnthropicAuthConfig::for_platform();
    assert_eq!(c.models_url, "https://api.anthropic.com/v1/models");
    assert_eq!(c.anthropic_version, "2023-06-01");
    assert_eq!(c.timeout_secs, 10);
}

#[test]
fn probe_status_errors_are_classified() {
    let e = map_probe_status_error(401, "");
    assert_eq!(e.code, "anthropic_invalid_api_key");
    assert_eq!(e.message, "Anthropic rejected the configured API key with HTTP 401.");
    assert!(!e.retryable);
    let e = map_probe_status_error(429, "slow down");
    assert_eq!(e.code, "anthropic_rate_limited");
    assert_eq!(e.message, "Anthropic rate limited the models probe with HTTP 429. Response: slow down");
    assert!(e.retryable);
    let e = map_probe_status_error(503, "");
    assert_eq!(e.code, "anthropic_provider_unavailable");
    assert!(e.retryable);
    let e = map_probe_status_error(404, "");
    assert_eq!(e.message, "Anthropic returned HTTP 404 while validating the configured API key.");
    assert!(!e.retryable);
}

#[test]
fn models_are_trimmed_named_and_deduplicated() {
    let models = normalize_anthropic_models(&ModelsResponse {
        data: vec![model(" model-a ", Some("  ")), model("model-b", Some(" Model B "))],
    })
    .expect("valid");
    assert_eq!(models.len(), 2);
    assert_eq!(models[0].id, "model-a");
    assert_eq!(models[0].display_name, "model-a");
    assert_eq!(models[1].display_name, "Model B");
    let e = normalize_anthropic_models(&ModelsResponse { data: vec![model("x", None), model(" x", None)] }).unwrap_err();
    assert_eq!(e.code, "anthropic_models_decode_failed");
    assert_eq!(e.message, "Cadence rejected the Anthropic models response because model `x` appeared more than once.");
    let e = normalize_anthropic_models(&ModelsResponse { data: vec![model("  ", None)] }).unwrap_err();
    assert_eq!(e.message, "Cadence could not decode the Anthropic models response because one model id was blank.");
}

#[test]
fn thinking_capabilities() {
    let mut c = caps();
    c.effort_supported = true;
    c.effort_low = true;
    c.effort_xhigh = true;
    let (thinking, efforts) = normalize_anthropic_model_thinking("m", &c).expect("ok");
    assert!(thinking);
    assert_eq!(efforts, vec![AnthropicDiscoveredThinkingEffort::Low, AnthropicDiscoveredThinkingEffort::XHigh]);
    let mut c = caps();
    c.effort_supported = true;
    let e = normalize_anthropic_model_thinking("m", &c).unwrap_err();
    assert_eq!(e.message, "Cadence rejected the Anthropic models response because model `m` declared only unsupported effort levels.");
    let mut c = caps();
    c.thinking_supported = true;
    assert!(normalize_anthropic_model_thinking("m", &c).is_err());
    c.thinking_adaptive = true;
    assert_eq!(normalize_anthropic_model_thinking("m", &c).unwrap(), (true, vec![]));
    assert_eq!(normalize_anthropic_model_thinking("m", &caps()).unwrap(), (false, vec![]));
}

#[test]
fn responses_are_interpreted_by_status_then_body() {
    let e = interpret_models_response(401, "  denied  ", Err("unused".into())).unwrap_err();
    assert_eq!(e.message, "Anthropic rejected the configured API key with HTTP 401. Response: denied");
    let e = interpret_models_response(200, "", Err("expected value".into())).unwrap_err();
    assert_eq!(e.code, "anthropic_models_decode_failed");
    assert_eq!(e.message, "Cadence could not decode the Anthropic models response: expected value");
    let ok = interpret_models_response(200, "", Ok(ModelsResponse { data: vec![model("sonnet", None)] })).unwrap();
    assert_eq!(ok.len(), 1);
}

#[test]
fn configured_model_must_be_listed() {
    let models = vec![AnthropicDiscoveredModel {
        id: " sonnet ".into(),
        display_name: "Sonnet".into(),
        thinking_supported: false,
        effort_levels: vec![],
    }];
    assert!(check_model_listed(&models, "sonnet").is_ok());
    let e = check_model_listed(&models, "other").unwrap_err();
    assert_eq!(e.code, "anthropic_model_unavailable");
    assert_eq!(e.phase, RuntimeAuthPhase::Failed);
    assert_eq!(e.message, "Cadence could not find the configured Anthropic model `other` in the provider models response.");
}

#[test]
fn synthetic_binding_is_derived_from_key_and_settings() {
    let s = settings(Some("sk-ant"));
    let a = synthetic_binding(&s, "sk-ant");
    let b = synthetic_binding(&s, "sk-ant");
    assert_eq!(a.provider_id, "anthropic");
    assert!(a.account_id.starts_with("anthropic-acct-"));
    assert_eq!(a.account_id.len(), "anthropic-acct-".len() + 16);
    assert!(a.session_id.starts_with("anthropic-session-"));
    assert_eq!(a.account_id, b.account_id);
    assert_eq!(a.session_id, b.session_id);
    let mut other_model = s.clone();
    other_model.model_id = "opus-4".into();
    let c = synthetic_binding(&other_model, "sk-ant");
    assert_eq!(c.account_id, a.account_id);
    assert_ne!(c.session_id, a.session_id);
    let d = synthetic_binding(&s, "sk-other");
    assert_ne!(d.account_id, a.account_id);
}

#[test]
fn bind_and_reconcile() {
    let missing = bind_anthropic_runtime_session(&settings(None), Ok(())).unwrap();
    match missing {
        AnthropicBindOutcome::SignedOut(d) => {
            assert_eq!(d.code, "anthropic_api_key_missing");
            assert!(!d.retryable);
        }
        _ => panic!("expected signed out"),
    }
    let s = settings(Some("sk-ant"));
    let failure = AuthFlowError::retryable("anthropic_provider_unavailable", RuntimeAuthPhase::Failed, "down");
    assert!(bind_anthropic_runtime_session(&s, Err(failure.clone())).is_err());
    let bound = match bind_anthropic_runtime_session(&s, Ok(())).unwrap() {
        AnthropicBindOutcome::Ready(b) => b,
        _ => panic!("expected ready"),
    };
    let account = format!("  {}  ", bound.account_id);
    assert!(anthropic_binding_needs_probe(&s, Some(&account), Some(&bound.session_id)));
    match reconcile_anthropic_runtime_session(&s, Some(&account), Some(&bound.session_id), Ok(())).unwrap() {
        AnthropicReconcileOutcome::Authenticated(b) => assert_eq!(b.session_id, bound.session_id),
        _ => panic!("expected authenticated"),
    }
    assert!(!anthropic_binding_needs_probe(&s, Some("stale"), Some(&bound.session_id)));
    match reconcile_anthropic_runtime_session(&s, Some("stale"), Some(&bound.session_id), Err(failure)).unwrap() {
        AnthropicReconcileOutcome::SignedOut(d) => assert_eq!(d.code, "anthropic_binding_stale"),
        _ => panic!("expected stale"),
    }
}

