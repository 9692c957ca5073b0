use xero_core::error::CommandErrorClass;
use xero_core::provider_profiles::{
    apply_active_profile_switch_at, apply_provider_profile_upsert_at, is_local_openai_base_url,
    map_auth_store_error_to_command_error, mirror_profile_credential, provider_supports_api_key,
    provider_uses_ambient_readiness, provider_uses_local_readiness, ProviderApiKeyCredentialEntry,
    ProviderCredentialKind, ProviderCredentialMirror, ProviderProfileCredentialLink, ProviderProfileRecord,
    ProviderProfilesCredentials, ProviderProfilesMetadata, ProviderProfilesSnapshot, ResolvedProviderIdentity,
    UpsertProviderProfileRequestDto,
};

const T0: &str = "2026-04-01T00:00:00Z";
const T1: &str = "2026-05-01T00:00:00Z";

fn snapshot_with_openrouter_api_key() -> ProviderProfilesSnapshot {
    ProviderProfilesSnapshot {
        metadata: ProviderProfilesMetadata {
            active_profile_id: "openrouter-default".into(),
            profiles: vec![ProviderProfileRecord {
                profile_id: "openrouter-default".into(),
                provider_id: "openrouter".into(),
                runtime_kind: "openrouter".into(),
                label: "OpenRouter".into(),
                model_id: "openai/gpt-4.1-mini".into(),
                preset_id: Some("openrouter".into()),
                base_url: None,
                api_version: None,
                region: None,
                project_id: None,
                credential_link: Some(ProviderProfileCredentialLink::ApiKey { updated_at: T0.into() }),
                migrated_from_legacy: false,
                migrated_at: None,
                updated_at: T0.into(),
            }],
            updated_at: T0.into(),
        },
        credentials: ProviderProfilesCredentials {
            api_keys: vec![ProviderApiKeyCredentialEntry {
                profile_id: "openrouter-default".into(),
                api_key: "sk-or-test".into(),
                updated_at: T0.into(),
            }],
        },
    }
}

fn upsert_request_for_openrouter(api_key: Option<&str>) -> UpsertProviderProfileRequestDto {
    UpsertProviderProfileRequestDto {
        profile_id: "openrouter-default".into(),
        provider_id: "openrouter".into(),
        runtime_kind: "openrouter".into(),
        label: "OpenRouter".into(),
        model_id: "openai/gpt-4.1-mini".into(),
        preset_id: Some("openrouter".into()),
        base_url: None,
        api_version: None,
        region: None,
        project_id: None,
        api_key: api_key.map(str::to_owned),
        activate: false,
    }
}

fn identity(provider: &str) -> Result<ResolvedProviderIdentity, String> {
    Ok(ResolvedProviderIdentity { provider_id: provider.into(), runtime_kind: provider.into() })
}

#[test]
fn mirror_writes_api_key_into_provider_credentials() {
    let snapshot = snapshot_with_openrouter_api_key();
    let request = upsert_request_for_openrouter(Some("sk-or-test"));
    match mirror_profile_credential(&snapshot, &request) {
        ProviderCredentialMirror::Upsert(row) => {
            assert_eq!(row.provider_id, "openrouter");
            assert_eq!(row.kind, ProviderCredentialKind::ApiKey);
            assert_eq!(row.api_key.as_deref(), Some("sk-or-test"));
            assert_eq!(row.default_model_id, "openai/gpt-4.1-mini");
            assert_eq!(row.updated_at, T0);
        }
        other => panic!("expected an upsert, got {other:?}"),
    }
}

#[test]
fn mirror_skips_openai_codex_writes() {
    let snapshot = snapshot_with_openrouter_api_key();
    let request = UpsertProviderProfileRequestDto {
        provider_id: "openai_codex".into(),
        ..upsert_request_for_openrouter(None)
    };
    assert!(matches!(mirror_profile_credential(&snapshot, &request), ProviderCredentialMirror::Unchanged));
}

#[test]
fn mirror_clears_credential_when_link_dropped() {
    let snapshot = snapshot_with_openrouter_api_key();
    assert!(matches!(
        mirror_profile_credential(&snapshot, &upsert_request_for_openrouter(Some("sk-or-test"))),
        ProviderCredentialMirror::Upsert(_)
    ));
    let mut cleared = snapshot;
    cleared.metadata.profiles[0].credential_link = None;
    cleared.credentials.api_keys.clear();
    match mirror_profile_credential(&cleared, &upsert_request_for_openrouter(None)) {
        ProviderCredentialMirror::Delete { provider_id } => assert_eq!(provider_id, "openrouter"),
        other => panic!("expected a deletion, got {other:?}"),
    }
}

#[test]
fn mirror_deletes_api_key_link_without_a_stored_key() {
    let mut snapshot = snapshot_with_openrouter_api_key();
    snapshot.credentials.api_keys.clear();
    assert!(matches!(
        mirror_profile_credential(&snapshot, &upsert_request_for_openrouter(None)),
        ProviderCredentialMirror::Delete { .. }
    ));
}

#[test]
fn unchanged_upsert_keeps_the_snapshot_and_its_timestamps() {
    let current = snapshot_with_openrouter_api_key();
    let next = apply_provider_profile_upsert_at(
        &current,
        &upsert_request_for_openrouter(Some("sk-or-test")),
        identity("openrouter"),
        Ok(()),
        "",
        T1,
    )
    .expect("upsert");
    assert_eq!(next.metadata.updated_at, T0);
    assert_eq!(next.metadata.profiles.len(), 1);
    assert_eq!(next.metadata.profiles[0].updated_at, T0);
    assert_eq!(next.credentials.api_keys[0].updated_at, T0);
}

#[test]
fn new_key_and_label_restamp_profile_and_snapshot() {
    let current = snapshot_with_openrouter_api_key();
    let mut request = upsert_request_for_openrouter(Some("  sk-or-new  "));
    request.label = "  Router  ".into();
    request.activate = true;
    let next = apply_provider_profile_upsert_at(&current, &request, identity("openrouter"), Ok(()), "", T1)
        .expect("upsert");
    let profile = &next.metadata.profiles[0];
    assert_eq!(profile.label, "Router");
    assert_eq!(profile.updated_at, T1);
    assert!(matches!(&profile.credential_link, Some(ProviderProfileCredentialLink::ApiKey { updated_at }) if updated_at == T1));
    assert_eq!(next.credentials.api_keys.len(), 1);
    assert_eq!(next.credentials.api_keys[0].api_key, "sk-or-new");
    assert_eq!(next.credentials.api_keys[0].updated_at, T1);
    assert_eq!(next.metadata.updated_at, T1);
    assert_eq!(next.metadata.active_profile_id, "openrouter-default");
}

#[test]
fn new_ollama_profile_is_linked_locally_and_added_last() {
    let current = snapshot_with_openrouter_api_key();
    let request = UpsertProviderProfileRequestDto {
        profile_id: "ollama-local".into(),
        provider_id: "ollama".into(),
        runtime_kind: "ollama".into(),
        label: "Ollama".into(),
        model_id: "llama3".into(),
        preset_id: None,
        base_url: Some(" http://localhost:11434 ".into()),
        api_version: Some("   ".into()),
        region: None,
        project_id: None,
        api_key: None,
        activate: false,
    };
    let next = apply_provider_profile_upsert_at(&current, &request, identity("ollama"), Ok(()), "", T1).expect("upsert");
    assert_eq!(next.metadata.profiles.len(), 2);
    let added = &next.metadata.profiles[1];
    assert_eq!(added.profile_id, "ollama-local");
    assert_eq!(added.base_url.as_deref(), Some("http://localhost:11434"));
    assert_eq!(added.api_version, None);
    assert!(matches!(&added.credential_link, Some(ProviderProfileCredentialLink::Local { updated_at }) if updated_at == T1));
    assert_eq!(next.credentials.api_keys.len(), 1);
    assert_eq!(next.metadata.updated_at, T1);
}

#[test]
fn upsert_refusals_come_in_order() {
    let current = snapshot_with_openrouter_api_key();
    let mut blank = upsert_request_for_openrouter(None);
    blank.label = "  ".into();
    let err = apply_provider_profile_upsert_at(&current, &blank, identity("openrouter"), Ok(()), "", T1).unwrap_err();
    assert_eq!(err.code, "invalid_request");
    assert_eq!(err.message, "Field `label` must be a non-empty string.");

    let err = apply_provider_profile_upsert_at(
        &current,
        &upsert_request_for_openrouter(None),
        Err("unknown provider".into()),
        Ok(()),
        "",
        T1,
    )
    .unwrap_err();
    assert_eq!(err.code, "provider_profiles_invalid");
    assert_eq!(err.message, "unknown provider");

    let mut second = upsert_request_for_openrouter(None);
    second.profile_id = "openrouter-two".into();
    let err = apply_provider_profile_upsert_at(&current, &second, identity("openrouter"), Ok(()), "", T1).unwrap_err();
    assert_eq!(err.code, "provider_profile_already_exists");
    assert_eq!(
        err.message,
        "Cadence already has a `openrouter` provider profile (`openrouter-default`); only one profile per provider is supported. Update the existing profile instead of creating `openrouter-two`."
    );

    let mut ollama = upsert_request_for_openrouter(Some("sk"));
    ollama.profile_id = "ollama".into();
    let err = apply_provider_profile_upsert_at(&current, &ollama, identity("ollama"), Ok(()), "", T1).unwrap_err();
    assert_eq!(err.message, "Field `apiKey` must be a non-empty string.");

    let mut clear_new = upsert_request_for_openrouter(Some(" "));
    clear_new.profile_id = "anthropic-main".into();
    let err = apply_provider_profile_upsert_at(&current, &clear_new, identity("anthropic"), Ok(()), "", T1).unwrap_err();
    assert_eq!(err.message, "Field `apiKey` must be a non-empty string.");
}

#[test]
fn clearing_the_key_drops_secret_and_link() {
    let current = snapshot_with_openrouter_api_key();
    let next = apply_provider_profile_upsert_at(
        &current,
        &upsert_request_for_openrouter(Some("   ")),
        identity("openrouter"),
        Ok(()),
        "",
        T1,
    )
    .expect("upsert");
    assert!(next.credentials.api_keys.is_empty());
    assert!(next.metadata.profiles[0].credential_link.is_none());
    assert_eq!(next.metadata.profiles[0].updated_at, T1);
}

#[test]
fn codex_profiles_use_the_normalized_model_and_settings_check() {
    let current = snapshot_with_openrouter_api_key();
    let mut request = upsert_request_for_openrouter(None);
    request.profile_id = "codex".into();
    request.provider_id = "openai_codex".into();
    let err = apply_provider_profile_upsert_at(
        &current,
        &request,
        identity("openai_codex"),
        Err(xero_core::error::CommandError::invalid_request("modelId")),
        "gpt-5",
        T1,
    )
    .unwrap_err();
    assert_eq!(err.message, "Field `modelId` must be a non-empty string.");
    let next = apply_provider_profile_upsert_at(&current, &request, identity("openai_codex"), Ok(()), "gpt-5", T1)
        .expect("upsert");
    assert_eq!(next.metadata.profiles[1].model_id, "gpt-5");
    assert!(next.metadata.profiles[1].credential_link.is_none());
}

#[test]
fn switching_profiles() {
    let mut current = snapshot_with_openrouter_api_key();
    let same = apply_active_profile_switch_at(&current, " openrouter-default ", T1).expect("switch");
    assert_eq!(same.metadata.updated_at, T0);
    current.metadata.active_profile_id = "other".into();
    let next = apply_active_profile_switch_at(&current, "openrouter-default", T1).expect("switch");
    assert_eq!(next.metadata.active_profile_id, "openrouter-default");
    assert_eq!(next.metadata.updated_at, T1);
    let err = apply_active_profile_switch_at(&current, "missing", T1).unwrap_err();
    assert_eq!(err.code, "provider_profile_not_found");
    assert_eq!(err.message, "Cadence could not find provider profile `missing`.");
    let err = apply_active_profile_switch_at(&current, "   ", T1).unwrap_err();
    assert_eq!(err.message, "Field `profileId` must be a non-empty string.");
}

#[test]
fn readiness_rules() {
    assert!(is_local_openai_base_url("http://LOCALHOST:8080/v1"));
    assert!(is_local_openai_base_url("http://127.0.0.1"));
    assert!(!is_local_openai_base_url("https://api.openai.com/v1"));
    assert!(!is_local_openai_base_url("not a url"));
    assert!(provider_uses_local_readiness("ollama", None));
    assert!(provider_uses_local_readiness("openai_api", Some("http://localhost:1234")));
    assert!(!provider_uses_local_readiness("openai_api", None));
    assert!(provider_uses_ambient_readiness("vertex"));
    assert!(!provider_supports_api_key("bedrock"));
    assert!(provider_supports_api_key("openrouter"));
}

#[test]
fn auth_store_errors_keep_their_class() {
    let e = map_auth_store_error_to_command_error(xero_core::anthropic::AuthFlowError {
        code: "c".into(),
        phase: xero_core::anthropic::RuntimeAuthPhase::Failed,
        message: "m".into(),
        retryable: true,
    });
    assert_eq!(e.class, CommandErrorClass::Retryable);
    let e = map_auth_store_error_to_command_error(xero_core::anthropic::AuthFlowError {
        code: "c".into(),
        phase: xero_core::anthropic::RuntimeAuthPhase::Failed,
        message: "m".into(),
        retryable: false,
    });
    assert_eq!(e.class, CommandErrorClass::UserFixable);
    assert_eq!(e.code, "c");
}
