use xero_core::browser_settings::{
    browser_control_settings_file_from_request, default_browser_control_settings,
    normalize_timestamp, validate_browser_control_settings_file, BrowserControlPreferenceDto,
    BrowserControlSettingsFile, UpsertBrowserControlSettingsRequestDto,
    BROWSER_CONTROL_SETTINGS_SCHEMA_VERSION,
};

#[test]
fn browser_control_settings_reject_unknown_schema_version() {
    let error = validate_browser_control_settings_file(
        BrowserControlSettingsFile {
            schema_version: BROWSER_CONTROL_SETTINGS_SCHEMA_VERSION + 1,
            preference: BrowserControlPreferenceDto::Default,
            updated_at: "2026-04-30T12:00:00Z".into(),
        },
        "browser_control_settings_decode_failed",
    )
    .expect_err("unsupported schema version should fail closed");

    assert_eq!(error.code, "browser_control_settings_decode_failed");
    assert_eq!(
        error.message,
        "Xero rejected browser control settings version `2` because only version `1` is supported."
    );
}

#[test]
fn browser_control_settings_default_to_in_app_first_fallback() {
    let settings = default_browser_control_settings();
    assert_eq!(settings.preference, BrowserControlPreferenceDto::Default);
    assert_eq!(settings.updated_at, None);
    assert_eq!(BrowserControlPreferenceDto::default(), BrowserControlPreferenceDto::Default);
}

#[test]
fn accepted_file_keeps_preference_and_trims_timestamp() {
    let file = validate_browser_control_settings_file(
        BrowserControlSettingsFile {
            schema_version: 1,
            preference: BrowserControlPreferenceDto::NativeBrowser,
            updated_at: "  2026-04-30T12:00:00Z ".into(),
        },
        "code",
    )
    .unwrap();
    assert_eq!(file.preference, BrowserControlPreferenceDto::NativeBrowser);
    assert_eq!(file.updated_at, "2026-04-30T12:00:00Z");
    let dto = file.into_dto();
    assert_eq!(dto.updated_at.as_deref(), Some("2026-04-30T12:00:00Z"));
}

#[test]
fn request_file_is_stamped_with_the_current_time() {
    let file = browser_control_settings_file_from_request(UpsertBrowserControlSettingsRequestDto {
        preference: BrowserControlPreferenceDto::InAppBrowser,
    })
    .unwrap();
    assert_eq!(file.schema_version, 1);
    assert!(!file.updated_at.is_empty());
    assert!(!normalize_timestamp("   ".into()).is_empty());
}
