use xero_core::emulator::{
    emulator_not_running, list_devices, not_implemented, unsupported, unsupported_ios_status, validate_start_request,
    EmulatorPlatform, EmulatorStartRequest,
};

#[test]
fn start_requests_need_a_device() {
    let e = validate_start_request(&EmulatorStartRequest { platform: EmulatorPlatform::Android, device_id: "  ".into() })
        .unwrap_err();
    assert_eq!(e.code, "invalid_request");
    assert_eq!(e.message, "Field `deviceId` must be a non-empty string.");
    assert!(validate_start_request(&EmulatorStartRequest { platform: EmulatorPlatform::Ios, device_id: "pixel".into() }).is_ok());
}

#[test]
fn unsupported_hosts_and_missing_pipelines() {
    let s = unsupported_ios_status();
    assert!(!s.present && !s.supported);
    assert_eq!(s.device_count, 0);
    assert!(list_devices().is_empty());
    let e = unsupported();
    assert_eq!(e.code, "ios_unsupported");
    assert_eq!(e.message, "iOS Simulator is only available on macOS.");
    let e = not_implemented("emulator_rotate", "Rotation lands later.");
    assert_eq!(e.code, "emulator_rotate_not_implemented");
    assert_eq!(e.message, "emulator_rotate is not implemented yet. Rotation lands later.");
    assert_eq!(emulator_not_running().code, "emulator_not_running");
    assert_eq!(EmulatorPlatform::Android.as_str(), "android");
}
