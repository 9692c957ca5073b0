//! The emulator sidebar: platform tags, request shapes, SDK status, the iOS
//! session surface and the idb client surface, whose transports are not
//! wired yet and answer with stable errors.

use vstd::prelude::*;
use crate::error::{CommandError, CommandResult, error_is, system_fault_is, user_fixable_is,
    CommandErrorClass};
use crate::text::{blank, cat2, cat3, cat5, is_blank};

verus! {

/// Platform tag shared between the frontend and backend.
#[derive(Debug, Clone, Copy, PartialEq, Eq, Structural)]
pub enum EmulatorPlatform {
    Ios,
    Android,
}

pub open spec fn platform_label(p: EmulatorPlatform) -> Seq<char> {
    match p {
        EmulatorPlatform::Ios => "ios"@,
        EmulatorPlatform::Android => "android"@,
    }
}

impl EmulatorPlatform {
    pub fn as_str(self) -> (s: &'static str)
        ensures
            s@ == platform_label(self),
    {
        match self {
            EmulatorPlatform::Ios => "ios",
            EmulatorPlatform::Android => "android",
        }
    }
}

#[derive(Debug, Clone)]
pub struct EmulatorStartRequest {
    pub platform: EmulatorPlatform,
    pub device_id: String,
}

/// The kinds of input the frontend forwards to a device.
#[derive(Debug, Clone, Copy, PartialEq, Eq, Structural)]
pub enum InputKind {
    TouchDown,
    TouchMove,
    TouchUp,
    Scroll,
    Key,
    Text,
    HwButton,
}

#[derive(Debug, Clone, Copy, PartialEq, Eq, Structural)]
pub enum Orientation {
    Portrait,
    Landscape,
}

#[derive(Debug, Clone, Copy)]
pub struct EmulatorRotateRequest {
    pub orientation: Orientation,
}

#[derive(Debug, Clone, Copy)]
pub struct EmulatorListDevicesRequest {
    pub platform: EmulatorPlatform,
}

#[derive(Debug, Clone, Copy, PartialEq, Eq, Structural)]
pub enum DeviceKind {
    Phone,
    Tablet,
}

/// What the host offers for each platform.
#[derive(Debug, Clone)]
pub struct SdkStatus {
    pub android: AndroidSdkStatus,
    pub ios: IosSdkStatus,
}

#[derive(Debug, Clone)]
pub struct AndroidSdkStatus {
    pub present: bool,
    pub sdk_root: Option<String>,
    pub emulator_path: Option<String>,
    pub adb_path: Option<String>,
    pub avdmanager_path: Option<String>,
}

#[derive(Debug, Clone)]
pub struct IosSdkStatus {
    pub present: bool,
    pub xcrun_path: Option<String>,
    pub simctl_path: Option<String>,
    pub idb_companion_present: bool,
    /// Only macOS hosts support the iOS Simulator.
    pub supported: bool,
    pub ax_permission_granted: bool,
    pub screen_recording_permission_granted: bool,
    pub helper_present: bool,
    pub runtime_count: usize,
    pub device_count: usize,
}

/// The iOS status a host without the iOS Simulator reports.
pub open spec fn ios_unavailable(s: IosSdkStatus) -> bool {
    &&& !s.present
    &&& s.xcrun_path is None
    &&& s.simctl_path is None
    &&& !s.idb_companion_present
    &&& !s.supported
    &&& !s.ax_permission_granted
    &&& !s.screen_recording_permission_granted
    &&& !s.helper_present
    &&& s.runtime_count == 0
    &&& s.device_count == 0
}

/// The iOS status of a host that is not macOS.
pub fn unsupported_ios_status() -> (s: IosSdkStatus)
    ensures
        ios_unavailable(s),
{
    IosSdkStatus {
        present: false,
        xcrun_path: None,
        simctl_path: None,
        idb_companion_present: false,
        supported: false,
        ax_permission_granted: false,
        screen_recording_permission_granted: false,
        helper_present: false,
        runtime_count: 0,
        device_count: 0,
    }
}

/// A simulator device; the list is empty until the device listing lands.
#[derive(Debug, Clone)]
pub struct IosDeviceStub {
    pub udid: String,
    pub display_name: String,
}

/// The iOS devices a host can start; none yet.
pub fn list_devices() -> (v: Vec<IosDeviceStub>)
    ensures
        v@.len() == 0,
{
    Vec::new()
}

/// The error every iOS entry point answers with on a host that is not macOS.
pub fn unsupported() -> (e: CommandError)
    ensures
        user_fixable_is(e, "ios_unsupported"@, "iOS Simulator is only available on macOS."@),
{
    CommandError::user_fixable("ios_unsupported", "iOS Simulator is only available on macOS.")
}

/// The error of an emulator command whose pipeline has not landed.
pub fn not_implemented(command: &str, detail: &str) -> (e: CommandError)
    ensures
        system_fault_is(
            e,
            command@ + "_not_implemented"@,
            command@ + " is not implemented yet. "@ + detail@,
        ),
{
    let code = cat2(command, "_not_implemented");
    let message = cat3(command, " is not implemented yet. ", detail);
    CommandError::system_fault(code.as_str(), message.as_str())
}

/// A start request needs a device id.
pub fn validate_start_request(request: &EmulatorStartRequest) -> (r: CommandResult<()>)
    ensures
        r is Ok <==> !blank(request.device_id@),
        r matches Err(e) ==> user_fixable_is(
            e,
            "invalid_request"@,
            crate::error::invalid_request_message("deviceId"@),
        ),
{
    if is_blank(request.device_id.as_str()) {
        return Err(CommandError::invalid_request("deviceId"));
    }
    Ok(())
}

/// The error of the emulator commands that need a running device.
pub fn emulator_not_running() -> (e: CommandError)
    ensures
        user_fixable_is(e, "emulator_not_running"@, "No emulator device is currently running."@),
{
    CommandError::user_fixable("emulator_not_running", "No emulator device is currently running.")
}

// ------------------------------------------------------------ iOS session

/// A running iOS simulator session.
pub struct IosSession {
    device_id: String,
    width: u32,
    height: u32,
}

impl IosSession {
    pub closed spec fn spec_device_id(&self) -> Seq<char> {
        self.device_id@
    }

    pub closed spec fn spec_width(&self) -> u32 {
        self.width
    }

    pub closed spec fn spec_height(&self) -> u32 {
        self.height
    }

    pub fn device_id(&self) -> (s: &str)
        ensures
            s@ == self.spec_device_id(),
    {
        self.device_id.as_str()
    }

    pub fn width(&self) -> (w: u32)
        ensures
            w == self.spec_width(),
    {
        self.width
    }

    pub fn height(&self) -> (h: u32)
        ensures
            h == self.spec_height(),
    {
        self.height
    }

    /// Rotation is not wired yet: always the same system fault.
    pub fn set_orientation(&self, orientation: Orientation) -> (r: CommandResult<()>)
        ensures
            r matches Err(e) && system_fault_is(
                e,
                "ios_not_implemented"@,
                "iOS rotation lands with the Phase 4 idb_companion pipeline."@,
            ),
    {
        Err(
            CommandError::system_fault(
                "ios_not_implemented",
                "iOS rotation lands with the Phase 4 idb_companion pipeline.",
            ),
        )
    }
}

/// Starting an iOS session is not wired yet: always the same system fault.
pub fn spawn_ios_session(device_id: &str) -> (r: CommandResult<IosSession>)
    ensures
        r matches Err(e) && system_fault_is(
            e,
            "ios_not_implemented"@,
            "iOS Simulator streaming is implemented in Phase 4. Use Android for now, or enable --features emulator-synthetic to exercise the pipeline."@,
        ),
{
    Err(
        CommandError::system_fault(
            "ios_not_implemented",
            "iOS Simulator streaming is implemented in Phase 4. Use Android for now, or enable --features emulator-synthetic to exercise the pipeline.",
        ),
    )
}

// --------------------------------------------------------------- idb client

/// A handle to a running idb companion, by its gRPC port.
pub struct IdbClient {
    grpc_port: u16,
}

/// The error of an idb RPC whose transport is not wired yet.
pub open spec fn grpc_unimplemented_is(e: CommandError, method: Seq<char>, detail: Seq<char>) -> bool {
    system_fault_is(
        e,
        "ios_idb_proto_missing"@,
        "idb gRPC `"@ + method + "` is not yet wired up in this Cadence build. "@ + detail + "."@,
    )
}

fn grpc_unimplemented(method: &str, detail: &str) -> (e: CommandError)
    ensures
        grpc_unimplemented_is(e, method@, detail@),
{
    let message = cat5(
        "idb gRPC `",
        method,
        "` is not yet wired up in this Cadence build. ",
        detail,
        ".",
    );
    CommandError::system_fault("ios_idb_proto_missing", message.as_str())
}

/// The handle of a video stream; shutting it down does nothing yet.
pub struct VideoStreamHandle;

impl VideoStreamHandle {
    pub fn shutdown(&self, grace: std::time::Duration) {
    }
}

/// The handle of a log stream; shutting it down does nothing yet.
pub struct LogStreamHandle;

impl LogStreamHandle {
    pub fn shutdown(&self, grace: std::time::Duration) {
    }
}

impl IdbClient {
    pub closed spec fn port(&self) -> u16 {
        self.grpc_port
    }

    pub fn new(grpc_port: u16) -> (c: Self)
        ensures
            c.port() == grpc_port,
    {
        IdbClient { grpc_port }
    }

    pub fn grpc_port(&self) -> (p: u16)
        ensures
            p == self.port(),
    {
        self.grpc_port
    }

    /// The H.264 video stream; not wired yet.
    pub fn start_video_stream<F: FnMut(&[u8]) + Send>(&self, fps: u32, on_nal: F) -> (r: CommandResult<
        VideoStreamHandle,
    >)
        ensures
            r matches Err(e) && grpc_unimplemented_is(
                e,
                "VideoStream"@,
                "iOS live streaming requires vendoring idb.proto and wiring tonic-build"@,
            ),
    {
        Err(
            grpc_unimplemented(
                "VideoStream",
                "iOS live streaming requires vendoring idb.proto and wiring tonic-build",
            ),
        )
    }

    /// HID input injection; not wired yet.
    pub fn send_hid(&self) -> (r: CommandResult<()>)
        ensures
            r matches Err(e) && grpc_unimplemented_is(
                e,
                "HID.inject"@,
                "iOS input dispatch requires vendoring idb.proto"@,
            ),
    {
        Err(grpc_unimplemented("HID.inject", "iOS input dispatch requires vendoring idb.proto"))
    }

    /// The accessibility tree; not wired yet.
    pub fn accessibility_tree(&self) -> (r: CommandResult<()>)
        ensures
            r matches Err(e) && grpc_unimplemented_is(
                e,
                "AccessibilityInfo"@,
                "iOS UI tree requires vendoring idb.proto"@,
            ),
    {
        Err(grpc_unimplemented("AccessibilityInfo", "iOS UI tree requires vendoring idb.proto"))
    }

    /// The device log stream; not wired yet.
    pub fn start_log_stream<F: FnMut(&str) + Send>(&self, on_line: F) -> (r: CommandResult<LogStreamHandle>)
        ensures
            r matches Err(e) && grpc_unimplemented_is(
                e,
                "Log"@,
                "iOS log streaming requires vendoring idb.proto"@,
            ),
    {
        Err(grpc_unimplemented("Log", "iOS log streaming requires vendoring idb.proto"))
    }
}

} // verus!
