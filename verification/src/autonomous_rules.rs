//! The rules an autonomous run, its unit, attempt and artifacts must meet
//! before they are persisted, each stated as the first fault it finds.

use vstd::prelude::*;
use crate::autonomous::{
    AutonomousArtifactCommandResultRecord, AutonomousArtifactPayloadRecord,
    AutonomousPolicyDeniedPayloadRecord, AutonomousToolResultPayloadRecord,
    AutonomousRunRecord, AutonomousRunUpsertRecord, AutonomousVerificationEvidencePayloadRecord,
    AutonomousUnitArtifactRecord, AutonomousUnitAttemptRecord, AutonomousUnitRecord,
    AutonomousWorkflowLinkageRecord, RuntimeRunDiagnosticRecord,
    AutonomousSkillLifecyclePayloadRecord, AutonomousSkillLifecycleResultRecord,
    AutonomousSkillLifecycleSourceRecord, AutonomousSkillLifecycleStageRecord,
    AutonomousToolCallStateRecord, AUTONOMOUS_ARTIFACT_KIND_POLICY_DENIED,
    MAX_BROWSER_COMPUTER_USE_SUMMARY_TEXT_CHARS,
    AUTONOMOUS_ARTIFACT_KIND_SKILL_LIFECYCLE, AUTONOMOUS_ARTIFACT_KIND_TOOL_RESULT,
    AUTONOMOUS_ARTIFACT_KIND_VERIFICATION_EVIDENCE,
};
use crate::contracts::{BrowserComputerUseActionStatusDto, ToolResultSummaryDto};
use crate::error::{
    CommandError, CommandResult, Fault, fault, first, nonempty, nonempty_opt, pd, sf, uf, validate_non_empty_text,
};
use crate::workflow::{compute_workflow_handoff_package_hash, package_hash};
use crate::redaction::{find_prohibited_runtime_persistence_content, prohibited_hint};
use crate::text::{
    blank, borrowed_text, opt_str, owned_text, cat2, cat3, cat5, chars_of, decimal, decimal_string, find, find_chars, has_char,
    has_char_exec, has_whitespace, has_ws, is_blank, is_lower_hex, is_lower_hex_text, str_eq, string_of_range, trim, trim_string,
};

verus! {

/// The error code of every rule in this module.
pub const RUN_REQUEST_INVALID: &'static str = "autonomous_run_request_invalid";

pub open spec fn run_invalid() -> Seq<char> {
    "autonomous_run_request_invalid"@
}

/// A user-fixable fault with the code of this module.
pub open spec fn invalid(message: Seq<char>) -> Option<Fault> {
    uf(run_invalid(), message)
}

// ------------------------------------------------------------ artifact text

/// The fault of secret-bearing content in an artifact field.
pub open spec fn artifact_text_fault(value: Seq<char>, field: Seq<char>) -> Option<Fault> {
    match prohibited_hint(value) {
        Some(h) => invalid(
            "Autonomous artifact field `"@ + field + "` must not include "@ + h
                + ". Remove secret-bearing content before retrying."@,
        ),
        None => None,
    }
}

/// A field that must be non-blank and free of secrets, checked in that order.
pub open spec fn checked_text(value: Seq<char>, field: Seq<char>) -> Option<Fault> {
    first(nonempty(value, field, run_invalid()), artifact_text_fault(value, field))
}

/// `checked_text` on a field that may be absent.
pub open spec fn checked_text_opt(value: Option<String>, field: Seq<char>) -> Option<Fault> {
    match value {
        Some(v) => checked_text(v@, field),
        None => None,
    }
}

/// The fault of an artifact field that is longer than `max` characters.
pub open spec fn bounded_text_fault(value: Seq<char>, field: Seq<char>, max: nat) -> Option<Fault> {
    first(
        artifact_text_fault(value, field),
        if value.len() > max {
            invalid(
                "Autonomous artifact field `"@ + field + "` must be <= "@ + decimal(max)
                    + " characters after sanitization."@,
            )
        } else {
            None
        },
    )
}

pub fn validate_autonomous_artifact_text(value: &str, field: &str) -> (r: CommandResult<()>)
    ensures
        fault(r) == artifact_text_fault(value@, field@),
{
    match find_prohibited_runtime_persistence_content(value) {
        Some(hint) => {
            let message = cat5(
                "Autonomous artifact field `",
                field,
                "` must not include ",
                hint,
                ". Remove secret-bearing content before retrying.",
            );
            Err(CommandError::user_fixable(RUN_REQUEST_INVALID, message.as_str()))
        },
        None => Ok(()),
    }
}

/// Non-blank, then free of secrets.
fn validate_checked_text(value: &str, field: &str) -> (r: CommandResult<()>)
    ensures
        fault(r) == checked_text(value@, field@),
{
    let r = validate_non_empty_text(value, field, RUN_REQUEST_INVALID);
    if r.is_err() {
        return r;
    }
    validate_autonomous_artifact_text(value, field)
}

fn validate_checked_text_opt(value: &Option<String>, field: &str) -> (r: CommandResult<()>)
    ensures
        fault(r) == checked_text_opt(*value, field@),
{
    match value {
        Some(v) => validate_checked_text(v.as_str(), field),
        None => Ok(()),
    }
}

pub fn validate_bounded_autonomous_artifact_text(value: &str, field: &str, max_chars: usize) -> (r:
    CommandResult<()>)
    ensures
        fault(r) == bounded_text_fault(value@, field@, max_chars as nat),
{
    let r = validate_autonomous_artifact_text(value, field);
    if r.is_err() {
        return r;
    }
    let v = chars_of(value);
    if v.len() > max_chars {
        let max = decimal_string(max_chars as u64);
        let head = cat3("Autonomous artifact field `", field, "` must be <= ");
        let message = cat3(head.as_str(), max.as_str(), " characters after sanitization.");
        return Err(CommandError::user_fixable(RUN_REQUEST_INVALID, message.as_str()));
    }
    Ok(())
}

// ------------------------------------------------ tool state and browser use

/// Which browser/computer-use statuses each tool-call state admits.
pub open spec fn browser_status_allowed(
    state: AutonomousToolCallStateRecord,
    status: BrowserComputerUseActionStatusDto,
) -> bool {
    match state {
        AutonomousToolCallStateRecord::Pending => status is Pending,
        AutonomousToolCallStateRecord::Running => status is Pending || status is Running,
        AutonomousToolCallStateRecord::Succeeded => status is Succeeded,
        AutonomousToolCallStateRecord::Failed => status is Failed || status is Blocked,
    }
}

pub open spec fn browser_status_fault(
    state: AutonomousToolCallStateRecord,
    status: BrowserComputerUseActionStatusDto,
) -> Option<Fault> {
    if browser_status_allowed(state, status) {
        None
    } else {
        invalid(
            "Cadence rejected browser/computer-use tool_summary metadata whose status does not match the tool_state lifecycle."@,
        )
    }
}

pub fn validate_browser_computer_use_status_for_tool_state(
    tool_state: &AutonomousToolCallStateRecord,
    status: &BrowserComputerUseActionStatusDto,
) -> (r: CommandResult<()>)
    ensures
        fault(r) == browser_status_fault(*tool_state, *status),
{
    let allowed = match tool_state {
        AutonomousToolCallStateRecord::Pending => matches!(status, BrowserComputerUseActionStatusDto::Pending),
        AutonomousToolCallStateRecord::Running => matches!(
            status,
            BrowserComputerUseActionStatusDto::Pending | BrowserComputerUseActionStatusDto::Running
        ),
        AutonomousToolCallStateRecord::Succeeded => matches!(status, BrowserComputerUseActionStatusDto::Succeeded),
        AutonomousToolCallStateRecord::Failed => matches!(
            status,
            BrowserComputerUseActionStatusDto::Failed | BrowserComputerUseActionStatusDto::Blocked
        ),
    };
    if allowed {
        Ok(())
    } else {
        Err(
            CommandError::user_fixable(
                RUN_REQUEST_INVALID,
                "Cadence rejected browser/computer-use tool_summary metadata whose status does not match the tool_state lifecycle.",
            ),
        )
    }
}

// ------------------------------------------------------------ payload kinds

/// The artifact kind that a payload belongs to.
pub open spec fn payload_kind(p: AutonomousArtifactPayloadRecord) -> Seq<char> {
    match p {
        AutonomousArtifactPayloadRecord::ToolResult(_) => "tool_result"@,
        AutonomousArtifactPayloadRecord::VerificationEvidence(_) => "verification_evidence"@,
        AutonomousArtifactPayloadRecord::PolicyDenied(_) => "policy_denied"@,
        AutonomousArtifactPayloadRecord::SkillLifecycle(_) => "skill_lifecycle"@,
    }
}

/// The kinds whose artifacts must carry a structured payload.
pub open spec fn kind_requires_payload(kind: Seq<char>) -> bool {
    kind == "tool_result"@ || kind == "verification_evidence"@ || kind == "policy_denied"@
        || kind == "skill_lifecycle"@
}

pub fn autonomous_artifact_payload_kind(payload: &AutonomousArtifactPayloadRecord) -> (k:
    &'static str)
    ensures
        k@ == payload_kind(*payload),
{
    match payload {
        AutonomousArtifactPayloadRecord::ToolResult(_) => AUTONOMOUS_ARTIFACT_KIND_TOOL_RESULT,
        AutonomousArtifactPayloadRecord::VerificationEvidence(_) => {
            AUTONOMOUS_ARTIFACT_KIND_VERIFICATION_EVIDENCE
        },
        AutonomousArtifactPayloadRecord::PolicyDenied(_) => AUTONOMOUS_ARTIFACT_KIND_POLICY_DENIED,
        AutonomousArtifactPayloadRecord::SkillLifecycle(_) => AUTONOMOUS_ARTIFACT_KIND_SKILL_LIFECYCLE,
    }
}

pub fn autonomous_artifact_kind_requires_payload(kind: &str) -> (r: bool)
    ensures
        r == kind_requires_payload(kind@),
{
    str_eq(kind, AUTONOMOUS_ARTIFACT_KIND_TOOL_RESULT) || str_eq(
        kind,
        AUTONOMOUS_ARTIFACT_KIND_VERIFICATION_EVIDENCE,
    ) || str_eq(kind, AUTONOMOUS_ARTIFACT_KIND_POLICY_DENIED) || str_eq(
        kind,
        AUTONOMOUS_ARTIFACT_KIND_SKILL_LIFECYCLE,
    )
}

} // verus!

verus! {

// ------------------------------------------------- action/boundary linkage

/// The marker that names boundary `b` inside an action id.
pub open spec fn boundary_marker(b: Seq<char>) -> Seq<char> {
    ":boundary:"@ + b + ":"@
}

/// The fault of an action id and boundary id that are not in canonical
/// agreement: `<scope>:run:<run>:boundary:<boundary>:<action type>`.
pub open spec fn action_boundary_fault(a: Seq<char>, b: Seq<char>) -> Option<Fault> {
    if has_ws(a) {
        invalid(
            "Cadence requires boundary-linked autonomous artifacts to persist canonical action_id values without whitespace."@,
        )
    } else if has_char(b, ':') || has_ws(b) {
        invalid(
            "Cadence requires boundary-linked autonomous artifacts to persist canonical boundary_id values."@,
        )
    } else {
        match find(a, ":run:"@) {
            None => invalid(
                "Cadence requires boundary-linked autonomous artifacts to use runtime-scoped canonical action_id values."@,
            ),
            Some(rs) => if rs == 0 {
                invalid(
                    "Cadence requires boundary-linked autonomous artifacts to include a stable action scope prefix."@,
                )
            } else {
                match find(a, boundary_marker(b)) {
                    None => invalid(
                        "Cadence requires boundary-linked autonomous artifacts to keep action_id and boundary_id in canonical agreement."@,
                    ),
                    Some(bs) => {
                        let run_id = a.subrange(rs + 5, bs);
                        let action_type = a.subrange(bs + boundary_marker(b).len(), a.len() as int);
                        if run_id.len() == 0 || has_char(run_id, ':') || has_ws(run_id) {
                            invalid(
                                "Cadence requires boundary-linked autonomous artifacts to persist a canonical run-scoped action_id."@,
                            )
                        } else if action_type.len() == 0 || has_char(action_type, ':') || has_ws(
                            action_type,
                        ) {
                            invalid(
                                "Cadence requires boundary-linked autonomous artifacts to persist an action_id with a canonical action type suffix."@,
                            )
                        } else {
                            None
                        }
                    },
                }
            },
        }
    }
}

/// The inputs on which the run id can be cut out of the action id: once
/// the earlier checks pass, the boundary marker does not start inside the
/// `:run:` marker or before it (the cut would run backwards).
pub open spec fn action_boundary_cuttable(a: Seq<char>, b: Seq<char>) -> bool {
    (!has_ws(a) && !has_char(b, ':') && !has_ws(b)) ==> match (
        find(a, ":run:"@),
        find(a, boundary_marker(b)),
    ) {
        (Some(rs), Some(bs)) => rs == 0 || rs + 5 <= bs,
        _ => true,
    }
}

/// A run id or action type: non-empty, without `:` or whitespace.
pub open spec fn canonical_segment(s: Seq<char>) -> bool {
    s.len() > 0 && !has_char(s, ':') && !has_ws(s)
}

fn segment_is_canonical(a: &Vec<char>, lo: usize, hi: usize) -> (r: bool)
    requires
        lo <= hi <= a.len(),
    ensures
        r == canonical_segment(a@.subrange(lo as int, hi as int)),
{
    let s = string_of_range(a, lo, hi);
    let v = chars_of(s.as_str());
    v.len() > 0 && !has_char_exec(&v, ':') && !has_whitespace(&v)
}

/// The checks after both markers are found.
fn validate_action_segments(a: &Vec<char>, rs: usize, bs: usize, marker_len: usize) -> (r:
    CommandResult<()>)
    requires
        rs + 5 <= bs,
        bs + marker_len <= a.len(),
    ensures
        fault(r) == (if !canonical_segment(a@.subrange(rs + 5, bs as int)) {
            invalid(
                "Cadence requires boundary-linked autonomous artifacts to persist a canonical run-scoped action_id."@,
            )
        } else if !canonical_segment(a@.subrange(bs + marker_len, a@.len() as int)) {
            invalid(
                "Cadence requires boundary-linked autonomous artifacts to persist an action_id with a canonical action type suffix."@,
            )
        } else {
            None
        }),
{
    if !segment_is_canonical(a, rs + 5, bs) {
        return Err(
            CommandError::user_fixable(
                RUN_REQUEST_INVALID,
                "Cadence requires boundary-linked autonomous artifacts to persist a canonical run-scoped action_id.",
            ),
        );
    }
    if !segment_is_canonical(a, bs + marker_len, a.len()) {
        return Err(
            CommandError::user_fixable(
                RUN_REQUEST_INVALID,
                "Cadence requires boundary-linked autonomous artifacts to persist an action_id with a canonical action type suffix.",
            ),
        );
    }
    Ok(())
}

#[verifier::rlimit(30)]
pub fn validate_runtime_action_boundary_identity(action_id: &str, boundary_id: &str) -> (r:
    CommandResult<()>)
    requires
        action_boundary_cuttable(action_id@, boundary_id@),
    ensures
        fault(r) == action_boundary_fault(action_id@, boundary_id@),
{
    let a = chars_of(action_id);
    let b = chars_of(boundary_id);
    if has_whitespace(&a) {
        return Err(
            CommandError::user_fixable(
                RUN_REQUEST_INVALID,
                "Cadence requires boundary-linked autonomous artifacts to persist canonical action_id values without whitespace.",
            ),
        );
    }
    if has_char_exec(&b, ':') || has_whitespace(&b) {
        return Err(
            CommandError::user_fixable(
                RUN_REQUEST_INVALID,
                "Cadence requires boundary-linked autonomous artifacts to persist canonical boundary_id values.",
            ),
        );
    }
    let run_marker = chars_of(":run:");
    proof {
        reveal_strlit(":run:");
    }
    let run_start = match find_chars(&a, &run_marker) {
        Some(i) => i,
        None => {
            return Err(
                CommandError::user_fixable(
                    RUN_REQUEST_INVALID,
                    "Cadence requires boundary-linked autonomous artifacts to use runtime-scoped canonical action_id values.",
                ),
            );
        },
    };
    if run_start == 0 {
        return Err(
            CommandError::user_fixable(
                RUN_REQUEST_INVALID,
                "Cadence requires boundary-linked autonomous artifacts to include a stable action scope prefix.",
            ),
        );
    }
    let marker_text = cat3(":boundary:", boundary_id, ":");
    let marker = chars_of(marker_text.as_str());
    let boundary_start = match find_chars(&a, &marker) {
        Some(i) => i,
        None => {
            return Err(
                CommandError::user_fixable(
                    RUN_REQUEST_INVALID,
                    "Cadence requires boundary-linked autonomous artifacts to keep action_id and boundary_id in canonical agreement.",
                ),
            );
        },
    };
    validate_action_segments(&a, run_start, boundary_start, marker.len())
}

/// Where `n` occurs at `i`, it lies inside `h`.
pub open spec fn occurs_at_fits(h: Seq<char>, n: Seq<char>, i: int) -> bool {
    0 <= i && i + n.len() <= h.len()
}

} // verus!

verus! {

/// The fault of an artifact's optional action id and boundary id, which
/// come together or not at all.
pub open spec fn artifact_linkage_fault(a: Option<Seq<char>>, b: Option<Seq<char>>) -> Option<
    Fault,
> {
    match (a, b) {
        (Some(a), Some(b)) => first(
            nonempty(a, "artifact_action_id"@, run_invalid()),
            first(
                nonempty(b, "artifact_boundary_id"@, run_invalid()),
                action_boundary_fault(trim(a), trim(b)),
            ),
        ),
        (None, None) => None,
        _ => invalid(
            "Cadence requires autonomous artifact action_id and boundary_id to be provided together."@,
        ),
    }
}

/// `action_boundary_cuttable` on the trimmed ids, where both are given.
pub open spec fn artifact_linkage_cuttable(a: Option<Seq<char>>, b: Option<Seq<char>>) -> bool {
    match (a, b) {
        (Some(a), Some(b)) => (!blank(a) && !blank(b)) ==> action_boundary_cuttable(
            trim(a),
            trim(b),
        ),
        _ => true,
    }
}

pub fn validate_autonomous_artifact_action_boundary_linkage(
    action_id: Option<&str>,
    boundary_id: Option<&str>,
) -> (r: CommandResult<()>)
    requires
        artifact_linkage_cuttable(borrowed_text(action_id), borrowed_text(boundary_id)),
    ensures
        fault(r) == artifact_linkage_fault(borrowed_text(action_id), borrowed_text(boundary_id)),
{
    match (action_id, boundary_id) {
        (Some(action_id), Some(boundary_id)) => {
            let r = validate_non_empty_text(action_id, "artifact_action_id", RUN_REQUEST_INVALID);
            if r.is_err() {
                return r;
            }
            let r = validate_non_empty_text(boundary_id, "artifact_boundary_id", RUN_REQUEST_INVALID);
            if r.is_err() {
                return r;
            }
            let a = trim_string(action_id);
            let b = trim_string(boundary_id);
            validate_runtime_action_boundary_identity(a.as_str(), b.as_str())
        },
        (None, None) => Ok(()),
        _ => Err(
            CommandError::user_fixable(
                RUN_REQUEST_INVALID,
                "Cadence requires autonomous artifact action_id and boundary_id to be provided together.",
            ),
        ),
    }
}

/// The fault of a payload whose ids are blank or differ from its row's.
pub open spec fn payload_linkage_fault(
    pp: Seq<char>, pr: Seq<char>, pu: Seq<char>, pa: Seq<char>, pf: Seq<char>,
    p: Seq<char>, r: Seq<char>, u: Seq<char>, a: Seq<char>, f: Seq<char>,
) -> Option<Fault> {
    first(nonempty(pp, "payload_project_id"@, run_invalid()),
    first(nonempty(pr, "payload_run_id"@, run_invalid()),
    first(nonempty(pu, "payload_unit_id"@, run_invalid()),
    first(nonempty(pa, "payload_attempt_id"@, run_invalid()),
    first(nonempty(pf, "payload_artifact_id"@, run_invalid()),
    if pp != p || pr != r || pu != u || pa != a || pf != f {
        sf(
            run_invalid(),
            "Cadence requires autonomous artifact payload linkage to match the owning project/run/unit/attempt/artifact row."@,
        )
    } else {
        None
    })))))
}

#[allow(clippy::too_many_arguments)]
pub fn validate_autonomous_artifact_payload_linkage(
    payload_project_id: &str,
    payload_run_id: &str,
    payload_unit_id: &str,
    payload_attempt_id: &str,
    payload_artifact_id: &str,
    project_id: &str,
    run_id: &str,
    unit_id: &str,
    attempt_id: &str,
    artifact_id: &str,
) -> (r: CommandResult<()>)
    ensures
        fault(r) == payload_linkage_fault(
            payload_project_id@, payload_run_id@, payload_unit_id@, payload_attempt_id@,
            payload_artifact_id@, project_id@, run_id@, unit_id@, attempt_id@, artifact_id@,
        ),
{
    let r = validate_non_empty_text(payload_project_id, "payload_project_id", RUN_REQUEST_INVALID);
    if r.is_err() {
        return r;
    }
    let r = validate_non_empty_text(payload_run_id, "payload_run_id", RUN_REQUEST_INVALID);
    if r.is_err() {
        return r;
    }
    let r = validate_non_empty_text(payload_unit_id, "payload_unit_id", RUN_REQUEST_INVALID);
    if r.is_err() {
        return r;
    }
    let r = validate_non_empty_text(payload_attempt_id, "payload_attempt_id", RUN_REQUEST_INVALID);
    if r.is_err() {
        return r;
    }
    let r = validate_non_empty_text(payload_artifact_id, "payload_artifact_id", RUN_REQUEST_INVALID);
    if r.is_err() {
        return r;
    }
    if !str_eq(payload_project_id, project_id) || !str_eq(payload_run_id, run_id) || !str_eq(
        payload_unit_id,
        unit_id,
    ) || !str_eq(payload_attempt_id, attempt_id) || !str_eq(payload_artifact_id, artifact_id) {
        return Err(
            CommandError::system_fault(
                RUN_REQUEST_INVALID,
                "Cadence requires autonomous artifact payload linkage to match the owning project/run/unit/attempt/artifact row.",
            ),
        );
    }
    Ok(())
}

pub open spec fn command_result_fault(c: AutonomousArtifactCommandResultRecord) -> Option<Fault> {
    checked_text(c.summary@, "artifact_command_summary"@)
}

pub fn validate_autonomous_artifact_command_result(
    command_result: &AutonomousArtifactCommandResultRecord,
) -> (r: CommandResult<()>)
    ensures
        fault(r) == command_result_fault(*command_result),
{
    validate_checked_text(command_result.summary.as_str(), "artifact_command_summary")
}

} // verus!

verus! {

// ------------------------------------------------------- tool result summary

pub open spec fn not_terminal(s: AutonomousToolCallStateRecord) -> bool {
    s is Pending || s is Running
}

/// Exit metadata that reports success: exit code 0 without a timeout.
pub open spec fn reports_success(exit_code: Option<i32>, timed_out: bool) -> bool {
    exit_code == Some(0i32) && !timed_out
}

/// The fault of command metadata on a tool call in state `s`.
pub open spec fn command_result_state_fault(
    s: AutonomousToolCallStateRecord,
    c: Option<AutonomousArtifactCommandResultRecord>,
) -> Option<Fault> {
    match c {
        Some(c) => if not_terminal(s) {
            invalid(
                "Cadence only persists command_result metadata after a tool reaches a terminal state."@,
            )
        } else if s is Failed && reports_success(c.exit_code, c.timed_out) {
            invalid(
                "Cadence rejected a failed tool_result payload whose command_result reported a successful exit code."@,
            )
        } else {
            None
        },
        None => None,
    }
}

/// The fault of a bounded browser/computer-use field: non-blank, free of
/// secrets, at most the summary limit long.
pub open spec fn browser_text_fault(value: Seq<char>, field: Seq<char>) -> Option<Fault> {
    first(nonempty(value, field, run_invalid()), bounded_text_fault(value, field, 512))
}

pub open spec fn browser_text_opt_fault(value: Option<String>, field: Seq<char>) -> Option<Fault> {
    match value {
        Some(v) => browser_text_fault(v@, field),
        None => None,
    }
}

/// The fault of a tool summary of each kind.
pub open spec fn summary_kind_fault(
    s: AutonomousToolCallStateRecord,
    c: Option<AutonomousArtifactCommandResultRecord>,
    t: ToolResultSummaryDto,
) -> Option<Fault> {
    match t {
        ToolResultSummaryDto::Command(m) => if not_terminal(s) {
            invalid(
                "Cadence only persists command tool_summary metadata after a tool reaches a terminal state."@,
            )
        } else if c is None {
            invalid(
                "Cadence requires command tool_summary metadata to include the paired command_result payload."@,
            )
        } else if m.exit_code != c->0.exit_code || m.timed_out != c->0.timed_out {
            invalid(
                "Cadence requires command tool_summary exit metadata to match the paired command_result payload."@,
            )
        } else if s is Failed && reports_success(m.exit_code, m.timed_out) {
            invalid(
                "Cadence rejected a failed tool_result payload whose command tool_summary reported a successful exit code."@,
            )
        } else {
            None
        },
        ToolResultSummaryDto::File(m) => if s is Failed {
            invalid("Cadence does not persist file tool_summary metadata for failed tool results."@)
        } else if c is Some {
            invalid(
                "Cadence requires file tool_summary metadata to omit command_result payloads."@,
            )
        } else if m.path is None && m.scope is None {
            invalid(
                "Cadence requires file tool_summary metadata to include a bounded path or scope."@,
            )
        } else {
            first(
                checked_text_opt(m.path, "tool_summary_file_path"@),
                checked_text_opt(m.scope, "tool_summary_file_scope"@),
            )
        },
        ToolResultSummaryDto::Git(m) => if s is Failed {
            invalid("Cadence does not persist git tool_summary metadata for failed tool results."@)
        } else if c is Some {
            invalid("Cadence requires git tool_summary metadata to omit command_result payloads."@)
        } else {
            checked_text_opt(m.base_revision, "tool_summary_git_base_revision"@)
        },
        ToolResultSummaryDto::Web(m) => if s is Failed {
            invalid("Cadence does not persist web tool_summary metadata for failed tool results."@)
        } else if c is Some {
            invalid("Cadence requires web tool_summary metadata to omit command_result payloads."@)
        } else {
            first(
                checked_text(m.target@, "tool_summary_web_target"@),
                first(
                    checked_text_opt(m.final_url, "tool_summary_web_final_url"@),
                    checked_text_opt(m.content_type, "tool_summary_web_content_type"@),
                ),
            )
        },
        ToolResultSummaryDto::BrowserComputerUse(m) => if c is Some {
            invalid(
                "Cadence requires browser/computer-use tool_summary metadata to omit command_result payloads."@,
            )
        } else {
            first(
                browser_text_fault(m.action@, "tool_summary_browser_computer_use_action"@),
                first(
                    browser_text_opt_fault(m.target, "tool_summary_browser_computer_use_target"@),
                    first(
                        browser_text_opt_fault(
                            m.outcome,
                            "tool_summary_browser_computer_use_outcome"@,
                        ),
                        browser_status_fault(s, m.status),
                    ),
                ),
            )
        },
        ToolResultSummaryDto::McpCapability(m) => if c is Some {
            invalid(
                "Cadence requires MCP capability tool_summary metadata to omit command_result payloads."@,
            )
        } else {
            first(
                nonempty(m.server_id@, "tool_summary_mcp_server_id"@, run_invalid()),
                first(
                    nonempty(m.capability_id@, "tool_summary_mcp_capability_id"@, run_invalid()),
                    first(
                        artifact_text_fault(m.server_id@, "tool_summary_mcp_server_id"@),
                        first(
                            artifact_text_fault(
                                m.capability_id@,
                                "tool_summary_mcp_capability_id"@,
                            ),
                            checked_text_opt(m.capability_name, "tool_summary_mcp_capability_name"@),
                        ),
                    ),
                ),
            )
        },
    }
}

/// The fault of a tool result's state, command metadata and summary.
pub open spec fn tool_result_summary_fault(
    s: AutonomousToolCallStateRecord,
    c: Option<AutonomousArtifactCommandResultRecord>,
    t: Option<ToolResultSummaryDto>,
) -> Option<Fault> {
    first(
        command_result_state_fault(s, c),
        match t {
            Some(t) => summary_kind_fault(s, c, t),
            None => None,
        },
    )
}

fn validate_browser_text(value: &str, field: &str) -> (r: CommandResult<()>)
    ensures
        fault(r) == browser_text_fault(value@, field@),
{
    let r = validate_non_empty_text(value, field, RUN_REQUEST_INVALID);
    if r.is_err() {
        return r;
    }
    validate_bounded_autonomous_artifact_text(value, field, MAX_BROWSER_COMPUTER_USE_SUMMARY_TEXT_CHARS)
}

fn validate_browser_text_opt(value: &Option<String>, field: &str) -> (r: CommandResult<()>)
    ensures
        fault(r) == browser_text_opt_fault(*value, field@),
{
    match value {
        Some(v) => validate_browser_text(v.as_str(), field),
        None => Ok(()),
    }
}

fn same_exit_code(a: Option<i32>, b: Option<i32>) -> (r: bool)
    ensures
        r == (a == b),
{
    match (a, b) {
        (Some(x), Some(y)) => x == y,
        (None, None) => true,
        _ => false,
    }
}

fn exit_reports_success(exit_code: Option<i32>, timed_out: bool) -> (r: bool)
    ensures
        r == reports_success(exit_code, timed_out),
{
    match exit_code {
        Some(code) => code == 0 && !timed_out,
        None => false,
    }
}

fn validate_summary_kind(
    tool_state: &AutonomousToolCallStateRecord,
    command_result: Option<&AutonomousArtifactCommandResultRecord>,
    tool_summary: &ToolResultSummaryDto,
) -> (r: CommandResult<()>)
    ensures
        fault(r) == summary_kind_fault(*tool_state, opt_record(command_result), *tool_summary),
{
    let failed = matches!(tool_state, AutonomousToolCallStateRecord::Failed);
    let not_done = matches!(
        tool_state,
        AutonomousToolCallStateRecord::Pending | AutonomousToolCallStateRecord::Running
    );
    match tool_summary {
        ToolResultSummaryDto::Command(summary) => {
            if not_done {
                return Err(
                    CommandError::user_fixable(
                        RUN_REQUEST_INVALID,
                        "Cadence only persists command tool_summary metadata after a tool reaches a terminal state.",
                    ),
                );
            }
            let command_result = match command_result {
                Some(c) => c,
                None => {
                    return Err(
                        CommandError::user_fixable(
                            RUN_REQUEST_INVALID,
                            "Cadence requires command tool_summary metadata to include the paired command_result payload.",
                        ),
                    );
                },
            };
            if !same_exit_code(summary.exit_code, command_result.exit_code) || summary.timed_out
                != command_result.timed_out {
                return Err(
                    CommandError::user_fixable(
                        RUN_REQUEST_INVALID,
                        "Cadence requires command tool_summary exit metadata to match the paired command_result payload.",
                    ),
                );
            }
            if failed && exit_reports_success(summary.exit_code, summary.timed_out) {
                return Err(
                    CommandError::user_fixable(
                        RUN_REQUEST_INVALID,
                        "Cadence rejected a failed tool_result payload whose command tool_summary reported a successful exit code.",
                    ),
                );
            }
            Ok(())
        },
        ToolResultSummaryDto::File(summary) => {
            if failed {
                return Err(
                    CommandError::user_fixable(
                        RUN_REQUEST_INVALID,
                        "Cadence does not persist file tool_summary metadata for failed tool results.",
                    ),
                );
            }
            if command_result.is_some() {
                return Err(
                    CommandError::user_fixable(
                        RUN_REQUEST_INVALID,
                        "Cadence requires file tool_summary metadata to omit command_result payloads.",
                    ),
                );
            }
            if summary.path.is_none() && summary.scope.is_none() {
                return Err(
                    CommandError::user_fixable(
                        RUN_REQUEST_INVALID,
                        "Cadence requires file tool_summary metadata to include a bounded path or scope.",
                    ),
                );
            }
            let r = validate_checked_text_opt(&summary.path, "tool_summary_file_path");
            if r.is_err() {
                return r;
            }
            validate_checked_text_opt(&summary.scope, "tool_summary_file_scope")
        },
        ToolResultSummaryDto::Git(summary) => {
            if failed {
                return Err(
                    CommandError::user_fixable(
                        RUN_REQUEST_INVALID,
                        "Cadence does not persist git tool_summary metadata for failed tool results.",
                    ),
                );
            }
            if command_result.is_some() {
                return Err(
                    CommandError::user_fixable(
                        RUN_REQUEST_INVALID,
                        "Cadence requires git tool_summary metadata to omit command_result payloads.",
                    ),
                );
            }
            validate_checked_text_opt(&summary.base_revision, "tool_summary_git_base_revision")
        },
        ToolResultSummaryDto::Web(summary) => {
            if failed {
                return Err(
                    CommandError::user_fixable(
                        RUN_REQUEST_INVALID,
                        "Cadence does not persist web tool_summary metadata for failed tool results.",
                    ),
                );
            }
            if command_result.is_some() {
                return Err(
                    CommandError::user_fixable(
                        RUN_REQUEST_INVALID,
                        "Cadence requires web tool_summary metadata to omit command_result payloads.",
                    ),
                );
            }
            let r = validate_checked_text(summary.target.as_str(), "tool_summary_web_target");
            if r.is_err() {
                return r;
            }
            let r = validate_checked_text_opt(&summary.final_url, "tool_summary_web_final_url");
            if r.is_err() {
                return r;
            }
            validate_checked_text_opt(&summary.content_type, "tool_summary_web_content_type")
        },
        ToolResultSummaryDto::BrowserComputerUse(summary) => {
            if command_result.is_some() {
                return Err(
                    CommandError::user_fixable(
                        RUN_REQUEST_INVALID,
                        "Cadence requires browser/computer-use tool_summary metadata to omit command_result payloads.",
                    ),
                );
            }
            let r = validate_browser_text(
                summary.action.as_str(),
                "tool_summary_browser_computer_use_action",
            );
            if r.is_err() {
                return r;
            }
            let r = validate_browser_text_opt(
                &summary.target,
                "tool_summary_browser_computer_use_target",
            );
            if r.is_err() {
                return r;
            }
            let r = validate_browser_text_opt(
                &summary.outcome,
                "tool_summary_browser_computer_use_outcome",
            );
            if r.is_err() {
                return r;
            }
            validate_browser_computer_use_status_for_tool_state(tool_state, &summary.status)
        },
        ToolResultSummaryDto::McpCapability(summary) => {
            if command_result.is_some() {
                return Err(
                    CommandError::user_fixable(
                        RUN_REQUEST_INVALID,
                        "Cadence requires MCP capability tool_summary metadata to omit command_result payloads.",
                    ),
                );
            }
            let r = validate_non_empty_text(
                summary.server_id.as_str(),
                "tool_summary_mcp_server_id",
                RUN_REQUEST_INVALID,
            );
            if r.is_err() {
                return r;
            }
            let r = validate_non_empty_text(
                summary.capability_id.as_str(),
                "tool_summary_mcp_capability_id",
                RUN_REQUEST_INVALID,
            );
            if r.is_err() {
                return r;
            }
            let r = validate_autonomous_artifact_text(
                summary.server_id.as_str(),
                "tool_summary_mcp_server_id",
            );
            if r.is_err() {
                return r;
            }
            let r = validate_autonomous_artifact_text(
                summary.capability_id.as_str(),
                "tool_summary_mcp_capability_id",
            );
            if r.is_err() {
                return r;
            }
            validate_checked_text_opt(&summary.capability_name, "tool_summary_mcp_capability_name")
        },
    }
}

/// The record an optional reference points at.
pub open spec fn opt_record<T>(o: Option<&T>) -> Option<T> {
    match o {
        Some(t) => Some(*t),
        None => None,
    }
}

pub fn validate_autonomous_tool_result_summary(
    tool_state: &AutonomousToolCallStateRecord,
    command_result: Option<&AutonomousArtifactCommandResultRecord>,
    tool_summary: Option<&ToolResultSummaryDto>,
) -> (r: CommandResult<()>)
    ensures
        fault(r) == tool_result_summary_fault(
            *tool_state,
            opt_record(command_result),
            opt_record(tool_summary),
        ),
{
    if let Some(c) = command_result {
        if matches!(
            tool_state,
            AutonomousToolCallStateRecord::Pending | AutonomousToolCallStateRecord::Running
        ) {
            return Err(
                CommandError::user_fixable(
                    RUN_REQUEST_INVALID,
                    "Cadence only persists command_result metadata after a tool reaches a terminal state.",
                ),
            );
        }
        if matches!(tool_state, AutonomousToolCallStateRecord::Failed) && exit_reports_success(
            c.exit_code,
            c.timed_out,
        ) {
            return Err(
                CommandError::user_fixable(
                    RUN_REQUEST_INVALID,
                    "Cadence rejected a failed tool_result payload whose command_result reported a successful exit code.",
                ),
            );
        }
    }
    match tool_summary {
        Some(t) => validate_summary_kind(tool_state, command_result, t),
        None => Ok(()),
    }
}

} // verus!

verus! {

// ----------------------------------------------------------- skill lifecycle

/// A character of a lower-case kebab-case skill id.
pub open spec fn skill_id_char(c: char) -> bool {
    ('a' <= c && c <= 'z') || ('0' <= c && c <= '9') || c == '-'
}

pub open spec fn skill_id_fault(id: Seq<char>) -> Option<Fault> {
    first(
        checked_text(id, "skill_lifecycle_skill_id"@),
        if forall|i: int| 0 <= i < id.len() ==> skill_id_char(#[trigger] id[i]) {
            None
        } else {
            invalid("Cadence requires skill_lifecycle skill ids to stay lowercase kebab-case values."@)
        },
    )
}

pub fn validate_autonomous_skill_lifecycle_skill_id(skill_id: &str) -> (r: CommandResult<()>)
    ensures
        fault(r) == skill_id_fault(skill_id@),
{
    let r = validate_checked_text(skill_id, "skill_lifecycle_skill_id");
    if r.is_err() {
        return r;
    }
    let v = chars_of(skill_id);
    let mut i: usize = 0;
    while i < v.len()
        invariant
            v@ == skill_id@,
            checked_text(skill_id@, "skill_lifecycle_skill_id"@) is None,
            i <= v.len(),
            forall|k: int| 0 <= k < i ==> skill_id_char(#[trigger] v@[k]),
        decreases v.len() - i,
    {
        let c = v[i];
        if !(('a' <= c && c <= 'z') || ('0' <= c && c <= '9') || c == '-') {
            assert(!skill_id_char(v@[i as int]));
            return Err(
                CommandError::user_fixable(
                    RUN_REQUEST_INVALID,
                    "Cadence requires skill_lifecycle skill ids to stay lowercase kebab-case values.",
                ),
            );
        }
        i = i + 1;
    }
    Ok(())
}

pub open spec fn skill_source_fault(s: AutonomousSkillLifecycleSourceRecord) -> Option<Fault> {
    first(checked_text(s.repo@, "skill_lifecycle_source_repo"@),
    first(checked_text(s.path@, "skill_lifecycle_source_path"@),
    first(checked_text(s.reference@, "skill_lifecycle_source_reference"@),
    first(checked_text(s.tree_hash@, "skill_lifecycle_source_tree_hash"@),
    if is_lower_hex(s.tree_hash@, 40) {
        None
    } else {
        invalid(
            "Cadence requires skill_lifecycle source tree_hash values to be lowercase 40-character hexadecimal Git tree hashes."@,
        )
    }))))
}

pub fn validate_autonomous_skill_lifecycle_source(source: &AutonomousSkillLifecycleSourceRecord) -> (r:
    CommandResult<()>)
    ensures
        fault(r) == skill_source_fault(*source),
{
    let r = validate_checked_text(source.repo.as_str(), "skill_lifecycle_source_repo");
    if r.is_err() {
        return r;
    }
    let r = validate_checked_text(source.path.as_str(), "skill_lifecycle_source_path");
    if r.is_err() {
        return r;
    }
    let r = validate_checked_text(source.reference.as_str(), "skill_lifecycle_source_reference");
    if r.is_err() {
        return r;
    }
    let r = validate_checked_text(source.tree_hash.as_str(), "skill_lifecycle_source_tree_hash");
    if r.is_err() {
        return r;
    }
    if !is_lower_hex_text(source.tree_hash.as_str(), 40) {
        return Err(
            CommandError::user_fixable(
                RUN_REQUEST_INVALID,
                "Cadence requires skill_lifecycle source tree_hash values to be lowercase 40-character hexadecimal Git tree hashes.",
            ),
        );
    }
    Ok(())
}

pub open spec fn skill_lifecycle_fault(p: AutonomousSkillLifecyclePayloadRecord) -> Option<Fault> {
    first(skill_id_fault(p.skill_id@),
    first(skill_source_fault(p.source),
    first(checked_text(p.cache.key@, "skill_lifecycle_cache_key"@),
    first(
        if p.stage is Discovery {
            if p.cache.status is Some {
                invalid(
                    "Cadence discovery skill_lifecycle payloads must omit cache status because no install or invoke step has completed yet."@,
                )
            } else {
                None
            }
        } else if p.result is Succeeded && p.cache.status is None {
            invalid(
                "Cadence successful install/invoke skill_lifecycle payloads must include cache status."@,
            )
        } else {
            None
        },
        match (p.result, p.diagnostic) {
            (AutonomousSkillLifecycleResultRecord::Succeeded, Some(_)) => invalid(
                "Cadence rejected a successful skill_lifecycle payload that also reported failure diagnostics."@,
            ),
            (AutonomousSkillLifecycleResultRecord::Failed, None) => invalid(
                "Cadence failed skill_lifecycle payloads require typed diagnostics."@,
            ),
            (AutonomousSkillLifecycleResultRecord::Failed, Some(d)) => first(
                nonempty(d.code@, "skill_lifecycle_diagnostic_code"@, run_invalid()),
                checked_text(d.message@, "skill_lifecycle_diagnostic_message"@),
            ),
            (AutonomousSkillLifecycleResultRecord::Succeeded, None) => None,
        },
    ))))
}

pub fn validate_autonomous_skill_lifecycle_payload(skill: &AutonomousSkillLifecyclePayloadRecord) -> (r:
    CommandResult<()>)
    ensures
        fault(r) == skill_lifecycle_fault(*skill),
{
    let r = validate_autonomous_skill_lifecycle_skill_id(skill.skill_id.as_str());
    if r.is_err() {
        return r;
    }
    let r = validate_autonomous_skill_lifecycle_source(&skill.source);
    if r.is_err() {
        return r;
    }
    let r = validate_checked_text(skill.cache.key.as_str(), "skill_lifecycle_cache_key");
    if r.is_err() {
        return r;
    }
    match skill.stage {
        AutonomousSkillLifecycleStageRecord::Discovery => {
            if skill.cache.status.is_some() {
                return Err(
                    CommandError::user_fixable(
                        RUN_REQUEST_INVALID,
                        "Cadence discovery skill_lifecycle payloads must omit cache status because no install or invoke step has completed yet.",
                    ),
                );
            }
        },
        AutonomousSkillLifecycleStageRecord::Install | AutonomousSkillLifecycleStageRecord::Invoke => {
            if matches!(skill.result, AutonomousSkillLifecycleResultRecord::Succeeded)
                && skill.cache.status.is_none() {
                return Err(
                    CommandError::user_fixable(
                        RUN_REQUEST_INVALID,
                        "Cadence successful install/invoke skill_lifecycle payloads must include cache status.",
                    ),
                );
            }
        },
    }
    match (&skill.result, &skill.diagnostic) {
        (AutonomousSkillLifecycleResultRecord::Succeeded, Some(_)) => Err(
            CommandError::user_fixable(
                RUN_REQUEST_INVALID,
                "Cadence rejected a successful skill_lifecycle payload that also reported failure diagnostics.",
            ),
        ),
        (AutonomousSkillLifecycleResultRecord::Failed, None) => Err(
            CommandError::user_fixable(
                RUN_REQUEST_INVALID,
                "Cadence failed skill_lifecycle payloads require typed diagnostics.",
            ),
        ),
        (AutonomousSkillLifecycleResultRecord::Failed, Some(d)) => {
            let r = validate_non_empty_text(
                d.code.as_str(),
                "skill_lifecycle_diagnostic_code",
                RUN_REQUEST_INVALID,
            );
            if r.is_err() {
                return r;
            }
            validate_checked_text(d.message.as_str(), "skill_lifecycle_diagnostic_message")
        },
        (AutonomousSkillLifecycleResultRecord::Succeeded, None) => Ok(()),
    }
}

} // verus!

verus! {

// -------------------------------------------------------- artifact payloads

/// `command_result_fault` on an optional command result.
pub open spec fn command_result_opt_fault(c: Option<AutonomousArtifactCommandResultRecord>) -> Option<
    Fault,
> {
    match c {
        Some(c) => command_result_fault(c),
        None => None,
    }
}

/// A payload whose action id can be cut where its boundary id is given.
pub open spec fn payload_cuttable(p: AutonomousArtifactPayloadRecord) -> bool {
    match p {
        AutonomousArtifactPayloadRecord::ToolResult(t) => artifact_linkage_cuttable(
            owned_text(t.action_id),
            owned_text(t.boundary_id),
        ),
        AutonomousArtifactPayloadRecord::VerificationEvidence(e) => artifact_linkage_cuttable(
            owned_text(e.action_id),
            owned_text(e.boundary_id),
        ),
        AutonomousArtifactPayloadRecord::PolicyDenied(d) => artifact_linkage_cuttable(
            owned_text(d.action_id),
            owned_text(d.boundary_id),
        ),
        AutonomousArtifactPayloadRecord::SkillLifecycle(_) => true,
    }
}

pub open spec fn tool_payload_fault(t: AutonomousToolResultPayloadRecord) -> Option<Fault> {
    first(nonempty(t.tool_call_id@, "tool_call_id"@, run_invalid()),
    first(nonempty(t.tool_name@, "tool_name"@, run_invalid()),
    first(artifact_text_fault(t.tool_name@, "tool_name"@),
    first(artifact_linkage_fault(owned_text(t.action_id), owned_text(t.boundary_id)),
    first(command_result_opt_fault(t.command_result),
    tool_result_summary_fault(t.tool_state, t.command_result, t.tool_summary))))))
}

pub open spec fn evidence_payload_fault(e: AutonomousVerificationEvidencePayloadRecord) -> Option<Fault> {
    first(nonempty(e.evidence_kind@, "evidence_kind"@, run_invalid()),
    first(nonempty(e.label@, "evidence_label"@, run_invalid()),
    first(artifact_text_fault(e.evidence_kind@, "evidence_kind"@),
    first(artifact_text_fault(e.label@, "evidence_label"@),
    first(artifact_linkage_fault(owned_text(e.action_id), owned_text(e.boundary_id)),
    command_result_opt_fault(e.command_result))))))
}

pub open spec fn policy_payload_fault(d: AutonomousPolicyDeniedPayloadRecord) -> Option<Fault> {
    if blank(d.diagnostic_code@) {
        pd("Cadence requires policy_denied artifacts to include a stable diagnostic_code."@)
    } else {
        first(nonempty(d.diagnostic_code@, "policy_denied_code"@, run_invalid()),
        first(checked_text(d.message@, "policy_denied_message"@),
        first(checked_text_opt(d.tool_name, "policy_denied_tool_name"@),
        artifact_linkage_fault(owned_text(d.action_id), owned_text(d.boundary_id)))))
    }
}

/// The fault of a payload stored under an artifact row with these ids and
/// this kind.
pub open spec fn artifact_payload_fault(
    p: AutonomousArtifactPayloadRecord,
    project_id: Seq<char>,
    run_id: Seq<char>,
    unit_id: Seq<char>,
    attempt_id: Seq<char>,
    artifact_id: Seq<char>,
    kind: Seq<char>,
) -> Option<Fault> {
    if kind != payload_kind(p) {
        invalid(
            "Cadence requires autonomous artifact kind `"@ + kind + "` to match payload kind `"@
                + payload_kind(p) + "`."@,
        )
    } else {
        match p {
            AutonomousArtifactPayloadRecord::ToolResult(t) => first(
                payload_linkage_fault(
                    t.project_id@, t.run_id@, t.unit_id@, t.attempt_id@, t.artifact_id@,
                    project_id, run_id, unit_id, attempt_id, artifact_id,
                ),
                tool_payload_fault(t),
            ),
            AutonomousArtifactPayloadRecord::VerificationEvidence(e) => first(
                payload_linkage_fault(
                    e.project_id@, e.run_id@, e.unit_id@, e.attempt_id@, e.artifact_id@,
                    project_id, run_id, unit_id, attempt_id, artifact_id,
                ),
                evidence_payload_fault(e),
            ),
            AutonomousArtifactPayloadRecord::PolicyDenied(d) => first(
                payload_linkage_fault(
                    d.project_id@, d.run_id@, d.unit_id@, d.attempt_id@, d.artifact_id@,
                    project_id, run_id, unit_id, attempt_id, artifact_id,
                ),
                policy_payload_fault(d),
            ),
            AutonomousArtifactPayloadRecord::SkillLifecycle(s) => first(
                payload_linkage_fault(
                    s.project_id@, s.run_id@, s.unit_id@, s.attempt_id@, s.artifact_id@,
                    project_id, run_id, unit_id, attempt_id, artifact_id,
                ),
                skill_lifecycle_fault(s),
            ),
        }
    }
}

fn validate_command_result_opt(c: &Option<AutonomousArtifactCommandResultRecord>) -> (r: CommandResult<()>)
    ensures
        fault(r) == command_result_opt_fault(*c),
{
    match c {
        Some(c) => validate_autonomous_artifact_command_result(c),
        None => Ok(()),
    }
}

fn validate_tool_payload(t: &AutonomousToolResultPayloadRecord) -> (r: CommandResult<()>)
    requires
        artifact_linkage_cuttable(owned_text(t.action_id), owned_text(t.boundary_id)),
    ensures
        fault(r) == tool_payload_fault(*t),
{
    let r = validate_non_empty_text(t.tool_call_id.as_str(), "tool_call_id", RUN_REQUEST_INVALID);
    if r.is_err() {
        return r;
    }
    let r = validate_non_empty_text(t.tool_name.as_str(), "tool_name", RUN_REQUEST_INVALID);
    if r.is_err() {
        return r;
    }
    let r = validate_autonomous_artifact_text(t.tool_name.as_str(), "tool_name");
    if r.is_err() {
        return r;
    }
    let r = validate_autonomous_artifact_action_boundary_linkage(
        opt_str(&t.action_id),
        opt_str(&t.boundary_id),
    );
    if r.is_err() {
        return r;
    }
    let r = validate_command_result_opt(&t.command_result);
    if r.is_err() {
        return r;
    }
    validate_autonomous_tool_result_summary(
        &t.tool_state,
        t.command_result.as_ref(),
        t.tool_summary.as_ref(),
    )
}

fn validate_evidence_payload(e: &AutonomousVerificationEvidencePayloadRecord) -> (r: CommandResult<()>)
    requires
        artifact_linkage_cuttable(owned_text(e.action_id), owned_text(e.boundary_id)),
    ensures
        fault(r) == evidence_payload_fault(*e),
{
    let r = validate_non_empty_text(e.evidence_kind.as_str(), "evidence_kind", RUN_REQUEST_INVALID);
    if r.is_err() {
        return r;
    }
    let r = validate_non_empty_text(e.label.as_str(), "evidence_label", RUN_REQUEST_INVALID);
    if r.is_err() {
        return r;
    }
    let r = validate_autonomous_artifact_text(e.evidence_kind.as_str(), "evidence_kind");
    if r.is_err() {
        return r;
    }
    let r = validate_autonomous_artifact_text(e.label.as_str(), "evidence_label");
    if r.is_err() {
        return r;
    }
    let r = validate_autonomous_artifact_action_boundary_linkage(
        opt_str(&e.action_id),
        opt_str(&e.boundary_id),
    );
    if r.is_err() {
        return r;
    }
    validate_command_result_opt(&e.command_result)
}

fn validate_policy_payload(d: &AutonomousPolicyDeniedPayloadRecord) -> (r: CommandResult<()>)
    requires
        artifact_linkage_cuttable(owned_text(d.action_id), owned_text(d.boundary_id)),
    ensures
        fault(r) == policy_payload_fault(*d),
{
    if is_blank(d.diagnostic_code.as_str()) {
        return Err(
            CommandError::policy_denied(
                "Cadence requires policy_denied artifacts to include a stable diagnostic_code.",
            ),
        );
    }
    let r = validate_non_empty_text(
        d.diagnostic_code.as_str(),
        "policy_denied_code",
        RUN_REQUEST_INVALID,
    );
    if r.is_err() {
        return r;
    }
    let r = validate_checked_text(d.message.as_str(), "policy_denied_message");
    if r.is_err() {
        return r;
    }
    let r = validate_checked_text_opt(&d.tool_name, "policy_denied_tool_name");
    if r.is_err() {
        return r;
    }
    validate_autonomous_artifact_action_boundary_linkage(
        opt_str(&d.action_id),
        opt_str(&d.boundary_id),
    )
}

#[allow(clippy::too_many_arguments)]
pub fn validate_autonomous_artifact_payload(
    payload: &AutonomousArtifactPayloadRecord,
    project_id: &str,
    run_id: &str,
    unit_id: &str,
    attempt_id: &str,
    artifact_id: &str,
    artifact_kind: &str,
) -> (r: CommandResult<()>)
    requires
        payload_cuttable(*payload),
    ensures
        fault(r) == artifact_payload_fault(
            *payload,
            project_id@,
            run_id@,
            unit_id@,
            attempt_id@,
            artifact_id@,
            artifact_kind@,
        ),
{
    let expected_kind = autonomous_artifact_payload_kind(payload);
    if !str_eq(artifact_kind, expected_kind) {
        let message = cat5(
            "Cadence requires autonomous artifact kind `",
            artifact_kind,
            "` to match payload kind `",
            expected_kind,
            "`.",
        );
        return Err(CommandError::user_fixable(RUN_REQUEST_INVALID, message.as_str()));
    }
    match payload {
        AutonomousArtifactPayloadRecord::ToolResult(t) => {
            let r = validate_autonomous_artifact_payload_linkage(
                t.project_id.as_str(), t.run_id.as_str(), t.unit_id.as_str(),
                t.attempt_id.as_str(), t.artifact_id.as_str(),
                project_id, run_id, unit_id, attempt_id, artifact_id,
            );
            if r.is_err() {
                return r;
            }
            validate_tool_payload(t)
        },
        AutonomousArtifactPayloadRecord::VerificationEvidence(e) => {
            let r = validate_autonomous_artifact_payload_linkage(
                e.project_id.as_str(), e.run_id.as_str(), e.unit_id.as_str(),
                e.attempt_id.as_str(), e.artifact_id.as_str(),
                project_id, run_id, unit_id, attempt_id, artifact_id,
            );
            if r.is_err() {
                return r;
            }
            validate_evidence_payload(e)
        },
        AutonomousArtifactPayloadRecord::PolicyDenied(d) => {
            let r = validate_autonomous_artifact_payload_linkage(
                d.project_id.as_str(), d.run_id.as_str(), d.unit_id.as_str(),
                d.attempt_id.as_str(), d.artifact_id.as_str(),
                project_id, run_id, unit_id, attempt_id, artifact_id,
            );
            if r.is_err() {
                return r;
            }
            validate_policy_payload(d)
        },
        AutonomousArtifactPayloadRecord::SkillLifecycle(s) => {
            let r = validate_autonomous_artifact_payload_linkage(
                s.project_id.as_str(), s.run_id.as_str(), s.unit_id.as_str(),
                s.attempt_id.as_str(), s.artifact_id.as_str(),
                project_id, run_id, unit_id, attempt_id, artifact_id,
            );
            if r.is_err() {
                return r;
            }
            validate_autonomous_skill_lifecycle_payload(s)
        },
    }
}

} // verus!

verus! {

// ---------------------------------------------------------- workflow linkage

/// The fault of a workflow linkage whose fields are reported under `prefix`.
pub open spec fn workflow_linkage_fault(l: AutonomousWorkflowLinkageRecord, prefix: Seq<char>) -> Option<
    Fault,
> {
    first(nonempty(l.workflow_node_id@, prefix + "_workflow_node_id"@, run_invalid()),
    first(nonempty(l.transition_id@, prefix + "_transition_id"@, run_invalid()),
    first(nonempty_opt(l.causal_transition_id, prefix + "_causal_transition_id"@, run_invalid()),
    first(nonempty(l.handoff_transition_id@, prefix + "_handoff_transition_id"@, run_invalid()),
    first(nonempty(l.handoff_package_hash@, prefix + "_handoff_package_hash"@, run_invalid()),
    if is_lower_hex(l.handoff_package_hash@, 64) {
        None
    } else {
        invalid(
            "Cadence requires "@ + prefix
                + " handoff package hashes to be lowercase 64-character hex digests."@,
        )
    })))))
}

pub open spec fn workflow_linkage_opt_fault(l: Option<AutonomousWorkflowLinkageRecord>, prefix: Seq<char>) -> Option<
    Fault,
> {
    match l {
        Some(l) => workflow_linkage_fault(l, prefix),
        None => None,
    }
}

/// Two linkages naming the same node, transitions and package.
pub open spec fn same_linkage(a: AutonomousWorkflowLinkageRecord, b: AutonomousWorkflowLinkageRecord) -> bool {
    &&& a.workflow_node_id@ == b.workflow_node_id@
    &&& a.transition_id@ == b.transition_id@
    &&& owned_text(a.causal_transition_id) == owned_text(b.causal_transition_id)
    &&& a.handoff_transition_id@ == b.handoff_transition_id@
    &&& a.handoff_package_hash@ == b.handoff_package_hash@
}

pub open spec fn matching_linkage_fault(
    unit: Option<AutonomousWorkflowLinkageRecord>,
    attempt: Option<AutonomousWorkflowLinkageRecord>,
) -> Option<Fault> {
    match (unit, attempt) {
        (_, None) => None,
        (None, Some(_)) => sf(
            run_invalid(),
            "Cadence requires autonomous attempts to omit workflow linkage until the parent unit carries durable workflow linkage."@,
        ),
        (Some(u), Some(a)) => if same_linkage(u, a) {
            None
        } else {
            sf(
                run_invalid(),
                "Cadence requires autonomous attempt workflow linkage to match the owning unit linkage exactly."@,
            )
        },
    }
}

fn copy_text_opt(o: &Option<String>) -> (r: Option<String>)
    ensures
        r == *o,
{
    match o {
        Some(s) => Some(s.clone()),
        None => None,
    }
}

fn copy_linkage(l: &AutonomousWorkflowLinkageRecord) -> (c: AutonomousWorkflowLinkageRecord)
    ensures
        c == *l,
{
    AutonomousWorkflowLinkageRecord {
        workflow_node_id: l.workflow_node_id.clone(),
        transition_id: l.transition_id.clone(),
        causal_transition_id: copy_text_opt(&l.causal_transition_id),
        handoff_transition_id: l.handoff_transition_id.clone(),
        handoff_package_hash: l.handoff_package_hash.clone(),
    }
}

fn validate_workflow_linkage(l: &AutonomousWorkflowLinkageRecord, field_prefix: &str) -> (r:
    CommandResult<()>)
    ensures
        fault(r) == workflow_linkage_fault(*l, field_prefix@),
{
    let f = cat2(field_prefix, "_workflow_node_id");
    let r = validate_non_empty_text(l.workflow_node_id.as_str(), f.as_str(), RUN_REQUEST_INVALID);
    if r.is_err() {
        return r;
    }
    let f = cat2(field_prefix, "_transition_id");
    let r = validate_non_empty_text(l.transition_id.as_str(), f.as_str(), RUN_REQUEST_INVALID);
    if r.is_err() {
        return r;
    }
    if let Some(causal) = &l.causal_transition_id {
        let f = cat2(field_prefix, "_causal_transition_id");
        let r = validate_non_empty_text(causal.as_str(), f.as_str(), RUN_REQUEST_INVALID);
        if r.is_err() {
            return r;
        }
    }
    let f = cat2(field_prefix, "_handoff_transition_id");
    let r = validate_non_empty_text(l.handoff_transition_id.as_str(), f.as_str(), RUN_REQUEST_INVALID);
    if r.is_err() {
        return r;
    }
    let f = cat2(field_prefix, "_handoff_package_hash");
    let r = validate_non_empty_text(l.handoff_package_hash.as_str(), f.as_str(), RUN_REQUEST_INVALID);
    if r.is_err() {
        return r;
    }
    if !is_lower_hex_text(l.handoff_package_hash.as_str(), 64) {
        let message = cat3(
            "Cadence requires ",
            field_prefix,
            " handoff package hashes to be lowercase 64-character hex digests.",
        );
        return Err(CommandError::user_fixable(RUN_REQUEST_INVALID, message.as_str()));
    }
    Ok(())
}

pub fn normalize_autonomous_workflow_linkage_payload(
    linkage: Option<&AutonomousWorkflowLinkageRecord>,
    field_prefix: &str,
) -> (r: CommandResult<Option<AutonomousWorkflowLinkageRecord>>)
    ensures
        fault(r) == workflow_linkage_opt_fault(opt_record(linkage), field_prefix@),
        r matches Ok(l) ==> l == opt_record(linkage),
{
    match linkage {
        None => Ok(None),
        Some(l) => {
            let r = validate_workflow_linkage(l, field_prefix);
            match r {
                Err(e) => Err(e),
                Ok(_) => Ok(Some(copy_linkage(l))),
            }
        },
    }
}

fn same_text_opt(a: &Option<String>, b: &Option<String>) -> (r: bool)
    ensures
        r == (owned_text(*a) == owned_text(*b)),
{
    match (a, b) {
        (Some(x), Some(y)) => str_eq(x.as_str(), y.as_str()),
        (None, None) => true,
        _ => false,
    }
}

pub fn validate_matching_autonomous_workflow_linkage_payloads(
    unit_linkage: Option<&AutonomousWorkflowLinkageRecord>,
    attempt_linkage: Option<&AutonomousWorkflowLinkageRecord>,
) -> (r: CommandResult<()>)
    ensures
        fault(r) == matching_linkage_fault(opt_record(unit_linkage), opt_record(attempt_linkage)),
{
    match (unit_linkage, attempt_linkage) {
        (_, None) => Ok(()),
        (None, Some(_)) => Err(
            CommandError::system_fault(
                RUN_REQUEST_INVALID,
                "Cadence requires autonomous attempts to omit workflow linkage until the parent unit carries durable workflow linkage.",
            ),
        ),
        (Some(u), Some(a)) => {
            if str_eq(u.workflow_node_id.as_str(), a.workflow_node_id.as_str()) && str_eq(
                u.transition_id.as_str(),
                a.transition_id.as_str(),
            ) && same_text_opt(&u.causal_transition_id, &a.causal_transition_id) && str_eq(
                u.handoff_transition_id.as_str(),
                a.handoff_transition_id.as_str(),
            ) && str_eq(u.handoff_package_hash.as_str(), a.handoff_package_hash.as_str()) {
                Ok(())
            } else {
                Err(
                    CommandError::system_fault(
                        RUN_REQUEST_INVALID,
                        "Cadence requires autonomous attempt workflow linkage to match the owning unit linkage exactly.",
                    ),
                )
            }
        },
    }
}

} // verus!

verus! {

// ------------------------------------------------------------------- runs

/// The fault of a run reason reported under `label`.
pub open spec fn run_reason_fault(reason: Option<RuntimeRunDiagnosticRecord>, label: Seq<char>) -> Option<
    Fault,
> {
    match reason {
        Some(d) => first(
            nonempty(d.code@, label + "_code"@, run_invalid()),
            first(
                nonempty(d.message@, label + "_message"@, run_invalid()),
                match prohibited_hint(d.message@) {
                    Some(h) => invalid(
                        "Autonomous run "@ + label + " must not include "@ + h
                            + ". Remove secret-bearing content before retrying."@,
                    ),
                    None => None,
                },
            ),
        ),
        None => None,
    }
}

/// The fault of a durable run record.
pub open spec fn run_fault(p: AutonomousRunRecord) -> Option<Fault> {
    first(run_ids_fault(p),
    first(nonempty(p.started_at@, "started_at"@, run_invalid()),
    first(nonempty(p.updated_at@, "updated_at"@, run_invalid()),
    first(
        if p.active_unit_sequence == Some(0u32) {
            sf(run_invalid(), "Cadence requires autonomous active-unit sequences to start at 1."@)
        } else {
            None
        },
        first(run_times_fault(p), run_reasons_fault(p)),
    ))))
}

/// The identity fields of a run, in order.
pub open spec fn run_ids_fault(p: AutonomousRunRecord) -> Option<Fault> {
    first(nonempty(p.project_id@, "project_id"@, run_invalid()),
    first(nonempty(p.agent_session_id@, "agent_session_id"@, run_invalid()),
    first(nonempty(p.run_id@, "run_id"@, run_invalid()),
    first(nonempty(p.runtime_kind@, "runtime_kind"@, run_invalid()),
    first(nonempty(p.provider_id@, "provider_id"@, run_invalid()),
    nonempty(p.supervisor_kind@, "supervisor_kind"@, run_invalid()))))))
}

/// The optional timestamps and duplicate-start fields of a run, in order.
pub open spec fn run_times_fault(p: AutonomousRunRecord) -> Option<Fault> {
    first(nonempty_opt(p.last_heartbeat_at, "last_heartbeat_at"@, run_invalid()),
    first(nonempty_opt(p.last_checkpoint_at, "last_checkpoint_at"@, run_invalid()),
    first(nonempty_opt(p.paused_at, "paused_at"@, run_invalid()),
    first(nonempty_opt(p.cancelled_at, "cancelled_at"@, run_invalid()),
    first(nonempty_opt(p.completed_at, "completed_at"@, run_invalid()),
    run_ends_fault(p))))))
}

pub open spec fn run_ends_fault(p: AutonomousRunRecord) -> Option<Fault> {
    first(nonempty_opt(p.crashed_at, "crashed_at"@, run_invalid()),
    first(nonempty_opt(p.stopped_at, "stopped_at"@, run_invalid()),
    first(nonempty_opt(p.duplicate_start_run_id, "duplicate_start_run_id"@, run_invalid()),
    nonempty_opt(p.duplicate_start_reason, "duplicate_start_reason"@, run_invalid()))))
}

/// The reasons a run carries, in order.
pub open spec fn run_reasons_fault(p: AutonomousRunRecord) -> Option<Fault> {
    first(run_reason_fault(p.pause_reason, "pause_reason"@),
    first(run_reason_fault(p.cancel_reason, "cancel_reason"@),
    first(run_reason_fault(p.crash_reason, "crash_reason"@),
    run_reason_fault(p.last_error, "last_error"@))))
}

fn validate_text_opt(value: &Option<String>, field: &str) -> (r: CommandResult<()>)
    ensures
        fault(r) == nonempty_opt(*value, field@, run_invalid()),
{
    match value {
        Some(v) => validate_non_empty_text(v.as_str(), field, RUN_REQUEST_INVALID),
        None => Ok(()),
    }
}

fn validate_run_reason(reason: &Option<RuntimeRunDiagnosticRecord>, label: &str) -> (r: CommandResult<()>)
    ensures
        fault(r) == run_reason_fault(*reason, label@),
{
    match reason {
        None => Ok(()),
        Some(d) => {
            let f = cat2(label, "_code");
            let r = validate_non_empty_text(d.code.as_str(), f.as_str(), RUN_REQUEST_INVALID);
            if r.is_err() {
                return r;
            }
            let f = cat2(label, "_message");
            let r = validate_non_empty_text(d.message.as_str(), f.as_str(), RUN_REQUEST_INVALID);
            if r.is_err() {
                return r;
            }
            match find_prohibited_runtime_persistence_content(d.message.as_str()) {
                Some(hint) => {
                    let message = cat5(
                        "Autonomous run ",
                        label,
                        " must not include ",
                        hint,
                        ". Remove secret-bearing content before retrying.",
                    );
                    Err(CommandError::user_fixable(RUN_REQUEST_INVALID, message.as_str()))
                },
                None => Ok(()),
            }
        },
    }
}

fn validate_run_times(p: &AutonomousRunRecord) -> (r: CommandResult<()>)
    ensures
        fault(r) == run_times_fault(*p),
{
    let r = validate_text_opt(&p.last_heartbeat_at, "last_heartbeat_at");
    if r.is_err() {
        return r;
    }
    let r = validate_text_opt(&p.last_checkpoint_at, "last_checkpoint_at");
    if r.is_err() {
        return r;
    }
    let r = validate_text_opt(&p.paused_at, "paused_at");
    if r.is_err() {
        return r;
    }
    let r = validate_text_opt(&p.cancelled_at, "cancelled_at");
    if r.is_err() {
        return r;
    }
    let r = validate_text_opt(&p.completed_at, "completed_at");
    if r.is_err() {
        return r;
    }
    let r = validate_text_opt(&p.crashed_at, "crashed_at");
    if r.is_err() {
        return r;
    }
    let r = validate_text_opt(&p.stopped_at, "stopped_at");
    if r.is_err() {
        return r;
    }
    let r = validate_text_opt(&p.duplicate_start_run_id, "duplicate_start_run_id");
    if r.is_err() {
        return r;
    }
    validate_text_opt(&p.duplicate_start_reason, "duplicate_start_reason")
}

fn validate_run_reasons(p: &AutonomousRunRecord) -> (r: CommandResult<()>)
    ensures
        fault(r) == run_reasons_fault(*p),
{
    let r = validate_run_reason(&p.pause_reason, "pause_reason");
    if r.is_err() {
        return r;
    }
    let r = validate_run_reason(&p.cancel_reason, "cancel_reason");
    if r.is_err() {
        return r;
    }
    let r = validate_run_reason(&p.crash_reason, "crash_reason");
    if r.is_err() {
        return r;
    }
    validate_run_reason(&p.last_error, "last_error")
}

pub fn validate_autonomous_run_payload(payload: &AutonomousRunRecord) -> (r: CommandResult<()>)
    ensures
        fault(r) == run_fault(*payload),
{
    let r = validate_non_empty_text(payload.project_id.as_str(), "project_id", RUN_REQUEST_INVALID);
    if r.is_err() {
        return r;
    }
    let r = validate_non_empty_text(
        payload.agent_session_id.as_str(),
        "agent_session_id",
        RUN_REQUEST_INVALID,
    );
    if r.is_err() {
        return r;
    }
    let r = validate_non_empty_text(payload.run_id.as_str(), "run_id", RUN_REQUEST_INVALID);
    if r.is_err() {
        return r;
    }
    let r = validate_non_empty_text(payload.runtime_kind.as_str(), "runtime_kind", RUN_REQUEST_INVALID);
    if r.is_err() {
        return r;
    }
    let r = validate_non_empty_text(payload.provider_id.as_str(), "provider_id", RUN_REQUEST_INVALID);
    if r.is_err() {
        return r;
    }
    let r = validate_non_empty_text(
        payload.supervisor_kind.as_str(),
        "supervisor_kind",
        RUN_REQUEST_INVALID,
    );
    if r.is_err() {
        return r;
    }
    let r = validate_non_empty_text(payload.started_at.as_str(), "started_at", RUN_REQUEST_INVALID);
    if r.is_err() {
        return r;
    }
    let r = validate_non_empty_text(payload.updated_at.as_str(), "updated_at", RUN_REQUEST_INVALID);
    if r.is_err() {
        return r;
    }
    if let Some(sequence) = payload.active_unit_sequence {
        if sequence == 0 {
            return Err(
                CommandError::system_fault(
                    RUN_REQUEST_INVALID,
                    "Cadence requires autonomous active-unit sequences to start at 1.",
                ),
            );
        }
    }
    let r = validate_run_times(payload);
    if r.is_err() {
        return r;
    }
    validate_run_reasons(payload)
}

} // verus!

verus! {

// -------------------------------------------------------- artifact records

/// The required text fields of an artifact row, in order.
pub open spec fn artifact_fields_fault(a: AutonomousUnitArtifactRecord) -> Option<Fault> {
    first(nonempty(a.artifact_id@, "artifact_id"@, run_invalid()),
    first(nonempty(a.artifact_kind@, "artifact_kind"@, run_invalid()),
    first(nonempty(a.summary@, "artifact_summary"@, run_invalid()),
    first(nonempty(a.created_at@, "artifact_created_at"@, run_invalid()),
    nonempty(a.updated_at@, "artifact_updated_at"@, run_invalid())))))
}

/// The fault of an artifact row that does not belong to its run, unit and
/// (where one is persisted with it) attempt, or whose summary holds secrets.
pub open spec fn artifact_owner_fault(
    a: AutonomousUnitArtifactRecord,
    run: AutonomousRunRecord,
    unit: AutonomousUnitRecord,
    attempt: Option<AutonomousUnitAttemptRecord>,
) -> Option<Fault> {
    if a.project_id@ != run.project_id@ || a.run_id@ != run.run_id@ || a.unit_id@ != unit.unit_id@ {
        sf(
            run_invalid(),
            "Cadence requires autonomous artifacts to share the parent run and unit linkage."@,
        )
    } else if attempt matches Some(t) && a.attempt_id@ != t.attempt_id@ {
        sf(run_invalid(), "Cadence requires autonomous artifacts to link to the persisted attempt id."@)
    } else {
        match prohibited_hint(a.summary@) {
            Some(h) => invalid(
                "Autonomous artifact summaries must not include "@ + h
                    + ". Remove secret-bearing content before retrying."@,
            ),
            None => None,
        }
    }
}

/// The fault of an artifact's structured payload, or of its absence.
pub open spec fn artifact_record_payload_fault(a: AutonomousUnitArtifactRecord) -> Option<Fault> {
    match a.payload {
        Some(p) => artifact_payload_fault(
            p,
            a.project_id@,
            a.run_id@,
            a.unit_id@,
            a.attempt_id@,
            a.artifact_id@,
            a.artifact_kind@,
        ),
        None => if kind_requires_payload(a.artifact_kind@) {
            let m = "Cadence requires `"@ + a.artifact_kind@
                + "` autonomous artifacts to persist a structured payload."@;
            if a.artifact_kind@ == "policy_denied"@ {
                pd(m)
            } else {
                invalid(m)
            }
        } else {
            None
        },
    }
}

/// The fault of a stored content hash, checked against the hash of the
/// canonical payload where there is one.
pub open spec fn content_hash_fault(h: Option<String>, canonical: Option<Seq<char>>) -> Option<Fault> {
    match h {
        None => None,
        Some(h) => first(
            nonempty(h@, "artifact_content_hash"@, run_invalid()),
            if !is_lower_hex(h@, 64) {
                invalid(
                    "Cadence requires autonomous artifact content hashes to be lowercase 64-character hex digests."@,
                )
            } else {
                match canonical {
                    Some(c) => if h@ != package_hash(c) {
                        invalid(
                            "Cadence requires autonomous artifact content_hash values to match the canonical structured payload."@,
                        )
                    } else {
                        None
                    },
                    None => None,
                }
            },
        ),
    }
}

/// The fault of an artifact row whose payload has canonical text `canonical`.
#[verifier::opaque]
pub open spec fn artifact_record_fault(
    a: AutonomousUnitArtifactRecord,
    run: AutonomousRunRecord,
    unit: AutonomousUnitRecord,
    attempt: Option<AutonomousUnitAttemptRecord>,
    canonical: Option<Seq<char>>,
) -> Option<Fault> {
    first(artifact_fields_fault(a),
    first(artifact_owner_fault(a, run, unit, attempt),
    first(artifact_record_payload_fault(a),
    content_hash_fault(a.content_hash, canonical))))
}

/// The content hash an accepted artifact is stored with: that of its
/// canonical payload, or the one it came with.
pub open spec fn normalized_hash(a: AutonomousUnitArtifactRecord, canonical: Option<Seq<char>>) -> Option<
    Seq<char>,
> {
    match canonical {
        Some(c) => Some(package_hash(c)),
        None => owned_text(a.content_hash),
    }
}

/// `b` is `a` with at most its content hash changed.
pub open spec fn same_but_hash(a: AutonomousUnitArtifactRecord, b: AutonomousUnitArtifactRecord) -> bool {
    &&& b.project_id == a.project_id
    &&& b.run_id == a.run_id
    &&& b.unit_id == a.unit_id
    &&& b.attempt_id == a.attempt_id
    &&& b.artifact_id == a.artifact_id
    &&& b.artifact_kind == a.artifact_kind
    &&& b.status == a.status
    &&& b.summary == a.summary
    &&& b.payload == a.payload
    &&& b.created_at == a.created_at
    &&& b.updated_at == a.updated_at
}

/// A payload that can be checked, with canonical text exactly where there
/// is a payload.
pub open spec fn artifact_input_ok(a: AutonomousUnitArtifactRecord, canonical: Option<Seq<char>>) -> bool {
    &&& canonical is Some <==> a.payload is Some
    &&& a.payload matches Some(p) ==> payload_cuttable(p)
}

fn validate_artifact_fields(a: &AutonomousUnitArtifactRecord) -> (r: CommandResult<()>)
    ensures
        fault(r) == artifact_fields_fault(*a),
{
    let r = validate_non_empty_text(a.artifact_id.as_str(), "artifact_id", RUN_REQUEST_INVALID);
    if r.is_err() {
        return r;
    }
    let r = validate_non_empty_text(a.artifact_kind.as_str(), "artifact_kind", RUN_REQUEST_INVALID);
    if r.is_err() {
        return r;
    }
    let r = validate_non_empty_text(a.summary.as_str(), "artifact_summary", RUN_REQUEST_INVALID);
    if r.is_err() {
        return r;
    }
    let r = validate_non_empty_text(a.created_at.as_str(), "artifact_created_at", RUN_REQUEST_INVALID);
    if r.is_err() {
        return r;
    }
    validate_non_empty_text(a.updated_at.as_str(), "artifact_updated_at", RUN_REQUEST_INVALID)
}

fn validate_artifact_owner(
    a: &AutonomousUnitArtifactRecord,
    run: &AutonomousRunRecord,
    unit: &AutonomousUnitRecord,
    attempt: Option<&AutonomousUnitAttemptRecord>,
) -> (r: CommandResult<()>)
    ensures
        fault(r) == artifact_owner_fault(*a, *run, *unit, opt_record(attempt)),
{
    if !str_eq(a.project_id.as_str(), run.project_id.as_str()) || !str_eq(
        a.run_id.as_str(),
        run.run_id.as_str(),
    ) || !str_eq(a.unit_id.as_str(), unit.unit_id.as_str()) {
        return Err(
            CommandError::system_fault(
                RUN_REQUEST_INVALID,
                "Cadence requires autonomous artifacts to share the parent run and unit linkage.",
            ),
        );
    }
    if let Some(t) = attempt {
        if !str_eq(a.attempt_id.as_str(), t.attempt_id.as_str()) {
            return Err(
                CommandError::system_fault(
                    RUN_REQUEST_INVALID,
                    "Cadence requires autonomous artifacts to link to the persisted attempt id.",
                ),
            );
        }
    }
    match find_prohibited_runtime_persistence_content(a.summary.as_str()) {
        Some(hint) => {
            let message = cat3(
                "Autonomous artifact summaries must not include ",
                hint,
                ". Remove secret-bearing content before retrying.",
            );
            Err(CommandError::user_fixable(RUN_REQUEST_INVALID, message.as_str()))
        },
        None => Ok(()),
    }
}

fn validate_artifact_record_payload(a: &AutonomousUnitArtifactRecord) -> (r: CommandResult<()>)
    requires
        a.payload matches Some(p) ==> payload_cuttable(p),
    ensures
        fault(r) == artifact_record_payload_fault(*a),
{
    match &a.payload {
        Some(p) => validate_autonomous_artifact_payload(
            p,
            a.project_id.as_str(),
            a.run_id.as_str(),
            a.unit_id.as_str(),
            a.attempt_id.as_str(),
            a.artifact_id.as_str(),
            a.artifact_kind.as_str(),
        ),
        None => {
            if autonomous_artifact_kind_requires_payload(a.artifact_kind.as_str()) {
                let message = cat3(
                    "Cadence requires `",
                    a.artifact_kind.as_str(),
                    "` autonomous artifacts to persist a structured payload.",
                );
                if str_eq(a.artifact_kind.as_str(), AUTONOMOUS_ARTIFACT_KIND_POLICY_DENIED) {
                    Err(CommandError::policy_denied(message.as_str()))
                } else {
                    Err(CommandError::user_fixable(RUN_REQUEST_INVALID, message.as_str()))
                }
            } else {
                Ok(())
            }
        },
    }
}

fn validate_content_hash(h: &Option<String>, canonical: Option<&str>) -> (r: CommandResult<()>)
    ensures
        fault(r) == content_hash_fault(*h, borrowed_text(canonical)),
{
    match h {
        None => Ok(()),
        Some(h) => {
            let r = validate_non_empty_text(h.as_str(), "artifact_content_hash", RUN_REQUEST_INVALID);
            if r.is_err() {
                return r;
            }
            if !is_lower_hex_text(h.as_str(), 64) {
                return Err(
                    CommandError::user_fixable(
                        RUN_REQUEST_INVALID,
                        "Cadence requires autonomous artifact content hashes to be lowercase 64-character hex digests.",
                    ),
                );
            }
            if let Some(c) = canonical {
                let expected = compute_workflow_handoff_package_hash(c);
                if !str_eq(h.as_str(), expected.as_str()) {
                    return Err(
                        CommandError::user_fixable(
                            RUN_REQUEST_INVALID,
                            "Cadence requires autonomous artifact content_hash values to match the canonical structured payload.",
                        ),
                    );
                }
            }
            Ok(())
        },
    }
}

/// Checks an artifact row against its run, unit and attempt, and stores it
/// with the hash of its canonical payload. `canonical_payload` is the
/// payload's canonical JSON text (keys sorted), given where the artifact
/// carries a payload. The payload record cannot be serialised here, so
/// nothing ties that text to the payload: the hash stored is the hash of
/// the text the caller hands in, and the caller owes its correspondence.
pub fn normalize_autonomous_unit_artifact_record(
    artifact: AutonomousUnitArtifactRecord,
    run: &AutonomousRunRecord,
    unit: &AutonomousUnitRecord,
    attempt: Option<&AutonomousUnitAttemptRecord>,
    canonical_payload: Option<&str>,
) -> (r: CommandResult<AutonomousUnitArtifactRecord>)
    requires
        artifact_input_ok(artifact, borrowed_text(canonical_payload)),
    ensures
        fault(r) == artifact_record_fault(
            artifact,
            *run,
            *unit,
            opt_record(attempt),
            borrowed_text(canonical_payload),
        ),
        r matches Ok(n) ==> same_but_hash(artifact, n) && owned_text(n.content_hash)
            == normalized_hash(artifact, borrowed_text(canonical_payload)),
{
    reveal(artifact_record_fault);
    let r = validate_artifact_fields(&artifact);
    if let Err(e) = r {
        return Err(e);
    }
    let r = validate_artifact_owner(&artifact, run, unit, attempt);
    if let Err(e) = r {
        return Err(e);
    }
    let r = validate_artifact_record_payload(&artifact);
    if let Err(e) = r {
        return Err(e);
    }
    let r = validate_content_hash(&artifact.content_hash, canonical_payload);
    if let Err(e) = r {
        return Err(e);
    }
    let mut artifact = artifact;
    if let Some(c) = canonical_payload {
        artifact.content_hash = Some(compute_workflow_handoff_package_hash(c));
    }
    Ok(artifact)
}

} // verus!

verus! {

// --------------------------------------------------------------- upserts

/// The fault of a unit row under `run`, before its workflow linkage.
pub open spec fn unit_row_fault(u: AutonomousUnitRecord, run: AutonomousRunRecord) -> Option<Fault> {
    first(nonempty(u.unit_id@, "unit_id"@, run_invalid()),
    first(nonempty(u.summary@, "summary"@, run_invalid()),
    first(nonempty(u.started_at@, "started_at"@, run_invalid()),
    first(nonempty(u.updated_at@, "updated_at"@, run_invalid()),
    if u.sequence == 0 {
        sf(run_invalid(), "Cadence requires autonomous unit sequences to start at 1."@)
    } else if u.project_id@ != run.project_id@ || u.run_id@ != run.run_id@ {
        sf(
            run_invalid(),
            "Cadence requires autonomous unit rows to share the parent run project_id and run_id."@,
        )
    } else {
        None
    }))))
}

/// The fault of a unit row under `run`.
pub open spec fn unit_fault(u: AutonomousUnitRecord, run: AutonomousRunRecord) -> Option<Fault> {
    first(unit_row_fault(u, run),
    first(nonempty_opt(u.boundary_id, "boundary_id"@, run_invalid()),
    first(
        match prohibited_hint(u.summary@) {
            Some(h) => invalid(
                "Autonomous unit summaries must not include "@ + h
                    + ". Remove secret-bearing content before retrying."@,
            ),
            None => None,
        },
        workflow_linkage_opt_fault(u.workflow_linkage, "unit_workflow_linkage"@),
    )))
}

/// The fault of an attempt row under `run` and `unit`, before its linkage.
pub open spec fn attempt_row_fault(
    t: AutonomousUnitAttemptRecord,
    run: AutonomousRunRecord,
    unit: AutonomousUnitRecord,
) -> Option<Fault> {
    first(nonempty(t.attempt_id@, "attempt_id"@, run_invalid()),
    first(nonempty(t.child_session_id@, "child_session_id"@, run_invalid()),
    first(nonempty(t.started_at@, "attempt_started_at"@, run_invalid()),
    first(nonempty(t.updated_at@, "attempt_updated_at"@, run_invalid()),
    if t.attempt_number == 0 {
        sf(run_invalid(), "Cadence requires autonomous attempt numbers to start at 1."@)
    } else if t.project_id@ != run.project_id@ || t.run_id@ != run.run_id@ || t.unit_id@
        != unit.unit_id@ {
        sf(
            run_invalid(),
            "Cadence requires autonomous attempts to share the parent run and unit linkage."@,
        )
    } else {
        None
    }))))
}

/// The fault of an attempt row under `run` and `unit`.
pub open spec fn attempt_fault(
    t: AutonomousUnitAttemptRecord,
    run: AutonomousRunRecord,
    unit: AutonomousUnitRecord,
) -> Option<Fault> {
    first(attempt_row_fault(t, run, unit),
    first(nonempty_opt(t.boundary_id, "attempt_boundary_id"@, run_invalid()),
    first(
        match t.last_error {
            Some(d) => first(
                nonempty(d.code@, "attempt_last_error_code"@, run_invalid()),
                nonempty(d.message@, "attempt_last_error_message"@, run_invalid()),
            ),
            None => None,
        },
        first(
            workflow_linkage_opt_fault(t.workflow_linkage, "attempt_workflow_linkage"@),
            matching_linkage_fault(unit.workflow_linkage, t.workflow_linkage),
        ),
    )))
}

/// The first fault among artifact rows, each with its canonical payload text.
pub open spec fn artifacts_fault(
    arts: Seq<AutonomousUnitArtifactRecord>,
    canon: Seq<Option<String>>,
    run: AutonomousRunRecord,
    unit: AutonomousUnitRecord,
    attempt: Option<AutonomousUnitAttemptRecord>,
) -> Option<Fault>
    decreases arts.len(),
{
    if arts.len() == 0 {
        None
    } else {
        first(
            artifact_record_fault(arts[0], run, unit, attempt, owned_text(canon[0])),
            artifacts_fault(arts.drop_first(), canon.drop_first(), run, unit, attempt),
        )
    }
}

/// The fault of a run upsert.
pub open spec fn upsert_fault(p: AutonomousRunUpsertRecord, canon: Seq<Option<String>>) -> Option<Fault> {
    first(
        run_fault(p.run),
        match p.unit {
            None => if p.attempt is Some || p.artifacts@.len() > 0 {
                sf(
                    run_invalid(),
                    "Cadence requires a durable autonomous unit row before attempts or artifacts can be persisted."@,
                )
            } else {
                None
            },
            Some(u) => first(
                unit_fault(u, p.run),
                first(
                    match p.attempt {
                        Some(t) => attempt_fault(t, p.run, u),
                        None => None,
                    },
                    artifacts_fault(p.artifacts@, canon, p.run, u, p.attempt),
                ),
            ),
        },
    )
}

/// Artifact rows with their canonical payload texts, one for one.
pub open spec fn artifacts_input_ok(arts: Seq<AutonomousUnitArtifactRecord>, canon: Seq<Option<String>>) -> bool {
    &&& canon.len() == arts.len()
    &&& forall|i: int| 0 <= i < arts.len() ==> artifact_input_ok(#[trigger] arts[i], owned_text(canon[i]))
}

/// `n` holds the rows of `arts`, each stored with its normalized hash.
pub open spec fn artifacts_normalized(
    arts: Seq<AutonomousUnitArtifactRecord>,
    canon: Seq<Option<String>>,
    n: Seq<AutonomousUnitArtifactRecord>,
) -> bool {
    &&& n.len() == arts.len()
    &&& forall|i: int| 0 <= i < arts.len() ==> {
        &&& same_but_hash(#[trigger] arts[i], n[i])
        &&& owned_text(n[i].content_hash) == normalized_hash(arts[i], owned_text(canon[i]))
    }
}

fn validate_unit(u: &AutonomousUnitRecord, run: &AutonomousRunRecord) -> (r: CommandResult<()>)
    ensures
        fault(r) == unit_fault(*u, *run),
{
    let r = validate_non_empty_text(u.unit_id.as_str(), "unit_id", RUN_REQUEST_INVALID);
    if r.is_err() {
        return r;
    }
    let r = validate_non_empty_text(u.summary.as_str(), "summary", RUN_REQUEST_INVALID);
    if r.is_err() {
        return r;
    }
    let r = validate_non_empty_text(u.started_at.as_str(), "started_at", RUN_REQUEST_INVALID);
    if r.is_err() {
        return r;
    }
    let r = validate_non_empty_text(u.updated_at.as_str(), "updated_at", RUN_REQUEST_INVALID);
    if r.is_err() {
        return r;
    }
    if u.sequence == 0 {
        return Err(
            CommandError::system_fault(
                RUN_REQUEST_INVALID,
                "Cadence requires autonomous unit sequences to start at 1.",
            ),
        );
    }
    if !str_eq(u.project_id.as_str(), run.project_id.as_str()) || !str_eq(
        u.run_id.as_str(),
        run.run_id.as_str(),
    ) {
        return Err(
            CommandError::system_fault(
                RUN_REQUEST_INVALID,
                "Cadence requires autonomous unit rows to share the parent run project_id and run_id.",
            ),
        );
    }
    let r = validate_text_opt(&u.boundary_id, "boundary_id");
    if r.is_err() {
        return r;
    }
    if let Some(hint) = find_prohibited_runtime_persistence_content(u.summary.as_str()) {
        let message = cat3(
            "Autonomous unit summaries must not include ",
            hint,
            ". Remove secret-bearing content before retrying.",
        );
        return Err(CommandError::user_fixable(RUN_REQUEST_INVALID, message.as_str()));
    }
    match normalize_autonomous_workflow_linkage_payload(
        u.workflow_linkage.as_ref(),
        "unit_workflow_linkage",
    ) {
        Err(e) => Err(e),
        Ok(_) => Ok(()),
    }
}

fn validate_attempt(
    t: &AutonomousUnitAttemptRecord,
    run: &AutonomousRunRecord,
    unit: &AutonomousUnitRecord,
) -> (r: CommandResult<()>)
    ensures
        fault(r) == attempt_fault(*t, *run, *unit),
{
    let r = validate_non_empty_text(t.attempt_id.as_str(), "attempt_id", RUN_REQUEST_INVALID);
    if r.is_err() {
        return r;
    }
    let r = validate_non_empty_text(t.child_session_id.as_str(), "child_session_id", RUN_REQUEST_INVALID);
    if r.is_err() {
        return r;
    }
    let r = validate_non_empty_text(t.started_at.as_str(), "attempt_started_at", RUN_REQUEST_INVALID);
    if r.is_err() {
        return r;
    }
    let r = validate_non_empty_text(t.updated_at.as_str(), "attempt_updated_at", RUN_REQUEST_INVALID);
    if r.is_err() {
        return r;
    }
    if t.attempt_number == 0 {
        return Err(
            CommandError::system_fault(
                RUN_REQUEST_INVALID,
                "Cadence requires autonomous attempt numbers to start at 1.",
            ),
        );
    }
    if !str_eq(t.project_id.as_str(), run.project_id.as_str()) || !str_eq(
        t.run_id.as_str(),
        run.run_id.as_str(),
    ) || !str_eq(t.unit_id.as_str(), unit.unit_id.as_str()) {
        return Err(
            CommandError::system_fault(
                RUN_REQUEST_INVALID,
                "Cadence requires autonomous attempts to share the parent run and unit linkage.",
            ),
        );
    }
    let r = validate_text_opt(&t.boundary_id, "attempt_boundary_id");
    if r.is_err() {
        return r;
    }
    if let Some(d) = &t.last_error {
        let r = validate_non_empty_text(d.code.as_str(), "attempt_last_error_code", RUN_REQUEST_INVALID);
        if r.is_err() {
            return r;
        }
        let r = validate_non_empty_text(
            d.message.as_str(),
            "attempt_last_error_message",
            RUN_REQUEST_INVALID,
        );
        if r.is_err() {
            return r;
        }
    }
    match normalize_autonomous_workflow_linkage_payload(
        t.workflow_linkage.as_ref(),
        "attempt_workflow_linkage",
    ) {
        Err(e) => Err(e),
        Ok(_) => validate_matching_autonomous_workflow_linkage_payloads(
            unit.workflow_linkage.as_ref(),
            t.workflow_linkage.as_ref(),
        ),
    }
}

/// Checks a run upsert and stores each artifact with the hash of its
/// canonical payload; `canonical_payloads[i]` is the canonical JSON text of
/// the payload of artifact `i`, where it has one. Nothing here ties those
/// texts to the payload records: the caller serialises them.
pub fn normalize_autonomous_run_upsert_payload(
    payload: AutonomousRunUpsertRecord,
    canonical_payloads: &Vec<Option<String>>,
) -> (r: CommandResult<AutonomousRunUpsertRecord>)
    requires
        artifacts_input_ok(payload.artifacts@, canonical_payloads@),
    ensures
        fault(r) == upsert_fault(payload, canonical_payloads@),
        r matches Ok(n) ==> {
            &&& n.run == payload.run
            &&& n.unit == payload.unit
            &&& n.attempt == payload.attempt
            &&& artifacts_normalized(payload.artifacts@, canonical_payloads@, n.artifacts@)
        },
{
    let ghost orig = payload;
    let r = validate_autonomous_run_payload(&payload.run);
    if let Err(e) = r {
        return Err(e);
    }
    let AutonomousRunUpsertRecord { run, unit, attempt, artifacts } = payload;
    let u = match unit {
        None => {
            if attempt.is_some() || artifacts.len() > 0 {
                return Err(
                    CommandError::system_fault(
                        RUN_REQUEST_INVALID,
                        "Cadence requires a durable autonomous unit row before attempts or artifacts can be persisted.",
                    ),
                );
            }
            return Ok(AutonomousRunUpsertRecord { run, unit: None, attempt, artifacts });
        },
        Some(u) => u,
    };
    let r = validate_unit(&u, &run);
    if let Err(e) = r {
        return Err(e);
    }
    if let Some(t) = &attempt {
        let r = validate_attempt(t, &run, &u);
        if let Err(e) = r {
            return Err(e);
        }
    }
    let ghost arts = artifacts@;
    let ghost canon = canonical_payloads@;
    let n = artifacts.len();
    let mut rest = artifacts;
    let mut out: Vec<AutonomousUnitArtifactRecord> = Vec::new();
    let mut i: usize = 0;
    proof {
        assert(arts.subrange(0, n as int) =~= arts);
        assert(canon.subrange(0, n as int) =~= canon);
    }
    while i < n
        invariant
            n == arts.len(),
            artifacts_input_ok(arts, canon),
            canon == canonical_payloads@,
            upsert_fault(orig, canon) == artifacts_fault(arts, canon, run, u, attempt),
            orig == payload,
            orig.run == run,
            orig.unit == Some(u),
            orig.attempt == attempt,
            orig.artifacts@ == arts,
            i <= n,
            rest@ == arts.subrange(i as int, n as int),
            out@.len() == i,
            forall|k: int| 0 <= k < i ==> {
                &&& same_but_hash(#[trigger] arts[k], out@[k])
                &&& owned_text(out@[k].content_hash) == normalized_hash(arts[k], owned_text(canon[k]))
            },
            artifacts_fault(arts, canon, run, u, attempt) == artifacts_fault(
                arts.subrange(i as int, n as int),
                canon.subrange(i as int, n as int),
                run,
                u,
                attempt,
            ),
        decreases n - i,
    {
        let a = rest.remove(0);
        proof {
            assert(arts.subrange(i as int, n as int).drop_first() =~= arts.subrange(i + 1, n as int));
            assert(canon.subrange(i as int, n as int).drop_first() =~= canon.subrange(i + 1, n as int));
            assert(arts[i as int] == a);
        }
        let c = opt_str(&canonical_payloads[i]);
        let t = attempt.as_ref();
        proof {
            assert(opt_record(t) == attempt);
            assert(borrowed_text(c) == owned_text(canon[i as int]));
        }
        match normalize_autonomous_unit_artifact_record(a, &run, &u, t, c) {
            Err(e) => {
                return Err(e);
            },
            Ok(normalized) => {
                out.push(normalized);
            },
        }
        i = i + 1;
    }
    proof {
        assert(arts.subrange(n as int, n as int).len() == 0);
    }
    Ok(AutonomousRunUpsertRecord { run, unit: Some(u), attempt, artifacts: out })
}

} // verus!

verus! {

/// Whether the run id can be cut out of `action_id` once the earlier checks
/// pass: `action_boundary_cuttable`.
pub fn is_action_boundary_cuttable(action_id: &str, boundary_id: &str) -> (r: bool)
    ensures
        r == action_boundary_cuttable(action_id@, boundary_id@),
{
    let a = chars_of(action_id);
    let b = chars_of(boundary_id);
    if has_whitespace(&a) || has_char_exec(&b, ':') || has_whitespace(&b) {
        return true;
    }
    let run_marker = chars_of(":run:");
    let marker_text = crate::text::cat3(":boundary:", boundary_id, ":");
    let marker = chars_of(marker_text.as_str());
    proof {
        reveal_strlit(":run:");
    }
    match (find_chars(&a, &run_marker), find_chars(&a, &marker)) {
        (Some(rs), Some(bs)) => rs == 0 || (rs as u128) + 5 <= (bs as u128),
        _ => true,
    }
}

fn is_linkage_cuttable(action_id: &Option<String>, boundary_id: &Option<String>) -> (r: bool)
    ensures
        r == artifact_linkage_cuttable(owned_text(*action_id), owned_text(*boundary_id)),
{
    match (action_id, boundary_id) {
        (Some(a), Some(b)) => {
            if crate::text::is_blank(a.as_str()) || crate::text::is_blank(b.as_str()) {
                return true;
            }
            let ta = crate::text::trim_string(a.as_str());
            let tb = crate::text::trim_string(b.as_str());
            is_action_boundary_cuttable(ta.as_str(), tb.as_str())
        },
        _ => true,
    }
}

/// Whether the payload's action id can be cut where its boundary id is
/// given: `payload_cuttable`.
pub fn is_payload_cuttable(p: &AutonomousArtifactPayloadRecord) -> (r: bool)
    ensures
        r == payload_cuttable(*p),
{
    match p {
        AutonomousArtifactPayloadRecord::ToolResult(t) => is_linkage_cuttable(&t.action_id, &t.boundary_id),
        AutonomousArtifactPayloadRecord::VerificationEvidence(e) => is_linkage_cuttable(&e.action_id, &e.boundary_id),
        AutonomousArtifactPayloadRecord::PolicyDenied(d) => is_linkage_cuttable(&d.action_id, &d.boundary_id),
        AutonomousArtifactPayloadRecord::SkillLifecycle(_) => true,
    }
}

/// Whether artifact rows and canonical payload texts can be checked
/// together: `artifacts_input_ok`.
pub fn artifacts_input_checkable(arts: &Vec<AutonomousUnitArtifactRecord>, canonical_payloads: &Vec<Option<String>>) -> (r:
    bool)
    ensures
        r == artifacts_input_ok(arts@, canonical_payloads@),
{
    if arts.len() != canonical_payloads.len() {
        return false;
    }
    let mut i: usize = 0;
    while i < arts.len()
        invariant
            i <= arts.len() == canonical_payloads.len(),
            forall|k: int| 0 <= k < i ==> artifact_input_ok(#[trigger] arts@[k], owned_text(canonical_payloads@[k])),
        decreases arts.len() - i,
    {
        let ok = match (&arts[i].payload, &canonical_payloads[i]) {
            (Some(p), Some(_)) => is_payload_cuttable(p),
            (None, None) => true,
            _ => false,
        };
        if !ok {
            assert(!artifact_input_ok(arts@[i as int], owned_text(canonical_payloads@[i as int])));
            return false;
        }
        i = i + 1;
    }
    true
}

/// `normalize_autonomous_run_upsert_payload` where its inputs can be
/// checked; `None` where the canonical texts do not match the artifacts
/// one for one, or an artifact's action id cannot be cut at its boundary
/// (inputs on which cutting the action id would run backwards).
pub fn normalize_checked_autonomous_run_upsert_payload(
    payload: AutonomousRunUpsertRecord,
    canonical_payloads: &Vec<Option<String>>,
) -> (r: Option<CommandResult<AutonomousRunUpsertRecord>>)
    ensures
        !artifacts_input_ok(payload.artifacts@, canonical_payloads@) ==> r is None,
        artifacts_input_ok(payload.artifacts@, canonical_payloads@) ==> (r matches Some(res) && fault(res)
            == upsert_fault(payload, canonical_payloads@) && (res matches Ok(n) ==> {
            &&& n.run == payload.run
            &&& n.unit == payload.unit
            &&& n.attempt == payload.attempt
            &&& artifacts_normalized(payload.artifacts@, canonical_payloads@, n.artifacts@)
        })),
{
    if !artifacts_input_checkable(&payload.artifacts, canonical_payloads) {
        return None;
    }
    Some(normalize_autonomous_run_upsert_payload(payload, canonical_payloads))
}

} // verus!
