//! Durable records of autonomous runs, units, attempts and artifacts, their
//! SQL text forms, and the rules a record must meet before it is persisted.

use vstd::prelude::*;
use crate::contracts::{
    BrowserComputerUseActionStatusDto, ToolResultSummaryDto,
};
use crate::error::{
    CommandError, CommandErrorClass, CommandResult, Fault, fault, first, nonempty, nonempty_opt, pd, sf, uf,
    validate_non_empty_text,
};
use crate::redaction::{find_prohibited_runtime_persistence_content, prohibited_hint};
use crate::text::{cat3, chars_of, has_char, is_ws, own, str_eq};

verus! {

pub const AUTONOMOUS_ARTIFACT_KIND_TOOL_RESULT: &'static str = "tool_result";
pub const AUTONOMOUS_ARTIFACT_KIND_VERIFICATION_EVIDENCE: &'static str = "verification_evidence";
pub const AUTONOMOUS_ARTIFACT_KIND_POLICY_DENIED: &'static str = "policy_denied";
pub const AUTONOMOUS_ARTIFACT_KIND_SKILL_LIFECYCLE: &'static str = "skill_lifecycle";
pub const MAX_BROWSER_COMPUTER_USE_SUMMARY_TEXT_CHARS: usize = 512;

#[derive(Debug, Clone, Copy, PartialEq, Eq, Structural)]
pub enum AutonomousRunStatus {
    Starting,
    Running,
    Paused,
    Cancelling,
    Cancelled,
    Stale,
    Failed,
    Stopped,
    Crashed,
    Completed,
}

#[derive(Debug, Clone, Copy, PartialEq, Eq, Structural)]
pub enum AutonomousUnitKind {
    Researcher,
    Planner,
    Executor,
    Verifier,
}

#[derive(Debug, Clone, Copy, PartialEq, Eq, Structural)]
pub enum AutonomousUnitStatus {
    Pending,
    Active,
    Blocked,
    Paused,
    Completed,
    Cancelled,
    Failed,
}

#[derive(Debug, Clone, Copy, PartialEq, Eq, Structural)]
pub enum AutonomousUnitArtifactStatus {
    Pending,
    Recorded,
    Rejected,
    Redacted,
}

#[derive(Debug, Clone, Copy, PartialEq, Eq, Structural)]
pub enum AutonomousToolCallStateRecord {
    Pending,
    Running,
    Succeeded,
    Failed,
}

#[derive(Debug, Clone, Copy, PartialEq, Eq, Structural)]
pub enum AutonomousVerificationOutcomeRecord {
    Passed,
    Failed,
    Blocked,
}

#[derive(Debug, Clone)]
pub struct AutonomousArtifactCommandResultRecord {
    pub exit_code: Option<i32>,
    pub timed_out: bool,
    pub summary: String,
}

#[derive(Debug, Clone)]
pub struct AutonomousToolResultPayloadRecord {
    pub project_id: String,
    pub run_id: String,
    pub unit_id: String,
    pub attempt_id: String,
    pub artifact_id: String,
    pub tool_call_id: String,
    pub tool_name: String,
    pub tool_state: AutonomousToolCallStateRecord,
    pub command_result: Option<AutonomousArtifactCommandResultRecord>,
    pub tool_summary: Option<ToolResultSummaryDto>,
    pub action_id: Option<String>,
    pub boundary_id: Option<String>,
}

#[derive(Debug, Clone)]
pub struct AutonomousVerificationEvidencePayloadRecord {
    pub project_id: String,
    pub run_id: String,
    pub unit_id: String,
    pub attempt_id: String,
    pub artifact_id: String,
    pub evidence_kind: String,
    pub label: String,
    pub outcome: AutonomousVerificationOutcomeRecord,
    pub command_result: Option<AutonomousArtifactCommandResultRecord>,
    pub action_id: Option<String>,
    pub boundary_id: Option<String>,
}

#[derive(Debug, Clone)]
pub struct AutonomousPolicyDeniedPayloadRecord {
    pub project_id: String,
    pub run_id: String,
    pub unit_id: String,
    pub attempt_id: String,
    pub artifact_id: String,
    pub diagnostic_code: String,
    pub message: String,
    pub tool_name: Option<String>,
    pub action_id: Option<String>,
    pub boundary_id: Option<String>,
}

#[derive(Debug, Clone, Copy, PartialEq, Eq, Structural)]
pub enum AutonomousSkillLifecycleStageRecord {
    Discovery,
    Install,
    Invoke,
}

#[derive(Debug, Clone, Copy, PartialEq, Eq, Structural)]
pub enum AutonomousSkillLifecycleResultRecord {
    Succeeded,
    Failed,
}

#[derive(Debug, Clone, Copy, PartialEq, Eq, Structural)]
pub enum AutonomousSkillCacheStatusRecord {
    Miss,
    Hit,
    Refreshed,
}

#[derive(Debug, Clone)]
pub struct AutonomousSkillLifecycleSourceRecord {
    pub repo: String,
    pub path: String,
    pub reference: String,
    pub tree_hash: String,
}

#[derive(Debug, Clone)]
pub struct AutonomousSkillLifecycleCacheRecord {
    pub key: String,
    pub status: Option<AutonomousSkillCacheStatusRecord>,
}

#[derive(Debug, Clone)]
pub struct AutonomousSkillLifecycleDiagnosticRecord {
    pub code: String,
    pub message: String,
    pub retryable: bool,
}

#[derive(Debug, Clone)]
pub struct AutonomousSkillLifecyclePayloadRecord {
    pub project_id: String,
    pub run_id: String,
    pub unit_id: String,
    pub attempt_id: String,
    pub artifact_id: String,
    pub stage: AutonomousSkillLifecycleStageRecord,
    pub result: AutonomousSkillLifecycleResultRecord,
    pub skill_id: String,
    pub source: AutonomousSkillLifecycleSourceRecord,
    pub cache: AutonomousSkillLifecycleCacheRecord,
    pub diagnostic: Option<AutonomousSkillLifecycleDiagnosticRecord>,
}

#[derive(Debug, Clone)]
pub enum AutonomousArtifactPayloadRecord {
    ToolResult(AutonomousToolResultPayloadRecord),
    VerificationEvidence(AutonomousVerificationEvidencePayloadRecord),
    PolicyDenied(AutonomousPolicyDeniedPayloadRecord),
    SkillLifecycle(AutonomousSkillLifecyclePayloadRecord),
}

/// A diagnostic recorded on a run, unit or attempt.
#[derive(Debug, Clone)]
pub struct RuntimeRunDiagnosticRecord {
    pub code: String,
    pub message: String,
}

#[derive(Debug, Clone)]
pub struct AutonomousRunRecord {
    pub project_id: String,
    pub agent_session_id: String,
    pub run_id: String,
    pub runtime_kind: String,
    pub provider_id: String,
    pub supervisor_kind: String,
    pub status: AutonomousRunStatus,
    pub active_unit_sequence: Option<u32>,
    pub duplicate_start_detected: bool,
    pub duplicate_start_run_id: Option<String>,
    pub duplicate_start_reason: Option<String>,
    pub started_at: String,
    pub last_heartbeat_at: Option<String>,
    pub last_checkpoint_at: Option<String>,
    pub paused_at: Option<String>,
    pub cancelled_at: Option<String>,
    pub completed_at: Option<String>,
    pub crashed_at: Option<String>,
    pub stopped_at: Option<String>,
    pub pause_reason: Option<RuntimeRunDiagnosticRecord>,
    pub cancel_reason: Option<RuntimeRunDiagnosticRecord>,
    pub crash_reason: Option<RuntimeRunDiagnosticRecord>,
    pub last_error: Option<RuntimeRunDiagnosticRecord>,
    pub updated_at: String,
}

#[derive(Debug, Clone)]
pub struct AutonomousWorkflowLinkageRecord {
    pub workflow_node_id: String,
    pub transition_id: String,
    pub causal_transition_id: Option<String>,
    pub handoff_transition_id: String,
    pub handoff_package_hash: String,
}

#[derive(Debug, Clone)]
pub struct AutonomousUnitRecord {
    pub project_id: String,
    pub run_id: String,
    pub unit_id: String,
    pub sequence: u32,
    pub kind: AutonomousUnitKind,
    pub status: AutonomousUnitStatus,
    pub summary: String,
    pub boundary_id: Option<String>,
    pub workflow_linkage: Option<AutonomousWorkflowLinkageRecord>,
    pub started_at: String,
    pub finished_at: Option<String>,
    pub updated_at: String,
    pub last_error: Option<RuntimeRunDiagnosticRecord>,
}

#[derive(Debug, Clone)]
pub struct AutonomousUnitAttemptRecord {
    pub project_id: String,
    pub run_id: String,
    pub unit_id: String,
    pub attempt_id: String,
    pub attempt_number: u32,
    pub child_session_id: String,
    pub status: AutonomousUnitStatus,
    pub boundary_id: Option<String>,
    pub workflow_linkage: Option<AutonomousWorkflowLinkageRecord>,
    pub started_at: String,
    pub finished_at: Option<String>,
    pub updated_at: String,
    pub last_error: Option<RuntimeRunDiagnosticRecord>,
}

#[derive(Debug, Clone)]
pub struct AutonomousUnitArtifactRecord {
    pub project_id: String,
    pub run_id: String,
    pub unit_id: String,
    pub attempt_id: String,
    pub artifact_id: String,
    pub artifact_kind: String,
    pub status: AutonomousUnitArtifactStatus,
    pub summary: String,
    pub content_hash: Option<String>,
    pub payload: Option<AutonomousArtifactPayloadRecord>,
    pub created_at: String,
    pub updated_at: String,
}

#[derive(Debug, Clone)]
pub struct AutonomousUnitHistoryRecord {
    pub unit: AutonomousUnitRecord,
    pub latest_attempt: Option<AutonomousUnitAttemptRecord>,
    pub artifacts: Vec<AutonomousUnitArtifactRecord>,
}

#[derive(Debug, Clone)]
pub struct AutonomousRunUpsertRecord {
    pub run: AutonomousRunRecord,
    pub unit: Option<AutonomousUnitRecord>,
    pub attempt: Option<AutonomousUnitAttemptRecord>,
    pub artifacts: Vec<AutonomousUnitArtifactRecord>,
}

#[derive(Debug, Clone)]
pub struct AutonomousRunSnapshotRecord {
    pub run: AutonomousRunRecord,
    pub unit: Option<AutonomousUnitRecord>,
    pub attempt: Option<AutonomousUnitAttemptRecord>,
    pub history: Vec<AutonomousUnitHistoryRecord>,
}

// ---------------------------------------------------------------- SQL text

pub open spec fn run_status_text(s: AutonomousRunStatus) -> Seq<char> {
    match s {
        AutonomousRunStatus::Starting => "starting"@,
        AutonomousRunStatus::Running => "running"@,
        AutonomousRunStatus::Paused => "paused"@,
        AutonomousRunStatus::Cancelling => "cancelling"@,
        AutonomousRunStatus::Cancelled => "cancelled"@,
        AutonomousRunStatus::Stale => "stale"@,
        AutonomousRunStatus::Failed => "failed"@,
        AutonomousRunStatus::Stopped => "stopped"@,
        AutonomousRunStatus::Crashed => "crashed"@,
        AutonomousRunStatus::Completed => "completed"@,
    }
}

pub open spec fn unit_kind_text(k: AutonomousUnitKind) -> Seq<char> {
    match k {
        AutonomousUnitKind::Researcher => "researcher"@,
        AutonomousUnitKind::Planner => "planner"@,
        AutonomousUnitKind::Executor => "executor"@,
        AutonomousUnitKind::Verifier => "verifier"@,
    }
}

pub open spec fn unit_status_text(s: AutonomousUnitStatus) -> Seq<char> {
    match s {
        AutonomousUnitStatus::Pending => "pending"@,
        AutonomousUnitStatus::Active => "active"@,
        AutonomousUnitStatus::Blocked => "blocked"@,
        AutonomousUnitStatus::Paused => "paused"@,
        AutonomousUnitStatus::Completed => "completed"@,
        AutonomousUnitStatus::Cancelled => "cancelled"@,
        AutonomousUnitStatus::Failed => "failed"@,
    }
}

pub open spec fn artifact_status_text(s: AutonomousUnitArtifactStatus) -> Seq<char> {
    match s {
        AutonomousUnitArtifactStatus::Pending => "pending"@,
        AutonomousUnitArtifactStatus::Recorded => "recorded"@,
        AutonomousUnitArtifactStatus::Rejected => "rejected"@,
        AutonomousUnitArtifactStatus::Redacted => "redacted"@,
    }
}

/// The text of a parse result: the value, or the error message.
pub open spec fn parsed<T>(r: Result<T, String>) -> Result<T, Seq<char>> {
    match r {
        Ok(v) => Ok(v),
        Err(e) => Err(e@),
    }
}


/// The run status whose SQL text is `v`.
pub open spec fn run_status_of(v: Seq<char>) -> Option<AutonomousRunStatus> {
    if exists|s: AutonomousRunStatus| run_status_text(s) == v {
        Some(choose|s: AutonomousRunStatus| run_status_text(s) == v)
    } else {
        None
    }
}

pub open spec fn unit_kind_of(v: Seq<char>) -> Option<AutonomousUnitKind> {
    if exists|s: AutonomousUnitKind| unit_kind_text(s) == v {
        Some(choose|s: AutonomousUnitKind| unit_kind_text(s) == v)
    } else {
        None
    }
}

pub open spec fn unit_status_of(v: Seq<char>) -> Option<AutonomousUnitStatus> {
    if exists|s: AutonomousUnitStatus| unit_status_text(s) == v {
        Some(choose|s: AutonomousUnitStatus| unit_status_text(s) == v)
    } else {
        None
    }
}

pub open spec fn artifact_status_of(v: Seq<char>) -> Option<AutonomousUnitArtifactStatus> {
    if exists|s: AutonomousUnitArtifactStatus| artifact_status_text(s) == v {
        Some(choose|s: AutonomousUnitArtifactStatus| artifact_status_text(s) == v)
    } else {
        None
    }
}

proof fn lemma_texts_distinct()
    ensures
        forall|a: AutonomousRunStatus, b: AutonomousRunStatus| run_status_text(a) == run_status_text(b) ==> a == b,
        forall|a: AutonomousUnitKind, b: AutonomousUnitKind| unit_kind_text(a) == unit_kind_text(b) ==> a == b,
        forall|a: AutonomousUnitStatus, b: AutonomousUnitStatus| unit_status_text(a) == unit_status_text(b) ==> a == b,
        forall|a: AutonomousUnitArtifactStatus, b: AutonomousUnitArtifactStatus| artifact_status_text(a) == artifact_status_text(b) ==> a == b,
{
    reveal_strlit("starting");
    assert("starting"@.len() == 8 && "starting"@[0] == 's' && "starting"@[1] == 't' && "starting"@[2] == 'a');
    reveal_strlit("running");
    assert("running"@.len() == 7 && "running"@[0] == 'r' && "running"@[1] == 'u' && "running"@[2] == 'n');
    reveal_strlit("paused");
    assert("paused"@.len() == 6 && "paused"@[0] == 'p' && "paused"@[1] == 'a' && "paused"@[2] == 'u');
    reveal_strlit("cancelling");
    assert("cancelling"@.len() == 10 && "cancelling"@[0] == 'c' && "cancelling"@[1] == 'a' && "cancelling"@[2] == 'n');
    reveal_strlit("cancelled");
    assert("cancelled"@.len() == 9 && "cancelled"@[0] == 'c' && "cancelled"@[1] == 'a' && "cancelled"@[2] == 'n');
    reveal_strlit("stale");
    assert("stale"@.len() == 5 && "stale"@[0] == 's' && "stale"@[1] == 't' && "stale"@[2] == 'a');
    reveal_strlit("failed");
    assert("failed"@.len() == 6 && "failed"@[0] == 'f' && "failed"@[1] == 'a' && "failed"@[2] == 'i');
    reveal_strlit("stopped");
    assert("stopped"@.len() == 7 && "stopped"@[0] == 's' && "stopped"@[1] == 't' && "stopped"@[2] == 'o');
    reveal_strlit("crashed");
    assert("crashed"@.len() == 7 && "crashed"@[0] == 'c' && "crashed"@[1] == 'r' && "crashed"@[2] == 'a');
    reveal_strlit("completed");
    assert("completed"@.len() == 9 && "completed"@[0] == 'c' && "completed"@[1] == 'o' && "completed"@[2] == 'm');
    reveal_strlit("researcher");
    assert("researcher"@.len() == 10 && "researcher"@[0] == 'r' && "researcher"@[1] == 'e' && "researcher"@[2] == 's');
    reveal_strlit("planner");
    assert("planner"@.len() == 7 && "planner"@[0] == 'p' && "planner"@[1] == 'l' && "planner"@[2] == 'a');
    reveal_strlit("executor");
    assert("executor"@.len() == 8 && "executor"@[0] == 'e' && "executor"@[1] == 'x' && "executor"@[2] == 'e');
    reveal_strlit("verifier");
    assert("verifier"@.len() == 8 && "verifier"@[0] == 'v' && "verifier"@[1] == 'e' && "verifier"@[2] == 'r');
    reveal_strlit("pending");
    assert("pending"@.len() == 7 && "pending"@[0] == 'p' && "pending"@[1] == 'e' && "pending"@[2] == 'n');
    reveal_strlit("active");
    assert("active"@.len() == 6 && "active"@[0] == 'a' && "active"@[1] == 'c' && "active"@[2] == 't');
    reveal_strlit("blocked");
    assert("blocked"@.len() == 7 && "blocked"@[0] == 'b' && "blocked"@[1] == 'l' && "blocked"@[2] == 'o');
    reveal_strlit("recorded");
    assert("recorded"@.len() == 8 && "recorded"@[0] == 'r' && "recorded"@[1] == 'e' && "recorded"@[2] == 'c');
    reveal_strlit("rejected");
    assert("rejected"@.len() == 8 && "rejected"@[0] == 'r' && "rejected"@[1] == 'e' && "rejected"@[2] == 'j');
    reveal_strlit("redacted");
    assert("redacted"@.len() == 8 && "redacted"@[0] == 'r' && "redacted"@[1] == 'e' && "redacted"@[2] == 'd');
}

/// Parsing the SQL text of a value gives the value back.
pub proof fn law_sql_text_round_trips()
    ensures
        forall|s: AutonomousRunStatus| run_status_of(#[trigger] run_status_text(s)) == Some(s),
        forall|s: AutonomousUnitKind| unit_kind_of(#[trigger] unit_kind_text(s)) == Some(s),
        forall|s: AutonomousUnitStatus| unit_status_of(#[trigger] unit_status_text(s)) == Some(s),
        forall|s: AutonomousUnitArtifactStatus| artifact_status_of(#[trigger] artifact_status_text(s)) == Some(s),
{
    lemma_texts_distinct();
}

pub fn autonomous_run_status_sql_value(value: &AutonomousRunStatus) -> (s: &'static str)
    ensures
        s@ == run_status_text(*value),
{
    match value {
        AutonomousRunStatus::Starting => "starting",
        AutonomousRunStatus::Running => "running",
        AutonomousRunStatus::Paused => "paused",
        AutonomousRunStatus::Cancelling => "cancelling",
        AutonomousRunStatus::Cancelled => "cancelled",
        AutonomousRunStatus::Stale => "stale",
        AutonomousRunStatus::Failed => "failed",
        AutonomousRunStatus::Stopped => "stopped",
        AutonomousRunStatus::Crashed => "crashed",
        AutonomousRunStatus::Completed => "completed",
    }
}

pub fn parse_autonomous_run_status(value: &str) -> (r: Result<AutonomousRunStatus, String>)
    ensures
        parsed(r) == match run_status_of(value@) {
            Some(s) => Ok(s),
            None => Err("must be a known autonomous-run status, found `"@ + value@ + "`."@),
        },
{
    proof {
        lemma_texts_distinct();
    }
    let all = [
        AutonomousRunStatus::Starting,
        AutonomousRunStatus::Running,
        AutonomousRunStatus::Paused,
        AutonomousRunStatus::Cancelling,
        AutonomousRunStatus::Cancelled,
        AutonomousRunStatus::Stale,
        AutonomousRunStatus::Failed,
        AutonomousRunStatus::Stopped,
        AutonomousRunStatus::Crashed,
        AutonomousRunStatus::Completed,
    ];
    let mut i: usize = 0;
    while i < 10
        invariant
            i <= 10,
            all@ == seq![
                AutonomousRunStatus::Starting,
                AutonomousRunStatus::Running,
                AutonomousRunStatus::Paused,
                AutonomousRunStatus::Cancelling,
                AutonomousRunStatus::Cancelled,
                AutonomousRunStatus::Stale,
                AutonomousRunStatus::Failed,
                AutonomousRunStatus::Stopped,
                AutonomousRunStatus::Crashed,
                AutonomousRunStatus::Completed,
            ],
            forall|j: int| 0 <= j < i ==> run_status_text(#[trigger] all@[j]) != value@,
        decreases 10 - i,
    {
        if str_eq(value, autonomous_run_status_sql_value(&all[i])) {
            proof {
                lemma_texts_distinct();
                assert(run_status_text(all@[i as int]) == value@);
            }
            return Ok(all[i]);
        }
        i = i + 1;
    }
    proof {
        assert forall|s: AutonomousRunStatus| run_status_text(s) != value@ by {
            match s {
                AutonomousRunStatus::Starting => assert(all@[0] == s),
                AutonomousRunStatus::Running => assert(all@[1] == s),
                AutonomousRunStatus::Paused => assert(all@[2] == s),
                AutonomousRunStatus::Cancelling => assert(all@[3] == s),
                AutonomousRunStatus::Cancelled => assert(all@[4] == s),
                AutonomousRunStatus::Stale => assert(all@[5] == s),
                AutonomousRunStatus::Failed => assert(all@[6] == s),
                AutonomousRunStatus::Stopped => assert(all@[7] == s),
                AutonomousRunStatus::Crashed => assert(all@[8] == s),
                AutonomousRunStatus::Completed => assert(all@[9] == s),
            }
        }
    }
    Err(cat3("must be a known autonomous-run status, found `", value, "`."))
}


pub fn autonomous_unit_kind_sql_value(value: &AutonomousUnitKind) -> (s: &'static str)
    ensures
        s@ == unit_kind_text(*value),
{
    match value {
        AutonomousUnitKind::Researcher => "researcher",
        AutonomousUnitKind::Planner => "planner",
        AutonomousUnitKind::Executor => "executor",
        AutonomousUnitKind::Verifier => "verifier",
    }
}

pub fn parse_autonomous_unit_kind(value: &str) -> (r: Result<AutonomousUnitKind, String>)
    ensures
        parsed(r) == match unit_kind_of(value@) {
            Some(s) => Ok(s),
            None => Err("must be a known autonomous-unit kind, found `"@ + value@ + "`."@),
        },
{
    let all = [
        AutonomousUnitKind::Researcher,
        AutonomousUnitKind::Planner,
        AutonomousUnitKind::Executor,
        AutonomousUnitKind::Verifier,
    ];
    let mut i: usize = 0;
    while i < 4
        invariant
            i <= 4,
            all@ == seq![
                AutonomousUnitKind::Researcher,
                AutonomousUnitKind::Planner,
                AutonomousUnitKind::Executor,
                AutonomousUnitKind::Verifier,
            ],
            forall|j: int| 0 <= j < i ==> unit_kind_text(#[trigger] all@[j]) != value@,
        decreases 4 - i,
    {
        if str_eq(value, autonomous_unit_kind_sql_value(&all[i])) {
            proof {
                lemma_texts_distinct();
                assert(unit_kind_text(all@[i as int]) == value@);
            }
            return Ok(all[i]);
        }
        i = i + 1;
    }
    proof {
        assert forall|s: AutonomousUnitKind| unit_kind_text(s) != value@ by {
            match s {
                AutonomousUnitKind::Researcher => assert(all@[0] == s),
                AutonomousUnitKind::Planner => assert(all@[1] == s),
                AutonomousUnitKind::Executor => assert(all@[2] == s),
                AutonomousUnitKind::Verifier => assert(all@[3] == s),
            }
        }
    }
    Err(cat3("must be a known autonomous-unit kind, found `", value, "`."))
}

pub fn autonomous_unit_status_sql_value(value: &AutonomousUnitStatus) -> (s: &'static str)
    ensures
        s@ == unit_status_text(*value),
{
    match value {
        AutonomousUnitStatus::Pending => "pending",
        AutonomousUnitStatus::Active => "active",
        AutonomousUnitStatus::Blocked => "blocked",
        AutonomousUnitStatus::Paused => "paused",
        AutonomousUnitStatus::Completed => "completed",
        AutonomousUnitStatus::Cancelled => "cancelled",
        AutonomousUnitStatus::Failed => "failed",
    }
}

pub fn parse_autonomous_unit_status(value: &str) -> (r: Result<AutonomousUnitStatus, String>)
    ensures
        parsed(r) == match unit_status_of(value@) {
            Some(s) => Ok(s),
            None => Err("must be a known autonomous-unit status, found `"@ + value@ + "`."@),
        },
{
    let all = [
        AutonomousUnitStatus::Pending,
        AutonomousUnitStatus::Active,
        AutonomousUnitStatus::Blocked,
        AutonomousUnitStatus::Paused,
        AutonomousUnitStatus::Completed,
        AutonomousUnitStatus::Cancelled,
        AutonomousUnitStatus::Failed,
    ];
    let mut i: usize = 0;
    while i < 7
        invariant
            i <= 7,
            all@ == seq![
                AutonomousUnitStatus::Pending,
                AutonomousUnitStatus::Active,
                AutonomousUnitStatus::Blocked,
                AutonomousUnitStatus::Paused,
                AutonomousUnitStatus::Completed,
                AutonomousUnitStatus::Cancelled,
                AutonomousUnitStatus::Failed,
            ],
            forall|j: int| 0 <= j < i ==> unit_status_text(#[trigger] all@[j]) != value@,
        decreases 7 - i,
    {
        if str_eq(value, autonomous_unit_status_sql_value(&all[i])) {
            proof {
                lemma_texts_distinct();
                assert(unit_status_text(all@[i as int]) == value@);
            }
            return Ok(all[i]);
        }
        i = i + 1;
    }
    proof {
        assert forall|s: AutonomousUnitStatus| unit_status_text(s) != value@ by {
            match s {
                AutonomousUnitStatus::Pending => assert(all@[0] == s),
                AutonomousUnitStatus::Active => assert(all@[1] == s),
                AutonomousUnitStatus::Blocked => assert(all@[2] == s),
                AutonomousUnitStatus::Paused => assert(all@[3] == s),
                AutonomousUnitStatus::Completed => assert(all@[4] == s),
                AutonomousUnitStatus::Cancelled => assert(all@[5] == s),
                AutonomousUnitStatus::Failed => assert(all@[6] == s),
            }
        }
    }
    Err(cat3("must be a known autonomous-unit status, found `", value, "`."))
}

pub fn autonomous_unit_artifact_status_sql_value(value: &AutonomousUnitArtifactStatus) -> (s: &'static str)
    ensures
        s@ == artifact_status_text(*value),
{
    match value {
        AutonomousUnitArtifactStatus::Pending => "pending",
        AutonomousUnitArtifactStatus::Recorded => "recorded",
        AutonomousUnitArtifactStatus::Rejected => "rejected",
        AutonomousUnitArtifactStatus::Redacted => "redacted",
    }
}

pub fn parse_autonomous_unit_artifact_status(value: &str) -> (r: Result<AutonomousUnitArtifactStatus, String>)
    ensures
        parsed(r) == match artifact_status_of(value@) {
            Some(s) => Ok(s),
            None => Err("must be a known autonomous-artifact status, found `"@ + value@ + "`."@),
        },
{
    let all = [
        AutonomousUnitArtifactStatus::Pending,
        AutonomousUnitArtifactStatus::Recorded,
        AutonomousUnitArtifactStatus::Rejected,
        AutonomousUnitArtifactStatus::Redacted,
    ];
    let mut i: usize = 0;
    while i < 4
        invariant
            i <= 4,
            all@ == seq![
                AutonomousUnitArtifactStatus::Pending,
                AutonomousUnitArtifactStatus::Recorded,
                AutonomousUnitArtifactStatus::Rejected,
                AutonomousUnitArtifactStatus::Redacted,
            ],
            forall|j: int| 0 <= j < i ==> artifact_status_text(#[trigger] all@[j]) != value@,
        decreases 4 - i,
    {
        if str_eq(value, autonomous_unit_artifact_status_sql_value(&all[i])) {
            proof {
                lemma_texts_distinct();
                assert(artifact_status_text(all@[i as int]) == value@);
            }
            return Ok(all[i]);
        }
        i = i + 1;
    }
    proof {
        assert forall|s: AutonomousUnitArtifactStatus| artifact_status_text(s) != value@ by {
            match s {
                AutonomousUnitArtifactStatus::Pending => assert(all@[0] == s),
                AutonomousUnitArtifactStatus::Recorded => assert(all@[1] == s),
                AutonomousUnitArtifactStatus::Rejected => assert(all@[2] == s),
                AutonomousUnitArtifactStatus::Redacted => assert(all@[3] == s),
            }
        }
    }
    Err(cat3("must be a known autonomous-artifact status, found `", value, "`."))
}

} // verus!
