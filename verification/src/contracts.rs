//! Request and response shapes that the desktop frontend exchanges with
//! the backend for autonomous runs, tool-result summaries and MCP servers.

use vstd::prelude::*;

verus! {

#[derive(Debug, Clone, Copy, PartialEq, Eq, Structural)]
pub enum AutonomousRunStatusDto {
    Starting,
    Running,
    Paused,
    Cancelling,
    Cancelled,
    Stale,
    Failed,
    Stopped,
    Crashed,
    Completed,
}

#[derive(Debug, Clone, Copy, PartialEq, Eq, Structural)]
pub enum AutonomousRunRecoveryStateDto {
    Healthy,
    RecoveryRequired,
    Terminal,
    Failed,
}

#[derive(Debug, Clone, Copy, PartialEq, Eq, Structural)]
pub enum AutonomousSkillLifecycleStageDto {
    Discovery,
    Install,
    Invoke,
}

#[derive(Debug, Clone, Copy, PartialEq, Eq, Structural)]
pub enum AutonomousSkillLifecycleResultDto {
    Succeeded,
    Failed,
}

#[derive(Debug, Clone, Copy, PartialEq, Eq, Structural)]
pub enum AutonomousSkillCacheStatusDto {
    Miss,
    Hit,
    Refreshed,
}

#[derive(Debug, Clone, Copy, PartialEq, Eq, Structural)]
pub enum GitToolResultScopeDto {
    Staged,
    Unstaged,
    Worktree,
}

#[derive(Debug, Clone, Copy, PartialEq, Eq, Structural)]
pub enum WebToolResultContentKindDto {
    Html,
    PlainText,
}

/// Exit metadata of a command tool call.
#[derive(Debug, Clone, Copy, PartialEq, Eq, Structural)]
pub struct CommandToolResultSummaryDto {
    pub exit_code: Option<i32>,
    pub timed_out: bool,
    pub stdout_truncated: bool,
    pub stderr_truncated: bool,
    pub stdout_redacted: bool,
    pub stderr_redacted: bool,
}

#[derive(Debug, Clone)]
pub struct FileToolResultSummaryDto {
    pub path: Option<String>,
    pub scope: Option<String>,
    pub line_count: Option<usize>,
    pub match_count: Option<usize>,
    pub truncated: bool,
}

#[derive(Debug, Clone)]
pub struct GitToolResultSummaryDto {
    pub scope: Option<GitToolResultScopeDto>,
    pub changed_files: usize,
    pub truncated: bool,
    pub base_revision: Option<String>,
}

#[derive(Debug, Clone)]
pub struct WebToolResultSummaryDto {
    pub target: String,
    pub result_count: Option<usize>,
    pub final_url: Option<String>,
    pub content_kind: Option<WebToolResultContentKindDto>,
    pub content_type: Option<String>,
    pub truncated: bool,
}

#[derive(Debug, Clone, Copy, PartialEq, Eq, Structural)]
pub enum BrowserComputerUseSurfaceDto {
    Browser,
    ComputerUse,
}

#[derive(Debug, Clone, Copy, PartialEq, Eq, Structural)]
pub enum BrowserComputerUseActionStatusDto {
    Pending,
    Running,
    Succeeded,
    Failed,
    Blocked,
}

#[derive(Debug, Clone)]
pub struct BrowserComputerUseToolResultSummaryDto {
    pub surface: BrowserComputerUseSurfaceDto,
    pub action: String,
    pub status: BrowserComputerUseActionStatusDto,
    pub target: Option<String>,
    pub outcome: Option<String>,
}

#[derive(Debug, Clone, Copy, PartialEq, Eq, Structural)]
pub enum McpCapabilityKindDto {
    Tool,
    Resource,
    Prompt,
    Command,
}

#[derive(Debug, Clone)]
pub struct McpCapabilityToolResultSummaryDto {
    pub server_id: String,
    pub capability_kind: McpCapabilityKindDto,
    pub capability_id: String,
    pub capability_name: Option<String>,
}

/// The kind-specific summary of a tool result.
#[derive(Debug, Clone)]
pub enum ToolResultSummaryDto {
    Command(CommandToolResultSummaryDto),
    File(FileToolResultSummaryDto),
    Git(GitToolResultSummaryDto),
    Web(WebToolResultSummaryDto),
    BrowserComputerUse(BrowserComputerUseToolResultSummaryDto),
    McpCapability(McpCapabilityToolResultSummaryDto),
}

#[derive(Debug, Clone)]
pub struct AutonomousSkillLifecycleSourceDto {
    pub repo: String,
    pub path: String,
    pub reference: String,
    pub tree_hash: String,
}

#[derive(Debug, Clone)]
pub struct AutonomousSkillLifecycleCacheDto {
    pub key: String,
    pub status: Option<AutonomousSkillCacheStatusDto>,
}

#[derive(Debug, Clone)]
pub struct AutonomousSkillLifecycleDiagnosticDto {
    pub code: String,
    pub message: String,
    pub retryable: bool,
}

#[derive(Debug, Clone)]
pub struct AutonomousLifecycleReasonDto {
    pub code: String,
    pub message: String,
}

/// A diagnostic attached to a runtime run.
#[derive(Debug, Clone)]
pub struct RuntimeRunDiagnosticDto {
    pub code: String,
    pub message: String,
}

#[derive(Debug, Clone)]
pub struct AutonomousRunDto {
    pub project_id: String,
    pub agent_session_id: String,
    pub run_id: String,
    pub runtime_kind: String,
    pub provider_id: String,
    pub supervisor_kind: String,
    pub status: AutonomousRunStatusDto,
    pub recovery_state: AutonomousRunRecoveryStateDto,
    pub duplicate_start_detected: bool,
    pub duplicate_start_run_id: Option<String>,
    pub duplicate_start_reason: Option<String>,
    pub started_at: String,
    pub last_heartbeat_at: Option<String>,
    pub last_checkpoint_at: Option<String>,
    pub paused_at: Option<String>,
    pub cancelled_at: Option<String>,
    pub completed_at: Option<String>,
    pub crashed_at: Option<String>,
    pub stopped_at: Option<String>,
    pub pause_reason: Option<AutonomousLifecycleReasonDto>,
    pub cancel_reason: Option<AutonomousLifecycleReasonDto>,
    pub crash_reason: Option<AutonomousLifecycleReasonDto>,
    pub last_error_code: Option<String>,
    pub last_error: Option<RuntimeRunDiagnosticDto>,
    pub updated_at: String,
}

#[derive(Debug, Clone)]
pub struct AutonomousRunStateDto {
    pub run: Option<AutonomousRunDto>,
}

#[derive(Debug, Clone)]
pub struct GetAutonomousRunRequestDto {
    pub project_id: String,
    pub agent_session_id: String,
}

/// The runtime controls a run starts with.
#[derive(Debug, Clone)]
pub struct RuntimeRunControlInputDto {
    pub provider_profile_id: Option<String>,
    pub model_id: String,
    pub thinking_effort: Option<String>,
    pub plan_mode_required: bool,
    pub auto_compact_enabled: bool,
}

#[derive(Debug, Clone)]
pub struct StartAutonomousRunRequestDto {
    pub project_id: String,
    pub agent_session_id: String,
    pub initial_controls: Option<RuntimeRunControlInputDto>,
    pub initial_prompt: Option<String>,
}

#[derive(Debug, Clone)]
pub struct CancelAutonomousRunRequestDto {
    pub project_id: String,
    pub agent_session_id: String,
    pub run_id: String,
}

#[derive(Debug, Clone, Copy, PartialEq, Eq, Structural)]
pub enum McpTransportKindDto {
    Stdio,
    Http,
    Sse,
}

/// How the backend reaches an MCP server.
#[derive(Debug, Clone)]
pub enum McpTransportDto {
    Stdio { command: String, args: Vec<String> },
    Http { url: String },
    Sse { url: String },
}

pub open spec fn transport_kind(t: McpTransportDto) -> McpTransportKindDto {
    match t {
        McpTransportDto::Stdio { .. } => McpTransportKindDto::Stdio,
        McpTransportDto::Http { .. } => McpTransportKindDto::Http,
        McpTransportDto::Sse { .. } => McpTransportKindDto::Sse,
    }
}

impl McpTransportDto {
    pub fn kind(&self) -> (k: McpTransportKindDto)
        ensures
            k == transport_kind(*self),
    {
        match self {
            McpTransportDto::Stdio { .. } => McpTransportKindDto::Stdio,
            McpTransportDto::Http { .. } => McpTransportKindDto::Http,
            McpTransportDto::Sse { .. } => McpTransportKindDto::Sse,
        }
    }
}

#[derive(Debug, Clone, Copy, PartialEq, Eq, Structural)]
pub enum McpConnectionStatusDto {
    Connected,
    Failed,
    Blocked,
    Misconfigured,
    Stale,
}

#[derive(Debug, Clone)]
pub struct McpConnectionDiagnosticDto {
    pub code: String,
    pub message: String,
    pub retryable: bool,
}

#[derive(Debug, Clone)]
pub struct McpConnectionStateDto {
    pub status: McpConnectionStatusDto,
    pub diagnostic: Option<McpConnectionDiagnosticDto>,
    pub last_checked_at: Option<String>,
    pub last_healthy_at: Option<String>,
}

#[derive(Debug, Clone)]
pub struct McpEnvironmentReferenceDto {
    pub key: String,
    pub from_env: String,
}

#[derive(Debug, Clone)]
pub struct McpServerDto {
    pub id: String,
    pub name: String,
    pub transport: McpTransportDto,
    pub env: Vec<McpEnvironmentReferenceDto>,
    pub cwd: Option<String>,
    pub connection: McpConnectionStateDto,
    pub updated_at: String,
}

#[derive(Debug, Clone)]
pub struct McpRegistryDto {
    pub servers: Vec<McpServerDto>,
    pub updated_at: String,
}

#[derive(Debug, Clone)]
pub struct McpImportDiagnosticDto {
    pub index: u32,
    pub server_id: Option<String>,
    pub code: String,
    pub message: String,
}

} // verus!
