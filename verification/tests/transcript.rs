use xero_core::session_history::{SessionTranscriptItemKindDto, SessionTranscriptScopeDto};
use xero_core::transcript::{
    render_markdown_export, SessionTranscriptDto, SessionTranscriptExportPayloadDto, SessionTranscriptItemDto,
    SessionTranscriptRunDto, SessionUsageTotalsDto,
};

fn transcript(runs: Vec<SessionTranscriptRunDto>, items: Vec<SessionTranscriptItemDto>) -> SessionTranscriptDto {
    SessionTranscriptDto {
        project_id: "project-1".into(),
        agent_session_id: "session-1".into(),
        title: " Fix login \r".into(),
        summary: "   ".into(),
        status: "Active".into(),
        archived: false,
        usage_totals: Some(SessionUsageTotalsDto { total_tokens: 42 }),
        runs,
        items,
    }
}

fn item(run_id: &str, sequence: u64, title: Option<&str>, text: Option<&str>) -> SessionTranscriptItemDto {
    SessionTranscriptItemDto {
        project_id: "project-1".into(),
        agent_session_id: "session-1".into(),
        run_id: run_id.into(),
        item_id: format!("item-{sequence}"),
        sequence,
        kind: SessionTranscriptItemKindDto::ToolCall,
        actor: "Agent".into(),
        title: title.map(String::from),
        text: text.map(String::from),
        summary: None,
        tool_name: Some("read".into()),
        file_path: None,
        checkpoint_kind: None,
        created_at: "t1".into(),
    }
}

fn run(id: &str) -> SessionTranscriptRunDto {
    SessionTranscriptRunDto {
        run_id: id.into(),
        provider_id: "openai_codex".into(),
        model_id: "gpt".into(),
        status: "completed".into(),
        started_at: "t0".into(),
        completed_at: None,
        usage_totals: None,
    }
}

#[test]
fn export_without_runs_says_so() {
    let payload = SessionTranscriptExportPayloadDto {
        scope: SessionTranscriptScopeDto::Session,
        generated_at: "now".into(),
        transcript: transcript(Vec::new(), Vec::new()),
    };
    assert_eq!(
        render_markdown_export(&payload),
        "# Fix login\n\n- Project: `project-1`\n- Session: `session-1`\n- Status: `Active`\n- Scope: `Session`\n- Generated: `now`\n- Tokens: `42` total\n\n_No runs recorded for this session._\n"
    );
}

#[test]
fn export_groups_items_under_their_runs() {
    let payload = SessionTranscriptExportPayloadDto {
        scope: SessionTranscriptScopeDto::Run,
        generated_at: "now".into(),
        transcript: transcript(
            vec![run("r1"), run("r2")],
            vec![item("r1", 1, None, Some(" hello\r ")), item("r9", 2, Some("x"), None)],
        ),
    };
    let md = render_markdown_export(&payload);
    assert!(md.contains(
        "\n## Run `r1`\n\n- Provider: `openai_codex`\n- Model: `gpt`\n- Status: `completed`\n- Started: `t0`\n\n### 1. Tool call\n\n- Kind: `ToolCall` · Actor: `Agent` · Created: `t1`\n- Tool: `read`\n\nhello\n"
    ));
    assert!(md.ends_with("- Started: `t0`\n\n_No transcript items recorded for this run._\n"));
    assert!(!md.contains("### 2."));
}
