use xero_core::session_history::{
    ensure_run_belongs_to_session, fallback_snippet, fts_query, item_kind_label, markdown_line,
    missing_session_error, normalize_snippet, push_search_part, sanitize_file_segment, search_limit, search_totals,
    split_matched_fields, suggested_export_file_name, validate_search_request, validate_transcript_request,
    SessionTranscriptItemKindDto, SessionTranscriptScopeDto,
};

#[test]
fn file_segments_are_safe_and_short() {
    assert_eq!(sanitize_file_segment("  My Session: Title!  "), "my-session--title");
    assert_eq!(sanitize_file_segment("---"), "cadence");
    assert_eq!(sanitize_file_segment("Ünïcode_ok"), "n-code_ok");
    let long = "a".repeat(100);
    assert_eq!(sanitize_file_segment(&long).len(), 64);
}

#[test]
fn export_file_names_name_scope_and_run() {
    assert_eq!(
        suggested_export_file_name("Fix Bug", SessionTranscriptScopeDto::Run, Some("Run 7"), "md"),
        "fix-bug-run-run-7-transcript.md"
    );
    assert_eq!(
        suggested_export_file_name("Fix Bug", SessionTranscriptScopeDto::Run, None, "json"),
        "fix-bug-run-transcript.json"
    );
    assert_eq!(
        suggested_export_file_name("", SessionTranscriptScopeDto::Session, None, "md"),
        "cadence-session-transcript.md"
    );
}

#[test]
fn markdown_lines_and_labels() {
    assert_eq!(markdown_line("  a\r\nb \r "), "a\nb");
    assert_eq!(item_kind_label(SessionTranscriptItemKindDto::ToolCall), "Tool call");
    assert_eq!(item_kind_label(SessionTranscriptItemKindDto::Complete), "Run completed");
}

#[test]
fn fts_queries_quote_at_most_eight_terms() {
    assert_eq!(fts_query("  hello, world!  "), "\"hello\" AND \"world\"");
    assert_eq!(fts_query("a\"b"), "\"a\"\"b\"");
    assert_eq!(fts_query("... !!"), "");
    assert_eq!(
        fts_query("1 2 3 4 5 6 7 8 9 10"),
        "\"1\" AND \"2\" AND \"3\" AND \"4\" AND \"5\" AND \"6\" AND \"7\" AND \"8\""
    );
    assert_eq!(fts_query("snake_case-word"), "\"snake_case-word\"");
}

#[test]
fn matched_fields_and_snippets() {
    assert_eq!(split_matched_fields(" title, ,text,"), vec!["title".to_string(), "text".to_string()]);
    assert!(split_matched_fields("").is_empty());
    assert_eq!(normalize_snippet("  a\nb  "), "a b");
    assert_eq!(normalize_snippet("   "), "Matched transcript item.");
    let content = format!("{}NEEDLE tail\nend", "x".repeat(100));
    assert_eq!(fallback_snippet(&content, "needle"), format!("{}NEEDLE tail end", "x".repeat(60)));
    assert_eq!(fallback_snippet("short", "zzz"), "short");
    assert_eq!(fallback_snippet("   ", "zzz"), "Matched transcript item.");
}

#[test]
fn search_parts_collect_trimmed_values_and_fields_once() {
    let mut parts = Vec::new();
    let mut fields = Vec::new();
    push_search_part(&mut parts, &mut fields, "title", Some("  Hello "));
    push_search_part(&mut parts, &mut fields, "text", Some("   "));
    push_search_part(&mut parts, &mut fields, "title", Some("Again"));
    push_search_part(&mut parts, &mut fields, "file", None);
    assert_eq!(parts, vec!["Hello".to_string(), "Again".to_string()]);
    assert_eq!(fields, vec!["title".to_string()]);
}

#[test]
fn requests_and_limits() {
    let e = validate_transcript_request("p", " ", None).unwrap_err();
    assert_eq!(e.code, "invalid_request");
    assert_eq!(e.message, "Field `agentSessionId` must be a non-empty string.");
    assert!(validate_transcript_request("p", "s", Some("r")).is_ok());
    let e = validate_search_request("p", "q", None, Some("")).unwrap_err();
    assert_eq!(e.message, "Field `runId` must be a non-empty string.");
    assert_eq!(search_limit(None), 25);
    assert_eq!(search_limit(Some(0)), 1);
    assert_eq!(search_limit(Some(500)), 100);
    assert_eq!(search_limit(Some(7)), 7);
    assert_eq!(search_totals(10, 40, 10), (10, true));
    assert_eq!(search_totals(3, 40, 10), (3, false));
}

#[test]
fn sessions_and_runs() {
    let e = missing_session_error("p-1", "s-1");
    assert_eq!(e.code, "agent_session_not_found");
    assert_eq!(e.message, "Cadence could not find agent session `s-1` for project `p-1`.");
    assert!(ensure_run_belongs_to_session("r", "p", "s", "p", "s").is_ok());
    let e = ensure_run_belongs_to_session("r-1", "p", "other", "p", "s").unwrap_err();
    assert_eq!(e.code, "agent_run_session_mismatch");
    assert_eq!(e.message, "Cadence found owned-agent run `r-1` but it does not belong to session `s`.");
}
