use xero_core::commit_message::{
    build_commit_message_prompt, file_display_path, normalized_requested_paths,
    sanitize_provider_commit_message, staged_file_overview, staged_file_pathspecs_for_request,
    ChangeKind, CommitMessageToolContext, DiffReadPlan, RepositoryDiffFileDto, ToolStep,
};

fn file(old: Option<&str>, new: Option<&str>, display: &str, status: ChangeKind) -> RepositoryDiffFileDto {
    RepositoryDiffFileDto {
        old_path: old.map(String::from),
        new_path: new.map(String::from),
        display_path: display.into(),
        status,
        hunks: Vec::new(),
        patch: String::new(),
        truncated: false,
        cache_key: display.into(),
    }
}

#[test]
fn preserves_body_while_collapsing_extra_blank_lines() {
    let message = "fix: generate commit messages\n\n\n\nUse the staged diff only.";
    assert_eq!(
        sanitize_provider_commit_message(message).expect("message is valid"),
        "fix: generate commit messages\n\nUse the staged diff only."
    );
}

#[test]
fn commit_message_prompt_lists_files_and_exposes_git_tool_workflow() {
    let prompt = build_commit_message_prompt(
        "project-1",
        &[
            RepositoryDiffFileDto {
                old_path: Some("included.rs".into()),
                new_path: Some("included.rs".into()),
                display_path: "included.rs".into(),
                status: ChangeKind::Modified,
                hunks: Vec::new(),
                patch: "diff --git a/included.rs b/included.rs\n+visible\n".into(),
                truncated: false,
                cache_key: "included".into(),
            },
            RepositoryDiffFileDto {
                old_path: Some("omitted.rs".into()),
                new_path: Some("omitted.rs".into()),
                display_path: "omitted.rs".into(),
                status: ChangeKind::Modified,
                hunks: Vec::new(),
                patch: String::new(),
                truncated: true,
                cache_key: "omitted".into(),
            },
        ],
    );

    assert!(prompt.contains("Staged files (2):"));
    assert!(prompt.contains("[modified] included.rs"));
    assert!(prompt.contains("[modified] omitted.rs"));
    assert!(prompt.contains("The staged file list below is complete"));
    assert!(prompt.contains("Xero has not provided a capped all-file diff"));
    assert!(prompt.contains("read_staged_diff"));
    assert!(!prompt.contains("Staged patch excerpt:"));
}

#[test]
fn prompt_states_tool_limits() {
    let prompt = build_commit_message_prompt("  p  ", &[]);
    assert!(prompt.contains("project `p`."));
    assert!(prompt.contains(
        "at most 8 tool call(s), 8 path(s) per diff call, 196608 total diff byte(s), and 65536 byte(s) per diff call."
    ));
    assert!(prompt.ends_with("Staged files (0):\nNo staged files were reported."));
}

#[test]
fn sanitize_strips_fence_label_and_quotes() {
    assert_eq!(
        sanitize_provider_commit_message("```text\nfeat: add login\n```").unwrap(),
        "feat: add login"
    );
    assert_eq!(
        sanitize_provider_commit_message("Commit Message:   fix: typo").unwrap(),
        "fix: typo"
    );
    assert_eq!(sanitize_provider_commit_message("\"docs: readme\"").unwrap(), "docs: readme");
    assert_eq!(sanitize_provider_commit_message("line one  \r\nline two").unwrap(), "line one\nline two");
}

#[test]
fn empty_message_is_retryable() {
    let err = sanitize_provider_commit_message("```\n```").unwrap_err();
    assert_eq!(err.code, "git_commit_message_empty");
    assert!(err.retryable);
}

#[test]
fn overview_numbers_files_and_shows_renames() {
    let files = vec![
        file(Some("a.rs"), Some("b.rs"), "b.rs", ChangeKind::Renamed),
        file(None, Some("c.rs"), "c.rs", ChangeKind::Added),
    ];
    assert_eq!(file_display_path(&files[0]), "a.rs -> b.rs");
    assert_eq!(staged_file_overview(&files), "1. [renamed] a.rs -> b.rs\n2. [added] c.rs");
}

#[test]
fn requested_paths_are_normalized_and_deduplicated() {
    let paths = normalized_requested_paths(vec![
        " src\\main.rs ".into(),
        "src/main.rs".into(),
        "   ".into(),
        "b.rs".into(),
    ]);
    assert_eq!(paths, vec!["src/main.rs".to_string(), "b.rs".to_string()]);
}

#[test]
fn pathspecs_cover_both_sides_of_a_rename() {
    let files = vec![file(Some("z.rs"), Some("a.rs"), "a.rs", ChangeKind::Renamed)];
    let (label, specs) = staged_file_pathspecs_for_request(&files, "z.rs -> a.rs").unwrap();
    assert_eq!(label, "z.rs -> a.rs");
    assert_eq!(specs, vec!["a.rs".to_string(), "z.rs".to_string()]);
    assert!(staged_file_pathspecs_for_request(&files, "other.rs").is_none());
}

#[test]
fn tool_budget_runs_out_after_eight_calls() {
    let mut ctx = CommitMessageToolContext::new("p", vec![]);
    for _ in 0..8 {
        assert_eq!(ctx.begin_tool_call("list_staged_files"), ToolStep::ListStagedFiles);
    }
    assert_eq!(ctx.remaining_tool_calls(), 0);
    assert_eq!(ctx.begin_tool_call("read_staged_diff"), ToolStep::BudgetExhausted);
}

#[test]
fn diff_read_plans_follow_the_budget() {
    let files = vec![file(Some("a.rs"), Some("a.rs"), "a.rs", ChangeKind::Modified)];
    let mut ctx = CommitMessageToolContext::new("p", files);
    assert!(matches!(ctx.plan_staged_diff_read(vec![]), DiffReadPlan::NoPaths));
    match ctx.plan_staged_diff_read(vec!["missing.rs".into()]) {
        DiffReadPlan::UnknownPaths { unknown, known } => {
            assert_eq!(unknown, vec!["missing.rs".to_string()]);
            assert_eq!(known, vec!["a.rs".to_string()]);
        }
        _ => panic!("expected unknown paths"),
    }
    match ctx.plan_staged_diff_read(vec!["a.rs".into()]) {
        DiffReadPlan::Read { requested, pathspecs, max_patch_bytes } => {
            assert_eq!(requested, vec!["a.rs".to_string()]);
            assert_eq!(pathspecs, vec!["a.rs".to_string()]);
            assert_eq!(max_patch_bytes, 65536);
        }
        _ => panic!("expected a read"),
    }
    ctx.record_staged_diff_read(200_000, false);
    assert_eq!(ctx.remaining_diff_bytes(), 0);
    assert!(matches!(ctx.plan_staged_diff_read(vec!["a.rs".into()]), DiffReadPlan::BudgetExhausted { .. }));
    assert!(ctx.diff_truncated);
}
