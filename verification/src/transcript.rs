//! Session transcripts as an export renders them in markdown, and as the
//! transcript search indexes them: one row per non-blank title or summary
//! and per item with searchable text.

use vstd::prelude::*;
use crate::session_history::{
    item_kind_label, kind_label, markdown_line, markdown_text, push_search_part, SessionTranscriptItemKindDto,
    SessionTranscriptScopeDto,
};
use crate::sorting::string_views;
use crate::text::{blank, decimal, decimal_string, is_blank, normalized_text, owned_text, str_eq};

verus! {

/// Token usage of a session or run.
#[derive(Debug, Clone, Copy)]
pub struct SessionUsageTotalsDto {
    pub total_tokens: u64,
}

/// A run of a session transcript.
#[derive(Debug, Clone)]
pub struct SessionTranscriptRunDto {
    pub run_id: String,
    pub provider_id: String,
    pub model_id: String,
    pub status: String,
    pub started_at: String,
    pub completed_at: Option<String>,
    pub usage_totals: Option<SessionUsageTotalsDto>,
}

/// One item of a session transcript. `actor` is the name of the actor
/// variant.
#[derive(Debug, Clone)]
pub struct SessionTranscriptItemDto {
    pub project_id: String,
    pub agent_session_id: String,
    pub run_id: String,
    pub item_id: String,
    pub sequence: u64,
    pub kind: SessionTranscriptItemKindDto,
    pub actor: String,
    pub title: Option<String>,
    pub text: Option<String>,
    pub summary: Option<String>,
    pub tool_name: Option<String>,
    pub file_path: Option<String>,
    pub checkpoint_kind: Option<String>,
    pub created_at: String,
}

/// A session transcript. `status` is the name of the status variant.
#[derive(Debug, Clone)]
pub struct SessionTranscriptDto {
    pub project_id: String,
    pub agent_session_id: String,
    pub title: String,
    pub summary: String,
    pub status: String,
    pub archived: bool,
    pub usage_totals: Option<SessionUsageTotalsDto>,
    pub runs: Vec<SessionTranscriptRunDto>,
    pub items: Vec<SessionTranscriptItemDto>,
}

/// A transcript as an export carries it.
#[derive(Debug, Clone)]
pub struct SessionTranscriptExportPayloadDto {
    pub scope: SessionTranscriptScopeDto,
    pub generated_at: String,
    pub transcript: SessionTranscriptDto,
}

// ------------------------------------------------------------ markdown

/// The variant name of an item kind.
pub open spec fn kind_name(k: SessionTranscriptItemKindDto) -> Seq<char> {
    match k {
        SessionTranscriptItemKindDto::Message => "Message"@,
        SessionTranscriptItemKindDto::Reasoning => "Reasoning"@,
        SessionTranscriptItemKindDto::ToolCall => "ToolCall"@,
        SessionTranscriptItemKindDto::ToolResult => "ToolResult"@,
        SessionTranscriptItemKindDto::FileChange => "FileChange"@,
        SessionTranscriptItemKindDto::Checkpoint => "Checkpoint"@,
        SessionTranscriptItemKindDto::ActionRequest => "ActionRequest"@,
        SessionTranscriptItemKindDto::Activity => "Activity"@,
        SessionTranscriptItemKindDto::Complete => "Complete"@,
        SessionTranscriptItemKindDto::Failure => "Failure"@,
        SessionTranscriptItemKindDto::Usage => "Usage"@,
    }
}

fn kind_name_text(k: SessionTranscriptItemKindDto) -> (s: &'static str)
    ensures
        s@ == kind_name(k),
{
    match k {
        SessionTranscriptItemKindDto::Message => "Message",
        SessionTranscriptItemKindDto::Reasoning => "Reasoning",
        SessionTranscriptItemKindDto::ToolCall => "ToolCall",
        SessionTranscriptItemKindDto::ToolResult => "ToolResult",
        SessionTranscriptItemKindDto::FileChange => "FileChange",
        SessionTranscriptItemKindDto::Checkpoint => "Checkpoint",
        SessionTranscriptItemKindDto::ActionRequest => "ActionRequest",
        SessionTranscriptItemKindDto::Activity => "Activity",
        SessionTranscriptItemKindDto::Complete => "Complete",
        SessionTranscriptItemKindDto::Failure => "Failure",
        SessionTranscriptItemKindDto::Usage => "Usage",
    }
}

/// The variant name of an export scope.
pub open spec fn scope_name(s: SessionTranscriptScopeDto) -> Seq<char> {
    match s {
        SessionTranscriptScopeDto::Run => "Run"@,
        SessionTranscriptScopeDto::Session => "Session"@,
    }
}

fn scope_name_text(s: SessionTranscriptScopeDto) -> (r: &'static str)
    ensures
        r@ == scope_name(s),
{
    match s {
        SessionTranscriptScopeDto::Run => "Run",
        SessionTranscriptScopeDto::Session => "Session",
    }
}

/// `- Tokens: `n` total` with its newline, where usage is known.
pub open spec fn tokens_line(u: Option<SessionUsageTotalsDto>) -> Seq<char> {
    match u {
        Some(t) => "- Tokens: `"@ + decimal(t.total_tokens as nat) + "` total\n"@,
        None => seq![],
    }
}

/// A bullet `- <label>`<value>`` with its newline, where the value exists.
pub open spec fn code_line(label: Seq<char>, v: Option<Seq<char>>) -> Seq<char> {
    match v {
        Some(t) => label + t + "`\n"@,
        None => seq![],
    }
}

/// The markdown form of an optional value, or nothing.
pub open spec fn md_opt(v: Option<String>) -> Option<Seq<char>> {
    match v {
        Some(t) => Some(markdown_text(t@)),
        None => None,
    }
}

/// A paragraph `<prefix><text>` between newlines, where the text is not
/// blank.
pub open spec fn paragraph(prefix: Seq<char>, v: Option<String>) -> Seq<char> {
    match v {
        Some(t) => if blank(t@) {
            seq![]
        } else {
            "\n"@ + prefix + markdown_text(t@) + "\n"@
        },
        None => seq![],
    }
}

/// The section of one transcript item.
pub open spec fn item_section(i: SessionTranscriptItemDto) -> Seq<char> {
    let heading = match i.title {
        Some(t) => markdown_text(t@),
        None => markdown_text(kind_label(i.kind)),
    };
    "\n### "@ + decimal(i.sequence as nat) + ". "@ + heading + "\n\n"@ + "- Kind: `"@ + kind_name(i.kind)
        + "` · Actor: `"@ + i.actor@ + "` · Created: `"@ + i.created_at@ + "`\n"@
        + code_line("- Tool: `"@, md_opt(i.tool_name)) + code_line("- File: `"@, md_opt(i.file_path))
        + code_line("- Checkpoint: `"@, md_opt(i.checkpoint_kind)) + paragraph(seq![], i.text) + paragraph(
        "> "@,
        i.summary,
    )
}

/// The items of run `run_id`, in transcript order.
pub open spec fn items_of(items: Seq<SessionTranscriptItemDto>, run_id: Seq<char>) -> Seq<SessionTranscriptItemDto>
    decreases items.len(),
{
    if items.len() == 0 {
        seq![]
    } else {
        let r = items_of(items.drop_last(), run_id);
        if items.last().run_id@ == run_id {
            r.push(items.last())
        } else {
            r
        }
    }
}

/// The sections of some items, one after the other.
pub open spec fn item_sections(items: Seq<SessionTranscriptItemDto>) -> Seq<char>
    decreases items.len(),
{
    if items.len() == 0 {
        seq![]
    } else {
        item_sections(items.drop_last()) + item_section(items.last())
    }
}

/// The heading lines of a run's section.
pub open spec fn run_head(r: SessionTranscriptRunDto) -> Seq<char> {
    "\n## Run `"@ + r.run_id@ + "`\n\n"@ + "- Provider: `"@ + r.provider_id@ + "`\n"@ + "- Model: `"@
        + r.model_id@ + "`\n"@ + "- Status: `"@ + r.status@ + "`\n"@ + "- Started: `"@ + r.started_at@ + "`\n"@
        + code_line("- Completed: `"@, owned_text(r.completed_at)) + tokens_line(r.usage_totals)
}

/// The section of a run: its heading lines, then its items' sections, or a
/// note that it has none.
pub open spec fn run_section(r: SessionTranscriptRunDto, items: Seq<SessionTranscriptItemDto>) -> Seq<char> {
    let its = items_of(items, r.run_id@);
    run_head(r) + if its.len() == 0 {
        "\n_No transcript items recorded for this run._\n"@
    } else {
        item_sections(its)
    }
}

/// The sections of some runs, one after the other.
pub open spec fn run_sections(runs: Seq<SessionTranscriptRunDto>, items: Seq<SessionTranscriptItemDto>) -> Seq<char>
    decreases runs.len(),
{
    if runs.len() == 0 {
        seq![]
    } else {
        run_sections(runs.drop_last(), items) + run_section(runs.last(), items)
    }
}

/// The heading of an export: title, project, session, status, scope, time,
/// usage and summary.
pub open spec fn export_head(p: SessionTranscriptExportPayloadDto) -> Seq<char> {
    let t = p.transcript;
    "# "@ + markdown_text(t.title@) + "\n\n"@ + "- Project: `"@ + t.project_id@ + "`\n"@ + "- Session: `"@
        + t.agent_session_id@ + "`\n"@ + "- Status: `"@ + t.status@ + "`\n"@ + "- Scope: `"@ + scope_name(p.scope)
        + "`\n"@ + "- Generated: `"@ + p.generated_at@ + "`\n"@ + tokens_line(t.usage_totals) + (if blank(
        t.summary@,
    ) {
        seq![]
    } else {
        "\n"@ + markdown_text(t.summary@) + "\n"@
    })
}

/// The markdown export of a transcript.
pub open spec fn markdown_export(p: SessionTranscriptExportPayloadDto) -> Seq<char> {
    export_head(p) + if p.transcript.runs@.len() == 0 {
        "\n_No runs recorded for this session._\n"@
    } else {
        run_sections(p.transcript.runs@, p.transcript.items@)
    }
}

fn put_code_line(s: &mut String, label: &str, v: &Option<String>, markdown: bool)
    ensures
        final(s)@ == old(s)@ + code_line(label@, if markdown { md_opt(*v) } else { owned_text(*v) }),
{
    match v {
        Some(t) => {
            s.append(label);
            if markdown {
                s.append(markdown_line(t.as_str()).as_str());
            } else {
                s.append(t.as_str());
            }
            s.append("`\n");
        },
        None => {
            assert(old(s)@ + Seq::<char>::empty() =~= old(s)@);
        },
    }
}

fn put_paragraph(s: &mut String, prefix: &str, v: &Option<String>)
    ensures
        final(s)@ == old(s)@ + paragraph(prefix@, *v),
{
    match v {
        Some(t) => if !is_blank(t.as_str()) {
            s.append("\n");
            s.append(prefix);
            s.append(markdown_line(t.as_str()).as_str());
            s.append("\n");
        } else {
            assert(old(s)@ + Seq::<char>::empty() =~= old(s)@);
        },
        None => {
            assert(old(s)@ + Seq::<char>::empty() =~= old(s)@);
        },
    }
}

fn put_tokens(s: &mut String, u: &Option<SessionUsageTotalsDto>)
    ensures
        final(s)@ == old(s)@ + tokens_line(*u),
{
    match u {
        Some(t) => {
            s.append("- Tokens: `");
            s.append(decimal_string(t.total_tokens).as_str());
            s.append("` total\n");
        },
        None => {
            assert(old(s)@ + Seq::<char>::empty() =~= old(s)@);
        },
    }
}

fn item_section_text(i: &SessionTranscriptItemDto) -> (r: String)
    ensures
        r@ == item_section(*i),
{
    let mut s = String::new();
    let heading = match &i.title {
        Some(t) => markdown_line(t.as_str()),
        None => markdown_line(item_kind_label(i.kind)),
    };
    s.append("\n### ");
    s.append(decimal_string(i.sequence).as_str());
    s.append(". ");
    s.append(heading.as_str());
    s.append("\n\n");
    s.append("- Kind: `");
    s.append(kind_name_text(i.kind));
    s.append("` · Actor: `");
    s.append(i.actor.as_str());
    s.append("` · Created: `");
    s.append(i.created_at.as_str());
    s.append("`\n");
    let ghost head = s@;
    put_code_line(&mut s, "- Tool: `", &i.tool_name, true);
    put_code_line(&mut s, "- File: `", &i.file_path, true);
    put_code_line(&mut s, "- Checkpoint: `", &i.checkpoint_kind, true);
    put_paragraph(&mut s, "", &i.text);
    put_paragraph(&mut s, "> ", &i.summary);
    proof {
        assert(""@ =~= Seq::<char>::empty()) by {
            reveal_strlit("");
        }
    }
    assert(s@ =~= item_section(*i));
    s
}

fn run_section_text(r: &SessionTranscriptRunDto, items: &Vec<SessionTranscriptItemDto>) -> (out: String)
    ensures
        out@ == run_section(*r, items@),
{
    let mut s = String::new();
    s.append("\n## Run `");
    s.append(r.run_id.as_str());
    s.append("`\n\n");
    s.append("- Provider: `");
    s.append(r.provider_id.as_str());
    s.append("`\n");
    s.append("- Model: `");
    s.append(r.model_id.as_str());
    s.append("`\n");
    s.append("- Status: `");
    s.append(r.status.as_str());
    s.append("`\n");
    s.append("- Started: `");
    s.append(r.started_at.as_str());
    s.append("`\n");
    put_code_line(&mut s, "- Completed: `", &r.completed_at, false);
    put_tokens(&mut s, &r.usage_totals);
    assert(s@ =~= run_head(*r));
    let mut body = String::new();
    let mut any = false;
    let mut j: usize = 0;
    while j < items.len()
        invariant
            j <= items.len(),
            body@ == item_sections(items_of(items@.subrange(0, j as int), r.run_id@)),
            any == (items_of(items@.subrange(0, j as int), r.run_id@).len() > 0),
        decreases items.len() - j,
    {
        proof {
            assert(items@.subrange(0, j + 1).drop_last() =~= items@.subrange(0, j as int));
        }
        let ghost prev = items_of(items@.subrange(0, j as int), r.run_id@);
        if str_eq(items[j].run_id.as_str(), r.run_id.as_str()) {
            body.append(item_section_text(&items[j]).as_str());
            any = true;
            assert(prev.push(items@[j as int]).drop_last() =~= prev);
        }
        j = j + 1;
    }
    proof {
        assert(items@.subrange(0, items@.len() as int) =~= items@);
    }
    if any {
        s.append(body.as_str());
    } else {
        s.append("\n_No transcript items recorded for this run._\n");
    }
    s
}

/// The markdown export of a transcript: its heading, then each run's
/// section with the items of that run in transcript order.
pub fn render_markdown_export(payload: &SessionTranscriptExportPayloadDto) -> (md: String)
    ensures
        md@ == markdown_export(*payload),
{
    let t = &payload.transcript;
    let mut s = String::new();
    s.append("# ");
    s.append(markdown_line(t.title.as_str()).as_str());
    s.append("\n\n");
    s.append("- Project: `");
    s.append(t.project_id.as_str());
    s.append("`\n");
    s.append("- Session: `");
    s.append(t.agent_session_id.as_str());
    s.append("`\n");
    s.append("- Status: `");
    s.append(t.status.as_str());
    s.append("`\n");
    s.append("- Scope: `");
    s.append(scope_name_text(payload.scope));
    s.append("`\n");
    s.append("- Generated: `");
    s.append(payload.generated_at.as_str());
    s.append("`\n");
    put_tokens(&mut s, &t.usage_totals);
    if !is_blank(t.summary.as_str()) {
        s.append("\n");
        s.append(markdown_line(t.summary.as_str()).as_str());
        s.append("\n");
    }
    assert(s@ =~= export_head(*payload));
    if t.runs.len() == 0 {
        s.append("\n_No runs recorded for this session._\n");
        return s;
    }
    let ghost head = s@;
    let mut k: usize = 0;
    while k < t.runs.len()
        invariant
            k <= t.runs.len(),
            t == &payload.transcript,
            s@ == head + run_sections(t.runs@.subrange(0, k as int), t.items@),
        decreases t.runs.len() - k,
    {
        proof {
            assert(t.runs@.subrange(0, k + 1).drop_last() =~= t.runs@.subrange(0, k as int));
        }
        s.append(run_section_text(&t.runs[k], &t.items).as_str());
        k = k + 1;
        assert(s@ =~= head + run_sections(t.runs@.subrange(0, k as int), t.items@));
    }
    proof {
        assert(t.runs@.subrange(0, t.runs@.len() as int) =~= t.runs@);
    }
    s
}

} // verus!

verus! {

/// An export whose session summary is not blank shows it, trimmed and
/// without carriage returns, as its own paragraph right after the heading
/// bullets (title, project, session, status, scope, time and tokens).
pub proof fn law_export_shows_the_session_summary(p: SessionTranscriptExportPayloadDto)
    requires
        !blank(p.transcript.summary@),
    ensures
        ({
            let t = p.transcript;
            let bullets = "# "@ + markdown_text(t.title@) + "\n\n"@ + "- Project: `"@ + t.project_id@ + "`\n"@
                + "- Session: `"@ + t.agent_session_id@ + "`\n"@ + "- Status: `"@ + t.status@ + "`\n"@
                + "- Scope: `"@ + scope_name(p.scope) + "`\n"@ + "- Generated: `"@ + p.generated_at@ + "`\n"@
                + tokens_line(t.usage_totals);
            let paragraph = "\n"@ + markdown_text(t.summary@) + "\n"@;
            &&& markdown_export(p).subrange(0, bullets.len() as int) == bullets
            &&& markdown_export(p).subrange(bullets.len() as int, (bullets.len() + paragraph.len()) as int)
                == paragraph
        }),
{
    let t = p.transcript;
    let bullets = "# "@ + markdown_text(t.title@) + "\n\n"@ + "- Project: `"@ + t.project_id@ + "`\n"@
        + "- Session: `"@ + t.agent_session_id@ + "`\n"@ + "- Status: `"@ + t.status@ + "`\n"@ + "- Scope: `"@
        + scope_name(p.scope) + "`\n"@ + "- Generated: `"@ + p.generated_at@ + "`\n"@ + tokens_line(t.usage_totals);
    let paragraph = "\n"@ + markdown_text(t.summary@) + "\n"@;
    let rest = if t.runs@.len() == 0 {
        "\n_No runs recorded for this session._\n"@
    } else {
        run_sections(t.runs@, t.items@)
    };
    assert(export_head(p) =~= bullets + paragraph);
    assert(markdown_export(p) =~= bullets + paragraph + rest);
    assert((bullets + paragraph + rest).subrange(0, bullets.len() as int) =~= bullets);
    assert((bullets + paragraph + rest).subrange(bullets.len() as int, (bullets.len() + paragraph.len()) as int)
        =~= paragraph);
}

} // verus!
