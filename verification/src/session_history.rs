//! Session transcripts: the checks on transcript requests, the names and
//! labels an export uses, and the text handling of transcript search
//! (query terms, matched fields, snippets).

use vstd::prelude::*;
use crate::error::{CommandError, CommandResult, Fault, fault, first, uf};
use crate::text::{
    blank, cat2, cat3, cat5, chars_of, is_ws, lower_char, own, push_char, str_eq, string_of, trim,
    trim_string,
};

verus! {

pub const DEFAULT_SEARCH_LIMIT: usize = 25;
pub const MAX_SEARCH_LIMIT: usize = 100;
pub const MAX_FALLBACK_SNIPPET_CHARS: usize = 220;

pub open spec fn invalid(value: Seq<char>, field: Seq<char>) -> Option<Fault> {
    if blank(value) {
        uf("invalid_request"@, crate::error::invalid_request_message(field))
    } else {
        None
    }
}

pub open spec fn invalid_opt(value: Option<Seq<char>>, field: Seq<char>) -> Option<Fault> {
    match value {
        Some(v) => invalid(v, field),
        None => None,
    }
}

fn require(value: &str, field: &str) -> (r: CommandResult<()>)
    ensures
        fault(r) == invalid(value@, field@),
{
    crate::error::validate_non_empty(value, field)
}

/// A transcript request names a project and a session, and a run where it
/// names one.
pub fn validate_transcript_request(project_id: &str, agent_session_id: &str, run_id: Option<&str>) -> (r:
    CommandResult<()>)
    ensures
        fault(r) == first(
            invalid(project_id@, "projectId"@),
            first(invalid(agent_session_id@, "agentSessionId"@), invalid_opt(crate::text::borrowed_text(run_id), "runId"@)),
        ),
{
    let r = require(project_id, "projectId");
    if r.is_err() {
        return r;
    }
    let r = require(agent_session_id, "agentSessionId");
    if r.is_err() {
        return r;
    }
    match run_id {
        Some(id) => require(id, "runId"),
        None => Ok(()),
    }
}

/// A search names a project and a query, and a session and a run where it
/// names them.
pub fn validate_search_request(
    project_id: &str,
    query: &str,
    agent_session_id: Option<&str>,
    run_id: Option<&str>,
) -> (r: CommandResult<()>)
    ensures
        fault(r) == first(
            invalid(project_id@, "projectId"@),
            first(
                invalid(query@, "query"@),
                first(
                    invalid_opt(crate::text::borrowed_text(agent_session_id), "agentSessionId"@),
                    invalid_opt(crate::text::borrowed_text(run_id), "runId"@),
                ),
            ),
        ),
{
    let r = require(project_id, "projectId");
    if r.is_err() {
        return r;
    }
    let r = require(query, "query");
    if r.is_err() {
        return r;
    }
    if let Some(id) = agent_session_id {
        let r = require(id, "agentSessionId");
        if r.is_err() {
            return r;
        }
    }
    match run_id {
        Some(id) => require(id, "runId"),
        None => Ok(()),
    }
}

/// The number of results a search returns: 25 unless asked, at least 1
/// and at most 100.
pub fn search_limit(limit: Option<u32>) -> (n: usize)
    ensures
        n == match limit {
            Some(l) => if l < 1 {
                1
            } else if l > 100 {
                100
            } else {
                l as int
            },
            None => 25,
        },
{
    let n: u32 = match limit {
        Some(l) => l,
        None => 25,
    };
    if n < 1 {
        1
    } else if n > 100 {
        100
    } else {
        n as usize
    }
}

/// The error for a session the project does not have.
pub fn missing_session_error(project_id: &str, agent_session_id: &str) -> (e: CommandError)
    ensures
        crate::error::user_fixable_is(
            e,
            "agent_session_not_found"@,
            "Cadence could not find agent session `"@ + agent_session_id@ + "` for project `"@ + project_id@ + "`."@,
        ),
{
    let m = cat5("Cadence could not find agent session `", agent_session_id, "` for project `", project_id, "`.");
    CommandError::user_fixable("agent_session_not_found", m.as_str())
}

/// A run belongs to the session asked for when its project and session
/// are those of the request.
pub fn ensure_run_belongs_to_session(
    run_id: &str,
    run_project_id: &str,
    run_agent_session_id: &str,
    project_id: &str,
    agent_session_id: &str,
) -> (r: CommandResult<()>)
    ensures
        (run_project_id@ == project_id@ && run_agent_session_id@ == agent_session_id@) ==> r is Ok,
        !(run_project_id@ == project_id@ && run_agent_session_id@ == agent_session_id@) ==> (r matches Err(e)
            && crate::error::user_fixable_is(
            e,
            "agent_run_session_mismatch"@,
            "Cadence found owned-agent run `"@ + run_id@ + "` but it does not belong to session `"@
                + agent_session_id@ + "`."@,
        )),
{
    if str_eq(run_project_id, project_id) && str_eq(run_agent_session_id, agent_session_id) {
        return Ok(());
    }
    let m = cat5(
        "Cadence found owned-agent run `",
        run_id,
        "` but it does not belong to session `",
        agent_session_id,
        "`.",
    );
    Err(CommandError::user_fixable("agent_run_session_mismatch", m.as_str()))
}

/// What a transcript item records.
#[derive(Debug, Clone, Copy, PartialEq, Eq, Structural)]
pub enum SessionTranscriptItemKindDto {
    Message,
    Reasoning,
    ToolCall,
    ToolResult,
    FileChange,
    Checkpoint,
    ActionRequest,
    Activity,
    Complete,
    Failure,
    Usage,
}

pub open spec fn kind_label(k: SessionTranscriptItemKindDto) -> Seq<char> {
    match k {
        SessionTranscriptItemKindDto::Message => "Message"@,
        SessionTranscriptItemKindDto::Reasoning => "Reasoning"@,
        SessionTranscriptItemKindDto::ToolCall => "Tool call"@,
        SessionTranscriptItemKindDto::ToolResult => "Tool result"@,
        SessionTranscriptItemKindDto::FileChange => "File change"@,
        SessionTranscriptItemKindDto::Checkpoint => "Checkpoint"@,
        SessionTranscriptItemKindDto::ActionRequest => "Action request"@,
        SessionTranscriptItemKindDto::Activity => "Activity"@,
        SessionTranscriptItemKindDto::Complete => "Run completed"@,
        SessionTranscriptItemKindDto::Failure => "Run failed"@,
        SessionTranscriptItemKindDto::Usage => "Usage"@,
    }
}

/// The heading an export gives an item of kind `kind` that has no title.
pub fn item_kind_label(kind: SessionTranscriptItemKindDto) -> (s: &'static str)
    ensures
        s@ == kind_label(kind),
{
    match kind {
        SessionTranscriptItemKindDto::Message => "Message",
        SessionTranscriptItemKindDto::Reasoning => "Reasoning",
        SessionTranscriptItemKindDto::ToolCall => "Tool call",
        SessionTranscriptItemKindDto::ToolResult => "Tool result",
        SessionTranscriptItemKindDto::FileChange => "File change",
        SessionTranscriptItemKindDto::Checkpoint => "Checkpoint",
        SessionTranscriptItemKindDto::ActionRequest => "Action request",
        SessionTranscriptItemKindDto::Activity => "Activity",
        SessionTranscriptItemKindDto::Complete => "Run completed",
        SessionTranscriptItemKindDto::Failure => "Run failed",
        SessionTranscriptItemKindDto::Usage => "Usage",
    }
}

} // verus!

verus! {

// ------------------------------------------------------------ export text

/// `s` with every `c` removed.
pub open spec fn without_char(s: Seq<char>, c: char) -> Seq<char>
    decreases s.len(),
{
    if s.len() == 0 {
        seq![]
    } else if s.last() == c {
        without_char(s.drop_last(), c)
    } else {
        without_char(s.drop_last(), c).push(s.last())
    }
}

/// `s` with every `from` replaced by `to`.
pub open spec fn replace_char(s: Seq<char>, from: char, to: char) -> Seq<char> {
    s.map_values(|c: char| if c == from { to } else { c })
}

fn without_char_exec(v: &Vec<char>, c: char) -> (r: Vec<char>)
    ensures
        r@ == without_char(v@, c),
{
    let mut r: Vec<char> = Vec::new();
    let mut i: usize = 0;
    while i < v.len()
        invariant
            i <= v.len(),
            r@ == without_char(v@.subrange(0, i as int), c),
        decreases v.len() - i,
    {
        proof {
            assert(v@.subrange(0, i + 1).drop_last() =~= v@.subrange(0, i as int));
        }
        if v[i] != c {
            r.push(v[i]);
        }
        i = i + 1;
    }
    assert(v@.subrange(0, v@.len() as int) =~= v@);
    r
}

fn replace_char_exec(v: &Vec<char>, from: char, to: char) -> (r: Vec<char>)
    ensures
        r@ == replace_char(v@, from, to),
{
    let mut r: Vec<char> = Vec::new();
    let mut i: usize = 0;
    while i < v.len()
        invariant
            i <= v.len(),
            r@ == replace_char(v@.subrange(0, i as int), from, to),
        decreases v.len() - i,
    {
        let c = v[i];
        r.push(if c == from { to } else { c });
        i = i + 1;
        assert(r@ =~= replace_char(v@.subrange(0, i as int), from, to));
    }
    assert(v@.subrange(0, v@.len() as int) =~= v@);
    r
}

/// A value on one markdown line: carriage returns dropped, then trimmed.
pub open spec fn markdown_text(value: Seq<char>) -> Seq<char> {
    trim(without_char(value, '\r'))
}

pub fn markdown_line(value: &str) -> (s: String)
    ensures
        s@ == markdown_text(value@),
{
    let v = chars_of(value);
    let w = string_of(&without_char_exec(&v, '\r'));
    trim_string(w.as_str())
}

pub open spec fn matched_item_text() -> Seq<char> {
    "Matched transcript item."@
}

/// A search snippet: trimmed, on one line; a stock text where nothing is
/// left.
pub open spec fn snippet_text(value: Seq<char>) -> Seq<char> {
    if trim(value).len() == 0 {
        matched_item_text()
    } else {
        replace_char(trim(value), '\n', ' ')
    }
}

pub fn normalize_snippet(value: &str) -> (s: String)
    ensures
        s@ == snippet_text(value@),
{
    let t = trim_string(value);
    if t.unicode_len() == 0 {
        return own("Matched transcript item.");
    }
    let v = chars_of(t.as_str());
    string_of(&replace_char_exec(&v, '\n', ' '))
}

/// An ASCII letter or digit.
pub open spec fn ascii_alnum(c: char) -> bool {
    ('0' <= c && c <= '9') || ('a' <= c && c <= 'z') || ('A' <= c && c <= 'Z')
}

/// A character of a file-name segment: ASCII letters (lower-cased),
/// digits, `-` and `_`; anything else becomes `-`.
pub open spec fn segment_char(c: char) -> char {
    if ascii_alnum(c) || c == '-' || c == '_' {
        lower_char(c)
    } else {
        '-'
    }
}

pub open spec fn lstrip_dash(s: Seq<char>) -> Seq<char>
    decreases s.len(),
{
    if s.len() > 0 && s[0] == '-' {
        lstrip_dash(s.drop_first())
    } else {
        s
    }
}

pub open spec fn rstrip_dash(s: Seq<char>) -> Seq<char>
    decreases s.len(),
{
    if s.len() > 0 && s.last() == '-' {
        rstrip_dash(s.drop_last())
    } else {
        s
    }
}

/// A file-name segment made of `value`: trimmed, mapped character by
/// character, stripped of dashes at both ends, at most 64 characters;
/// `cadence` where nothing is left.
pub open spec fn file_segment(value: Seq<char>) -> Seq<char> {
    let s = rstrip_dash(lstrip_dash(trim(value).map_values(|c: char| segment_char(c))));
    if s.len() == 0 {
        "cadence"@
    } else if s.len() > 64 {
        s.subrange(0, 64)
    } else {
        s
    }
}

fn strip_dashes(v: &Vec<char>) -> (r: Vec<char>)
    ensures
        r@ == rstrip_dash(lstrip_dash(v@)),
{
    let n = v.len();
    let mut lo: usize = 0;
    assert(v@.subrange(0, n as int) =~= v@);
    while lo < n && v[lo] == '-'
        invariant
            lo <= n == v.len(),
            lstrip_dash(v@) == lstrip_dash(v@.subrange(lo as int, n as int)),
        decreases n - lo,
    {
        assert(v@.subrange(lo as int, n as int).drop_first() =~= v@.subrange(lo + 1, n as int));
        lo = lo + 1;
    }
    let mut hi: usize = n;
    let ghost l = v@.subrange(lo as int, n as int);
    assert(l.subrange(0, (n - lo) as int) =~= l);
    while hi > lo && v[hi - 1] == '-'
        invariant
            lo <= hi <= n == v.len(),
            l == v@.subrange(lo as int, n as int),
            rstrip_dash(l) == rstrip_dash(v@.subrange(lo as int, hi as int)),
        decreases hi,
    {
        assert(v@.subrange(lo as int, hi as int).drop_last() =~= v@.subrange(lo as int, hi - 1));
        hi = hi - 1;
    }
    crate::text::sub_chars(v, lo, hi)
}

pub fn sanitize_file_segment(value: &str) -> (s: String)
    ensures
        s@ == file_segment(value@),
{
    let t = chars_of(trim_string(value).as_str());
    let mut mapped: Vec<char> = Vec::new();
    let mut i: usize = 0;
    while i < t.len()
        invariant
            i <= t.len(),
            mapped@ == t@.subrange(0, i as int).map_values(|c: char| segment_char(c)),
        decreases t.len() - i,
    {
        let c = t[i];
        let ascii = ('0' <= c && c <= '9') || ('a' <= c && c <= 'z') || ('A' <= c && c <= 'Z');
        mapped.push(if ascii || c == '-' || c == '_' { crate::text::to_lower_char(c) } else { '-' });
        i = i + 1;
        assert(mapped@ =~= t@.subrange(0, i as int).map_values(|c: char| segment_char(c)));
    }
    assert(t@.subrange(0, t@.len() as int) =~= t@);
    let s = strip_dashes(&mapped);
    if s.len() == 0 {
        return own("cadence");
    }
    if s.len() > 64 {
        return string_of(&crate::text::sub_chars(&s, 0, 64));
    }
    string_of(&s)
}

/// Whether an export covers one run or a whole session.
#[derive(Debug, Clone, Copy, PartialEq, Eq, Structural)]
pub enum SessionTranscriptScopeDto {
    Run,
    Session,
}

pub open spec fn export_file_name(
    title: Seq<char>,
    scope: SessionTranscriptScopeDto,
    first_run_id: Option<Seq<char>>,
    extension: Seq<char>,
) -> Seq<char> {
    let scope_text = match scope {
        SessionTranscriptScopeDto::Run => match first_run_id {
            Some(r) => "run-"@ + file_segment(r),
            None => "run"@,
        },
        SessionTranscriptScopeDto::Session => "session"@,
    };
    file_segment(title) + "-"@ + scope_text + "-transcript."@ + extension
}

/// The file name offered for an export of a transcript titled `title`:
/// `<title>-<scope>-transcript.<extension>`, where a run export names its
/// first run.
pub fn suggested_export_file_name(
    title: &str,
    scope: SessionTranscriptScopeDto,
    first_run_id: Option<&str>,
    extension: &str,
) -> (s: String)
    ensures
        s@ == export_file_name(title@, scope, crate::text::borrowed_text(first_run_id), extension@),
{
    let scope_text = match scope {
        SessionTranscriptScopeDto::Run => match first_run_id {
            Some(r) => cat2("run-", sanitize_file_segment(r).as_str()),
            None => own("run"),
        },
        SessionTranscriptScopeDto::Session => own("session"),
    };
    let head = cat3(sanitize_file_segment(title).as_str(), "-", scope_text.as_str());
    cat3(head.as_str(), "-transcript.", extension)
}

} // verus!

verus! {

// ------------------------------------------------------------ search text

/// Whether Unicode counts `c` as alphabetic or numeric.
pub uninterp spec fn unicode_alphanumeric(c: char) -> bool;

/// `char::is_alphanumeric`: the character is Unicode alphabetic or
/// numeric; the result is the named class of `c`.
#[verifier::external_body]
fn is_alphanumeric(c: char) -> (r: bool)
    ensures
        r == unicode_alphanumeric(c),
{
    c.is_alphanumeric()
}

/// The whitespace-separated words of `s`, in order.
pub open spec fn words(s: Seq<char>) -> Seq<Seq<char>>
    decreases s.len(),
{
    if s.len() == 0 {
        seq![]
    } else {
        let w = words(s.drop_last());
        let c = s.last();
        if is_ws(c) {
            w
        } else if s.len() >= 2 && !is_ws(s[s.len() - 2]) {
            w.update(w.len() - 1, w.last().push(c))
        } else {
            w.push(seq![c])
        }
    }
}

/// `str::split_whitespace`.
fn split_words(v: &Vec<char>) -> (r: Vec<String>)
    ensures
        crate::sorting::string_views(r@) == words(v@),
{
    let mut done: Vec<String> = Vec::new();
    let mut cur = String::new();
    let mut i: usize = 0;
    while i < v.len()
        invariant
            i <= v.len(),
            (cur@.len() > 0) == (i > 0 && !is_ws(v@[i - 1])),
            words(v@.subrange(0, i as int)) == if cur@.len() > 0 {
                crate::sorting::string_views(done@).push(cur@)
            } else {
                crate::sorting::string_views(done@)
            },
        decreases v.len() - i,
    {
        let ghost prefix = v@.subrange(0, i + 1);
        proof {
            assert(prefix.drop_last() =~= v@.subrange(0, i as int));
            if i > 0 {
                assert(prefix[prefix.len() - 2] == v@[i - 1]);
            }
        }
        let c = v[i];
        let ghost d0 = crate::sorting::string_views(done@);
        let ghost c0 = cur@;
        if crate::text::is_whitespace(c) {
            if cur.unicode_len() > 0 {
                done.push(cur);
                cur = String::new();
                assert(crate::sorting::string_views(done@) =~= d0.push(c0));
            }
        } else {
            push_char(&mut cur, c);
            proof {
                if c0.len() > 0 {
                    assert(d0.push(c0).update(d0.len() as int, c0.push(c)) =~= d0.push(cur@));
                } else {
                    assert(cur@ =~= seq![c]);
                }
            }
        }
        i = i + 1;
    }
    assert(v@.subrange(0, v@.len() as int) =~= v@);
    if cur.unicode_len() > 0 {
        let ghost d0 = crate::sorting::string_views(done@);
        let ghost c0 = cur@;
        done.push(cur);
        assert(crate::sorting::string_views(done@) =~= d0.push(c0));
    }
    done
}

/// A character a search term is stripped of at its ends: anything but
/// letters, digits, `_` and `-`.
pub open spec fn term_edge(c: char) -> bool {
    !unicode_alphanumeric(c) && c != '_' && c != '-'
}

pub open spec fn lstrip_edge(s: Seq<char>) -> Seq<char>
    decreases s.len(),
{
    if s.len() > 0 && term_edge(s[0]) {
        lstrip_edge(s.drop_first())
    } else {
        s
    }
}

pub open spec fn rstrip_edge(s: Seq<char>) -> Seq<char>
    decreases s.len(),
{
    if s.len() > 0 && term_edge(s.last()) {
        rstrip_edge(s.drop_last())
    } else {
        s
    }
}

/// A word stripped of punctuation at both ends.
pub open spec fn term_of(w: Seq<char>) -> Seq<char> {
    rstrip_edge(lstrip_edge(w))
}

fn strip_term(w: &str) -> (r: String)
    ensures
        r@ == term_of(w@),
{
    let v = chars_of(w);
    let n = v.len();
    let mut lo: usize = 0;
    assert(v@.subrange(0, n as int) =~= v@);
    while lo < n && !is_alphanumeric(v[lo]) && v[lo] != '_' && v[lo] != '-'
        invariant
            lo <= n == v.len(),
            lstrip_edge(v@) == lstrip_edge(v@.subrange(lo as int, n as int)),
        decreases n - lo,
    {
        assert(v@.subrange(lo as int, n as int).drop_first() =~= v@.subrange(lo + 1, n as int));
        lo = lo + 1;
    }
    let mut hi: usize = n;
    let ghost l = v@.subrange(lo as int, n as int);
    assert(l.subrange(0, (n - lo) as int) =~= l);
    while hi > lo && !is_alphanumeric(v[hi - 1]) && v[hi - 1] != '_' && v[hi - 1] != '-'
        invariant
            lo <= hi <= n == v.len(),
            l == v@.subrange(lo as int, n as int),
            rstrip_edge(l) == rstrip_edge(v@.subrange(lo as int, hi as int)),
        decreases hi,
    {
        assert(v@.subrange(lo as int, hi as int).drop_last() =~= v@.subrange(lo as int, hi - 1));
        hi = hi - 1;
    }
    crate::text::string_of_range(&v, lo, hi)
}

/// The non-empty terms of `ws`, in order.
pub open spec fn terms(ws: Seq<Seq<char>>) -> Seq<Seq<char>>
    decreases ws.len(),
{
    if ws.len() == 0 {
        seq![]
    } else if term_of(ws.last()).len() == 0 {
        terms(ws.drop_last())
    } else {
        terms(ws.drop_last()).push(term_of(ws.last()))
    }
}

/// `t` with each `"` doubled.
pub open spec fn doubled_quotes(t: Seq<char>) -> Seq<char>
    decreases t.len(),
{
    if t.len() == 0 {
        seq![]
    } else {
        doubled_quotes(t.drop_last()) + if t.last() == '"' {
            seq!['"', '"']
        } else {
            seq![t.last()]
        }
    }
}

/// A term as an FTS5 phrase.
pub open spec fn quoted(t: Seq<char>) -> Seq<char> {
    seq!['"'] + doubled_quotes(t) + seq!['"']
}

/// The FTS5 query for `query`: its first eight terms, each a phrase, all
/// required.
pub open spec fn fts_text(query: Seq<char>) -> Seq<char> {
    let ts = terms(words(query));
    let first8 = if ts.len() > 8 { ts.subrange(0, 8) } else { ts };
    crate::lines::join(first8.map_values(|t: Seq<char>| quoted(t)), " AND "@)
}

fn quote_term(t: &String) -> (r: String)
    ensures
        r@ == quoted(t@),
{
    let v = chars_of(t.as_str());
    let mut s = String::new();
    push_char(&mut s, '"');
    let mut i: usize = 0;
    while i < v.len()
        invariant
            i <= v.len(),
            s@ == seq!['"'] + doubled_quotes(v@.subrange(0, i as int)),
        decreases v.len() - i,
    {
        proof {
            assert(v@.subrange(0, i + 1).drop_last() =~= v@.subrange(0, i as int));
        }
        let ghost before = s@;
        if v[i] == '"' {
            push_char(&mut s, '"');
            push_char(&mut s, '"');
        } else {
            push_char(&mut s, v[i]);
        }
        assert(s@ =~= seq!['"'] + doubled_quotes(v@.subrange(0, i + 1)));
        i = i + 1;
    }
    assert(v@.subrange(0, v@.len() as int) =~= v@);
    push_char(&mut s, '"');
    s
}

pub fn fts_query(query: &str) -> (s: String)
    ensures
        s@ == fts_text(query@),
{
    let ws = split_words(&chars_of(query));
    let mut ts: Vec<String> = Vec::new();
    let mut i: usize = 0;
    while i < ws.len()
        invariant
            i <= ws.len(),
            crate::sorting::string_views(ts@) == terms(crate::sorting::string_views(ws@).subrange(0, i as int)),
        decreases ws.len() - i,
    {
        proof {
            assert(crate::sorting::string_views(ws@).subrange(0, i + 1).drop_last() =~= crate::sorting::string_views(
                ws@,
            ).subrange(0, i as int));
        }
        let t = strip_term(ws[i].as_str());
        if t.unicode_len() > 0 {
            let ghost before = crate::sorting::string_views(ts@);
            ts.push(t);
            assert(crate::sorting::string_views(ts@) =~= before.push(t@));
        }
        i = i + 1;
    }
    assert(crate::sorting::string_views(ws@).subrange(0, ws@.len() as int) =~= crate::sorting::string_views(ws@));
    let ghost all = crate::sorting::string_views(ts@);
    let n = if ts.len() > 8 { 8 } else { ts.len() };
    let ghost first8 = if all.len() > 8 { all.subrange(0, 8) } else { all };
    let mut quoted_terms: Vec<String> = Vec::new();
    let mut k: usize = 0;
    while k < n
        invariant
            k <= n <= ts.len(),
            n == first8.len(),
            all == crate::sorting::string_views(ts@),
            first8 == if all.len() > 8 { all.subrange(0, 8) } else { all },
            crate::sorting::string_views(quoted_terms@) == first8.subrange(0, k as int).map_values(
                |t: Seq<char>| quoted(t),
            ),
        decreases n - k,
    {
        let q = quote_term(&ts[k]);
        let ghost before = crate::sorting::string_views(quoted_terms@);
        quoted_terms.push(q);
        proof {
            assert(first8[k as int] == all[k as int]);
            assert(all[k as int] == ts@[k as int]@);
            assert(crate::sorting::string_views(quoted_terms@) =~= before.push(q@));
            assert(first8.subrange(0, k + 1).map_values(|t: Seq<char>| quoted(t)) =~= first8.subrange(0, k as int).map_values(
                |t: Seq<char>| quoted(t),
            ).push(quoted(first8[k as int])));
            assert(crate::sorting::string_views(quoted_terms@) =~= first8.subrange(0, k + 1).map_values(
                |t: Seq<char>| quoted(t),
            ));
        }
        k = k + 1;
    }
    assert(first8.subrange(0, n as int) =~= first8);
    let s = crate::dispatch::join_texts(&quoted_terms, 0, " AND ");
    assert(crate::sorting::string_views(quoted_terms@).subrange(0, quoted_terms@.len() as int)
        =~= crate::sorting::string_views(quoted_terms@));
    s
}

} // verus!

verus! {

/// The `,`-separated pieces of `s`, empty ones included.
pub open spec fn comma_pieces(s: Seq<char>) -> Seq<Seq<char>>
    decreases s.len(),
{
    if s.len() == 0 {
        seq![seq![]]
    } else {
        let p = comma_pieces(s.drop_last());
        if s.last() == ',' {
            p.push(seq![])
        } else {
            p.update(p.len() - 1, p.last().push(s.last()))
        }
    }
}

proof fn lemma_comma_pieces_nonempty(s: Seq<char>)
    ensures
        comma_pieces(s).len() >= 1,
    decreases s.len(),
{
    if s.len() > 0 {
        lemma_comma_pieces_nonempty(s.drop_last());
    }
}

/// The trimmed pieces that are not blank, in order.
pub open spec fn nonblank_trimmed(ps: Seq<Seq<char>>) -> Seq<Seq<char>>
    decreases ps.len(),
{
    if ps.len() == 0 {
        seq![]
    } else if trim(ps.last()).len() == 0 {
        nonblank_trimmed(ps.drop_last())
    } else {
        nonblank_trimmed(ps.drop_last()).push(trim(ps.last()))
    }
}

/// The field names a search row stores as `a,b,c`.
pub fn split_matched_fields(value: &str) -> (r: Vec<String>)
    ensures
        crate::sorting::string_views(r@) == nonblank_trimmed(comma_pieces(value@)),
{
    let v = chars_of(value);
    let mut pieces: Vec<String> = Vec::new();
    let mut cur = String::new();
    let mut i: usize = 0;
    while i < v.len()
        invariant
            i <= v.len(),
            v@ == value@,
            comma_pieces(v@.subrange(0, i as int)) == crate::sorting::string_views(pieces@).push(cur@),
        decreases v.len() - i,
    {
        proof {
            assert(v@.subrange(0, i + 1).drop_last() =~= v@.subrange(0, i as int));
        }
        let ghost p0 = crate::sorting::string_views(pieces@);
        let ghost c0 = cur@;
        if v[i] == ',' {
            pieces.push(cur);
            cur = String::new();
            assert(crate::sorting::string_views(pieces@) =~= p0.push(c0));
            assert(p0.push(c0).push(seq![]) =~= crate::sorting::string_views(pieces@).push(cur@));
        } else {
            push_char(&mut cur, v[i]);
            assert(p0.push(c0).update(p0.len() as int, c0.push(v@[i as int])) =~= p0.push(cur@));
        }
        i = i + 1;
    }
    assert(v@.subrange(0, v@.len() as int) =~= v@);
    let ghost p0 = crate::sorting::string_views(pieces@);
    let ghost c0 = cur@;
    pieces.push(cur);
    assert(crate::sorting::string_views(pieces@) =~= p0.push(c0));
    let mut out: Vec<String> = Vec::new();
    let mut k: usize = 0;
    while k < pieces.len()
        invariant
            k <= pieces.len(),
            crate::sorting::string_views(out@) == nonblank_trimmed(crate::sorting::string_views(pieces@).subrange(0, k as int)),
        decreases pieces.len() - k,
    {
        proof {
            assert(crate::sorting::string_views(pieces@).subrange(0, k + 1).drop_last() =~= crate::sorting::string_views(
                pieces@,
            ).subrange(0, k as int));
        }
        let t = trim_string(pieces[k].as_str());
        if t.unicode_len() > 0 {
            let ghost before = crate::sorting::string_views(out@);
            out.push(t);
            assert(crate::sorting::string_views(out@) =~= before.push(t@));
        }
        k = k + 1;
    }
    assert(crate::sorting::string_views(pieces@).subrange(0, pieces@.len() as int) =~= crate::sorting::string_views(pieces@));
    out
}

/// The bytes `c` takes in UTF-8.
pub open spec fn utf8_width(c: char) -> nat {
    if (c as u32) < 0x80 {
        1
    } else if (c as u32) < 0x800 {
        2
    } else if (c as u32) < 0x10000 {
        3
    } else {
        4
    }
}

/// The bytes `s` takes in UTF-8.
pub open spec fn utf8_len(s: Seq<char>) -> nat
    decreases s.len(),
{
    if s.len() == 0 {
        0
    } else {
        utf8_len(s.drop_last()) + utf8_width(s.last())
    }
}

/// The fallback snippet of `content` for a match of `query` (lower-case):
/// from 60 bytes before the first match in the ASCII-lower-cased content,
/// read as a count of characters to skip, at most 220 characters on one
/// line, trimmed; a stock text where nothing is left.
pub open spec fn fallback_text(content: Seq<char>, query: Seq<char>) -> Seq<char> {
    let lower = content.map_values(|c: char| lower_char(c));
    let start: int = match crate::text::find(lower, query) {
        Some(p) => if utf8_len(lower.subrange(0, p)) >= 60 {
            utf8_len(lower.subrange(0, p)) - 60
        } else {
            0
        },
        None => 0,
    };
    let skipped = if start < content.len() { content.subrange(start, content.len() as int) } else { seq![] };
    let taken = if skipped.len() > 220 { skipped.subrange(0, 220) } else { skipped };
    let one_line = replace_char(taken, '\n', ' ');
    if trim(one_line).len() == 0 {
        matched_item_text()
    } else {
        trim(one_line)
    }
}

fn utf8_width_exec(c: char) -> (n: u128)
    ensures
        n == utf8_width(c),
{
    let u = c as u32;
    if u < 0x80 {
        1
    } else if u < 0x800 {
        2
    } else if u < 0x10000 {
        3
    } else {
        4
    }
}

pub fn fallback_snippet(content: &str, query: &str) -> (s: String)
    ensures
        s@ == fallback_text(content@, query@),
{
    let v = chars_of(content);
    let mut lower: Vec<char> = Vec::new();
    let mut i: usize = 0;
    while i < v.len()
        invariant
            i <= v.len(),
            lower@ == v@.subrange(0, i as int).map_values(|c: char| lower_char(c)),
        decreases v.len() - i,
    {
        lower.push(crate::text::to_lower_char(v[i]));
        i = i + 1;
        assert(lower@ =~= v@.subrange(0, i as int).map_values(|c: char| lower_char(c)));
    }
    assert(v@.subrange(0, v@.len() as int) =~= v@);
    let q = chars_of(query);
    let start: u128 = match crate::text::find_chars(&lower, &q) {
        Some(p) => {
            let mut bytes: u128 = 0;
            let mut k: usize = 0;
            while k < p
                invariant
                    k <= p <= lower.len(),
                    bytes == utf8_len(lower@.subrange(0, k as int)),
                    bytes <= 4 * k,
                decreases p - k,
            {
                proof {
                    assert(lower@.subrange(0, k + 1).drop_last() =~= lower@.subrange(0, k as int));
                }
                bytes = bytes + utf8_width_exec(lower[k]);
                k = k + 1;
            }
            if bytes >= 60 {
                bytes - 60
            } else {
                0
            }
        },
        None => 0,
    };
    let mut taken: Vec<char> = Vec::new();
    if start < v.len() as u128 {
        let lo = start as usize;
        let hi = if v.len() - lo > 220 { lo + 220 } else { v.len() };
        taken = crate::text::sub_chars(&v, lo, hi);
        assert(taken@ =~= if v@.subrange(lo as int, v@.len() as int).len() > 220 {
            v@.subrange(lo as int, v@.len() as int).subrange(0, 220)
        } else {
            v@.subrange(lo as int, v@.len() as int)
        });
    }
    let one_line = string_of(&replace_char_exec(&taken, '\n', ' '));
    let t = trim_string(one_line.as_str());
    if t.unicode_len() == 0 {
        return own("Matched transcript item.");
    }
    t
}

/// Adds a part of an item to a search row: its trimmed value, where not
/// blank, and its field name, once.
pub fn push_search_part(content_parts: &mut Vec<String>, fields: &mut Vec<String>, field: &str, value: Option<&str>)
    ensures
        match crate::text::normalized_text(crate::text::borrowed_text(value)) {
            None => final(content_parts)@ == old(content_parts)@ && final(fields)@ == old(fields)@,
            Some(t) => {
                &&& crate::sorting::string_views(final(content_parts)@) == crate::sorting::string_views(
                    old(content_parts)@,
                ).push(t)
                &&& crate::sorting::string_views(final(fields)@) == if crate::sorting::string_views(
                    old(fields)@,
                ).contains(field@) {
                    crate::sorting::string_views(old(fields)@)
                } else {
                    crate::sorting::string_views(old(fields)@).push(field@)
                }
            },
        },
{
    let t = match crate::text::trimmed_present(value) {
        Some(t) => t,
        None => {
            return;
        },
    };
    let ghost c0 = crate::sorting::string_views(content_parts@);
    content_parts.push(t);
    assert(crate::sorting::string_views(content_parts@) =~= c0.push(t@));
    let mut i: usize = 0;
    while i < fields.len()
        invariant
            i <= fields.len(),
            fields@ == old(fields)@,
            crate::sorting::string_views(content_parts@) == crate::sorting::string_views(old(content_parts)@).push(t@),
            crate::text::normalized_text(crate::text::borrowed_text(value)) == Some(t@),
            forall|j: int| 0 <= j < i ==> (#[trigger] fields@[j])@ != field@,
        decreases fields.len() - i,
    {
        if str_eq(fields[i].as_str(), field) {
            assert(crate::sorting::string_views(fields@)[i as int] == field@);
            assert(crate::sorting::string_views(fields@).contains(field@));
            return;
        }
        i = i + 1;
    }
    let ghost f0 = crate::sorting::string_views(fields@);
    proof {
        if f0.contains(field@) {
            let j = choose|j: int| 0 <= j < f0.len() && f0[j] == field@;
            assert(fields@[j]@ == field@);
        }
    }
    fields.push(own(field));
    assert(crate::sorting::string_views(fields@) =~= f0.push(field@));
}

} // verus!

verus! {

/// How a search response counts its results: the total returned, and
/// whether more rows matched than the limit let through.
pub fn search_totals(results: usize, rows: usize, limit: usize) -> (r: (usize, bool))
    ensures
        r.0 == results,
        r.1 == (results >= limit && rows > limit),
{
    (results, results >= limit && rows > limit)
}

} // verus!

verus! {

proof fn lemma_lstrip_dash(s: Seq<char>)
    ensures
        lstrip_dash(s).len() <= s.len(),
        lstrip_dash(s).len() > 0 ==> lstrip_dash(s)[0] != '-',
        forall|i: int| 0 <= i < lstrip_dash(s).len() ==> exists|j: int| 0 <= j < s.len() && #[trigger] lstrip_dash(s)[i] == s[j],
    decreases s.len(),
{
    if s.len() > 0 && s[0] == '-' {
        lemma_lstrip_dash(s.drop_first());
        assert forall|i: int| 0 <= i < lstrip_dash(s).len() implies exists|j: int| 0 <= j < s.len() && #[trigger] lstrip_dash(s)[i] == s[j] by {
            let j = choose|j: int| 0 <= j < s.drop_first().len() && lstrip_dash(s.drop_first())[i] == s.drop_first()[j];
            assert(s[j + 1] == s.drop_first()[j]);
        }
    } else {
        assert forall|i: int| 0 <= i < lstrip_dash(s).len() implies exists|j: int| 0 <= j < s.len() && #[trigger] lstrip_dash(s)[i] == s[j] by {
            assert(lstrip_dash(s)[i] == s[i]);
        }
    }
}

proof fn lemma_rstrip_dash(s: Seq<char>)
    ensures
        rstrip_dash(s) == s.subrange(0, rstrip_dash(s).len() as int),
        rstrip_dash(s).len() <= s.len(),
    decreases s.len(),
{
    if s.len() > 0 && s.last() == '-' {
        lemma_rstrip_dash(s.drop_last());
        assert(s.drop_last().subrange(0, rstrip_dash(s).len() as int) =~= s.subrange(0, rstrip_dash(s).len() as int));
    } else {
        assert(s.subrange(0, s.len() as int) =~= s);
    }
}

/// A file-name segment is never empty, holds at most 64 characters, only
/// lower-case ASCII letters, digits, `-` and `_`, and never starts with
/// `-`.
pub proof fn law_file_segment_is_safe(value: Seq<char>)
    ensures
        ({
            let s = file_segment(value);
            &&& 0 < s.len() <= 64
            &&& s[0] != '-'
            &&& forall|i: int| 0 <= i < s.len() ==> {
                let c = #[trigger] s[i];
                ('a' <= c && c <= 'z') || ('0' <= c && c <= '9') || c == '-' || c == '_'
            }
        }),
{
    let m = trim(value).map_values(|c: char| segment_char(c));
    assert forall|j: int| 0 <= j < m.len() implies {
        let c = #[trigger] m[j];
        ('a' <= c && c <= 'z') || ('0' <= c && c <= '9') || c == '-' || c == '_'
    } by {
        let c0 = trim(value)[j];
        assert(m[j] == segment_char(c0));
    }
    lemma_lstrip_dash(m);
    let l = lstrip_dash(m);
    lemma_rstrip_dash(l);
    let r = rstrip_dash(l);
    assert forall|i: int| 0 <= i < r.len() implies {
        let c = #[trigger] r[i];
        ('a' <= c && c <= 'z') || ('0' <= c && c <= '9') || c == '-' || c == '_'
    } by {
        assert(r[i] == l[i]);
        let j = choose|j: int| 0 <= j < m.len() && l[i] == m[j];
    }
    if r.len() > 0 {
        assert(r[0] == l[0]);
    } else {
        reveal_strlit("cadence");
    }
}

} // verus!
