//! Commit-message generation: the prompt that lists the staged files, the
//! budgets of the read-only git tools, and the cleanup of the message a
//! model returns.

use vstd::prelude::*;
use crate::error::{CommandError, CommandResult, fault, Fault};
use crate::lines::{join, join_chars, lines, split_lines_chars, texts};
use crate::text::{
    blank, cat2, cat3, cat5, chars_of, decimal, decimal_string, has_char, has_char_exec, lower,
    lower_chars, ltrim, ltrim_chars, own, rtrim, rtrim_chars, starts_with, starts_with_chars,
    str_eq, string_of, sub_chars, trim, trim_bounds, trim_string,
};

verus! {

pub const COMMIT_MESSAGE_MAX_PROVIDER_TURNS: usize = 6;
pub const COMMIT_MESSAGE_MAX_TOOL_CALLS: usize = 8;
pub const COMMIT_MESSAGE_MAX_PATHS_PER_DIFF_CALL: usize = 8;
pub const COMMIT_MESSAGE_MAX_DIFF_BYTES_PER_CALL: usize = 65536;
pub const COMMIT_MESSAGE_MAX_DIFF_BYTES_TOTAL: usize = 196608;

/// How a staged file changed.
#[derive(Debug, Clone, Copy, PartialEq, Eq, Structural)]
pub enum ChangeKind {
    Added,
    Modified,
    Deleted,
    Renamed,
    Copied,
    TypeChange,
    Conflicted,
}

/// One staged file of a repository diff.
#[derive(Debug, Clone)]
pub struct RepositoryDiffFileDto {
    pub old_path: Option<String>,
    pub new_path: Option<String>,
    pub display_path: String,
    pub status: ChangeKind,
    /// The file's hunks, as text.
    pub hunks: Vec<String>,
    pub patch: String,
    pub truncated: bool,
    pub cache_key: String,
}

pub open spec fn change_label(k: ChangeKind) -> Seq<char> {
    match k {
        ChangeKind::Added => "added"@,
        ChangeKind::Modified => "modified"@,
        ChangeKind::Deleted => "deleted"@,
        ChangeKind::Renamed => "renamed"@,
        ChangeKind::Copied => "copied"@,
        ChangeKind::TypeChange => "type changed"@,
        ChangeKind::Conflicted => "conflicted"@,
    }
}

pub fn change_kind_label(kind: &ChangeKind) -> (s: &'static str)
    ensures
        s@ == change_label(*kind),
{
    match kind {
        ChangeKind::Added => "added",
        ChangeKind::Modified => "modified",
        ChangeKind::Deleted => "deleted",
        ChangeKind::Renamed => "renamed",
        ChangeKind::Copied => "copied",
        ChangeKind::TypeChange => "type changed",
        ChangeKind::Conflicted => "conflicted",
    }
}

/// `old -> new` for a file whose path changed, else its display path.
pub open spec fn display_path(f: RepositoryDiffFileDto) -> Seq<char> {
    match (f.old_path, f.new_path) {
        (Some(o), Some(n)) => if o@ != n@ {
            o@ + " -> "@ + n@
        } else {
            f.display_path@
        },
        _ => f.display_path@,
    }
}

pub fn file_display_path(file: &RepositoryDiffFileDto) -> (s: String)
    ensures
        s@ == display_path(*file),
{
    match (&file.old_path, &file.new_path) {
        (Some(o), Some(n)) => {
            if !str_eq(o.as_str(), n.as_str()) {
                cat3(o.as_str(), " -> ", n.as_str())
            } else {
                own(file.display_path.as_str())
            }
        },
        _ => own(file.display_path.as_str()),
    }
}

/// The overview line of file `i`: its number from 1, change kind and path.
pub open spec fn overview_line(files: Seq<RepositoryDiffFileDto>, i: int) -> Seq<char> {
    decimal((i + 1) as nat) + ". ["@ + change_label(files[i].status) + "] "@ + display_path(files[i])
}

/// Every staged file, one numbered line each.
pub open spec fn staged_overview(files: Seq<RepositoryDiffFileDto>) -> Seq<char> {
    if files.len() == 0 {
        "No staged files were reported."@
    } else {
        join(Seq::new(files.len(), |i: int| overview_line(files, i)), "\n"@)
    }
}

pub fn staged_file_overview(files: &[RepositoryDiffFileDto]) -> (s: String)
    ensures
        s@ == staged_overview(files@),
{
    if files.len() == 0 {
        return own("No staged files were reported.");
    }
    let mut entries: Vec<Vec<char>> = Vec::new();
    let mut i: usize = 0;
    while i < files.len()
        invariant
            i <= files.len(),
            texts(entries@) == Seq::new(i as nat, |k: int| overview_line(files@, k)),
        decreases files.len() - i,
    {
        let number = decimal_string((i + 1) as u64);
        let path = file_display_path(&files[i]);
        let line = cat5(number.as_str(), ". [", change_kind_label(&files[i].status), "] ", path.as_str());
        let ghost before = entries@;
        let lc = chars_of(line.as_str());
        entries.push(lc);
        proof {
            assert(texts(before).len() == before.len());
            assert(before.len() == i);
            assert(entries@ == before.push(lc));
            assert(line@ == overview_line(files@, i as int));
            assert(texts(entries@)[i as int] == overview_line(files@, i as int));
            assert forall|k: int| 0 <= k < i implies texts(entries@)[k] == overview_line(files@, k) by {
                assert(entries@[k] == before[k]);
                assert(texts(before)[k] == overview_line(files@, k));
            }
        }
        assert(texts(entries@) =~= Seq::new((i + 1) as nat, |k: int| overview_line(files@, k)));
        i = i + 1;
    }
    proof {
        reveal_strlit("\n");
        assert(texts(entries@).subrange(0, entries@.len() as int) =~= texts(entries@));
        assert(seq!['\n'] =~= "\n"@);
    }
    join_chars(&entries, 0, '\n')
}

/// The prompt that opens a commit-message conversation.
pub open spec fn commit_prompt(project_id: Seq<char>, files: Seq<RepositoryDiffFileDto>) -> Seq<char> {
    "Generate a Git commit message for the staged changes in project `"@ + trim(project_id)
        + "`.\nThe staged file list below is complete. Xero has not provided a capped all-file diff; instead, decide which staged diffs to inspect with the read-only git tools. Use `read_staged_diff` before making behavior-specific claims. Prefer reading every staged diff when it fits the budget; when the change set is too large, inspect the files that determine the dominant change and keep the final message broad and truthful about uninspected paths.\n\nTool limits: at most "@
        + decimal(COMMIT_MESSAGE_MAX_TOOL_CALLS as nat) + " tool call(s), "@ + decimal(
        COMMIT_MESSAGE_MAX_PATHS_PER_DIFF_CALL as nat,
    ) + " path(s) per diff call, "@ + decimal(COMMIT_MESSAGE_MAX_DIFF_BYTES_TOTAL as nat)
        + " total diff byte(s), and "@ + decimal(COMMIT_MESSAGE_MAX_DIFF_BYTES_PER_CALL as nat)
        + " byte(s) per diff call.\n\nStaged files ("@ + decimal(files.len()) + "):\n"@
        + staged_overview(files)
}

pub fn build_commit_message_prompt(project_id: &str, files: &[RepositoryDiffFileDto]) -> (s: String)
    ensures
        s@ == commit_prompt(project_id@, files@),
{
    let overview = staged_file_overview(files);
    let project = trim_string(project_id);
    let calls = decimal_string(COMMIT_MESSAGE_MAX_TOOL_CALLS as u64);
    let paths = decimal_string(COMMIT_MESSAGE_MAX_PATHS_PER_DIFF_CALL as u64);
    let total = decimal_string(COMMIT_MESSAGE_MAX_DIFF_BYTES_TOTAL as u64);
    let per_call = decimal_string(COMMIT_MESSAGE_MAX_DIFF_BYTES_PER_CALL as u64);
    let count = decimal_string(files.len() as u64);
    let a = cat5(
        "Generate a Git commit message for the staged changes in project `",
        project.as_str(),
        "`.\nThe staged file list below is complete. Xero has not provided a capped all-file diff; instead, decide which staged diffs to inspect with the read-only git tools. Use `read_staged_diff` before making behavior-specific claims. Prefer reading every staged diff when it fits the budget; when the change set is too large, inspect the files that determine the dominant change and keep the final message broad and truthful about uninspected paths.\n\nTool limits: at most ",
        calls.as_str(),
        " tool call(s), ",
    );
    let b = cat5(a.as_str(), paths.as_str(), " path(s) per diff call, ", total.as_str(), " total diff byte(s), and ");
    let c = cat5(b.as_str(), per_call.as_str(), " byte(s) per diff call.\n\nStaged files (", count.as_str(), "):\n");
    cat2(c.as_str(), overview.as_str())
}

} // verus!

verus! {

// ----------------------------------------------------------- message cleanup

/// The fence marker a model may wrap its answer in.
pub open spec fn fence() -> Seq<char> {
    "```"@
}

/// The message without a surrounding Markdown code fence.
pub open spec fn strip_fence(m: Seq<char>) -> Seq<char> {
    let t = trim(m);
    if !starts_with(t, fence()) {
        t
    } else {
        let ls = lines(t);
        let ls1 = if ls.len() > 0 && starts_with(ltrim(ls[0]), fence()) {
            ls.drop_first()
        } else {
            ls
        };
        let ls2 = if ls1.len() > 0 && rtrim(ls1.last()) == fence() {
            ls1.drop_last()
        } else {
            ls1
        };
        trim(join(ls2, "\n"@))
    }
}

/// The message without a leading `commit message:`, `commit:` or
/// `message:` label, in any ASCII case.
pub open spec fn strip_label(m: Seq<char>) -> Seq<char> {
    let t = ltrim(m);
    let l = lower(t);
    if starts_with(l, "commit message:"@) {
        ltrim(t.subrange(15, t.len() as int))
    } else if starts_with(l, "commit:"@) {
        ltrim(t.subrange(7, t.len() as int))
    } else if starts_with(l, "message:"@) {
        ltrim(t.subrange(8, t.len() as int))
    } else {
        t
    }
}

/// The one-line message without wrapping double, single or back quotes.
pub open spec fn strip_quotes(m: Seq<char>) -> Seq<char> {
    let t = trim(m);
    if t.len() < 2 || has_char(t, '\n') {
        t
    } else if (t[0] == '"' && t.last() == '"') || (t[0] == '\'' && t.last() == '\'') || (t[0] == '`'
        && t.last() == '`') {
        trim(t.subrange(1, t.len() - 1))
    } else {
        t
    }
}

/// Runs of blank lines become one empty line; other lines lose their
/// trailing whitespace.
pub open spec fn collapse(ls: Seq<Seq<char>>, after_blank: bool) -> Seq<Seq<char>>
    decreases ls.len(),
{
    if ls.len() == 0 {
        seq![]
    } else if blank(ls[0]) {
        (if after_blank {
            seq![]
        } else {
            seq![seq![]]
        }) + collapse(ls.drop_first(), true)
    } else {
        seq![rtrim(ls[0])] + collapse(ls.drop_first(), false)
    }
}

pub open spec fn collapse_blank_lines(m: Seq<char>) -> Seq<char> {
    join(collapse(lines(m), false), "\n"@)
}

/// The cleaned-up message: fence, label and quotes removed, blank runs
/// collapsed, trimmed.
pub open spec fn sanitized(m: Seq<char>) -> Seq<char> {
    trim(collapse_blank_lines(strip_quotes(strip_label(strip_fence(m)))))
}

fn fence_chars() -> (v: Vec<char>)
    ensures
        v@ == fence(),
{
    chars_of("```")
}

pub fn strip_markdown_fence(message: &str) -> (s: String)
    ensures
        s@ == strip_fence(message@),
{
    let t = trim_string(message);
    let tv = chars_of(t.as_str());
    let f = fence_chars();
    if !starts_with_chars(&tv, &f) {
        return t;
    }
    let mut ls = split_lines_chars(&tv);
    let ghost l0 = texts(ls@);
    if ls.len() > 0 {
        let first = ltrim_chars(&ls[0]);
        if starts_with_chars(&first, &f) {
            ls.remove(0);
            assert(texts(ls@) =~= l0.drop_first());
        }
    }
    let ghost l1 = texts(ls@);
    if ls.len() > 0 {
        let last = rtrim_chars(&ls[ls.len() - 1]);
        let f2 = fence_chars();
        if crate::text::chars_eq(&last, &f2) {
            ls.pop();
            assert(texts(ls@) =~= l1.drop_last());
        }
    }
    proof {
        reveal_strlit("\n");
        assert(seq!['\n'] =~= "\n"@);
        assert(texts(ls@).subrange(0, ls@.len() as int) =~= texts(ls@));
    }
    let joined = join_chars(&ls, 0, '\n');
    trim_string(joined.as_str())
}

pub fn strip_label_prefix(message: &str) -> (s: String)
    ensures
        s@ == strip_label(message@),
{
    let m = chars_of(message);
    let t = ltrim_chars(&m);
    let l = lower_chars(&t);
    let p1 = chars_of("commit message:");
    let p2 = chars_of("commit:");
    let p3 = chars_of("message:");
    proof {
        reveal_strlit("commit message:");
        reveal_strlit("commit:");
        reveal_strlit("message:");
    }
    if starts_with_chars(&l, &p1) {
        let rest = sub_chars(&t, 15, t.len());
        return string_of(&ltrim_chars(&rest));
    }
    if starts_with_chars(&l, &p2) {
        let rest = sub_chars(&t, 7, t.len());
        return string_of(&ltrim_chars(&rest));
    }
    if starts_with_chars(&l, &p3) {
        let rest = sub_chars(&t, 8, t.len());
        return string_of(&ltrim_chars(&rest));
    }
    string_of(&t)
}

pub fn strip_wrapping_quotes(message: &str) -> (s: String)
    ensures
        s@ == strip_quotes(message@),
{
    let t = trim_string(message);
    let v = chars_of(t.as_str());
    if v.len() < 2 || has_char_exec(&v, '\n') {
        return t;
    }
    let a = v[0];
    let b = v[v.len() - 1];
    if (a == '"' && b == '"') || (a == '\'' && b == '\'') || (a == '`' && b == '`') {
        let inner = string_of(&sub_chars(&v, 1, v.len() - 1));
        return trim_string(inner.as_str());
    }
    t
}

pub fn collapse_excess_blank_lines(message: &str) -> (s: String)
    ensures
        s@ == collapse_blank_lines(message@),
{
    let m = chars_of(message);
    let ls = split_lines_chars(&m);
    let ghost all = texts(ls@);
    let mut out: Vec<Vec<char>> = Vec::new();
    let mut after_blank = false;
    let mut i: usize = 0;
    proof {
        assert(all.subrange(0, ls@.len() as int) =~= all);
        assert(texts(out@) + collapse(all, false) =~= collapse(all, false));
    }
    while i < ls.len()
        invariant
            i <= ls.len(),
            all == texts(ls@),
            texts(out@) + collapse(all.subrange(i as int, ls@.len() as int), after_blank)
                == collapse(all, false),
        decreases ls.len() - i,
    {
        let ghost rest = all.subrange(i as int, ls@.len() as int);
        proof {
            assert(rest.drop_first() =~= all.subrange(i + 1, ls@.len() as int));
            assert(rest[0] == ls@[i as int]@);
        }
        let line: &Vec<char> = &ls[i];
        let (lo, hi) = trim_bounds(line);
        let ghost before = texts(out@);
        if lo == hi {
            if !after_blank {
                out.push(Vec::new());
                assert(texts(out@) =~= before + seq![Seq::<char>::empty()]);
                assert(before + seq![Seq::<char>::empty()] + collapse(rest.drop_first(), true) =~= before + collapse(rest, false));
            } else {
                assert(texts(out@) =~= before);
            }
            after_blank = true;
        } else {
            let r = rtrim_chars(line);
            out.push(r);
            assert(texts(out@) =~= before + seq![rtrim(rest[0])]);
            assert(before + seq![rtrim(rest[0])] + collapse(rest.drop_first(), false) =~= before + collapse(rest, after_blank));
            after_blank = false;
        }
        i = i + 1;
    }
    proof {
        reveal_strlit("\n");
        assert(seq!['\n'] =~= "\n"@);
        assert(all.subrange(ls@.len() as int, ls@.len() as int) =~= Seq::<Seq<char>>::empty());
        assert(texts(out@) + Seq::<Seq<char>>::empty() =~= texts(out@));
        assert(texts(out@).subrange(0, out@.len() as int) =~= texts(out@));
    }
    join_chars(&out, 0, '\n')
}

/// The message a model returned, cleaned up; an empty result is a
/// retryable error.
pub fn sanitize_provider_commit_message(message: &str) -> (r: CommandResult<String>)
    ensures
        r is Ok <==> sanitized(message@).len() > 0,
        r matches Ok(s) ==> s@ == sanitized(message@),
        r matches Err(e) ==> crate::error::retryable_is(
            e,
            "git_commit_message_empty"@,
            "The selected model returned an empty commit message."@,
        ),
{
    let a = strip_markdown_fence(message);
    let b = strip_label_prefix(a.as_str());
    let c = strip_wrapping_quotes(b.as_str());
    let d = collapse_excess_blank_lines(c.as_str());
    let text = trim_string(d.as_str());
    if text.unicode_len() == 0 {
        return Err(
            CommandError::retryable(
                "git_commit_message_empty",
                "The selected model returned an empty commit message.",
            ),
        );
    }
    Ok(text)
}

} // verus!

verus! {

// --------------------------------------------------------- staged file paths

/// A requested path, trimmed and with `\` turned into `/`.
pub open spec fn normalized_path(p: Seq<char>) -> Seq<char> {
    trim(p).map_values(|c: char| if c == '\\' { '/' } else { c })
}

/// The requested paths, normalized, without blanks or repeats, in order.
pub open spec fn normalized_paths(ps: Seq<Seq<char>>) -> Seq<Seq<char>>
    decreases ps.len(),
{
    if ps.len() == 0 {
        seq![]
    } else {
        let r = normalized_paths(ps.drop_last());
        let p = normalized_path(ps.last());
        if p.len() == 0 || r.contains(p) {
            r
        } else {
            r.push(p)
        }
    }
}

fn normalize_path(p: &str) -> (s: String)
    ensures
        s@ == normalized_path(p@),
{
    let t = trim_string(p);
    let v = chars_of(t.as_str());
    let mut out: Vec<char> = Vec::new();
    let mut i: usize = 0;
    while i < v.len()
        invariant
            i <= v.len(),
            out@ == v@.subrange(0, i as int).map_values(|c: char| if c == '\\' { '/' } else { c }),
        decreases v.len() - i,
    {
        let c = v[i];
        out.push(if c == '\\' { '/' } else { c });
        i = i + 1;
        assert(out@ =~= v@.subrange(0, i as int).map_values(|c: char| if c == '\\' { '/' } else { c }));
    }
    assert(v@.subrange(0, v@.len() as int) =~= v@);
    string_of(&out)
}

pub fn normalized_requested_paths(paths: Vec<String>) -> (r: Vec<String>)
    ensures
        crate::sorting::string_views(r@) == normalized_paths(crate::sorting::string_views(paths@)),
{
    let ghost all = crate::sorting::string_views(paths@);
    let mut out: Vec<String> = Vec::new();
    let mut i: usize = 0;
    while i < paths.len()
        invariant
            i <= paths.len(),
            all == crate::sorting::string_views(paths@),
            crate::sorting::string_views(out@) == normalized_paths(all.subrange(0, i as int)),
        decreases paths.len() - i,
    {
        proof {
            assert(all.subrange(0, i + 1).drop_last() =~= all.subrange(0, i as int));
        }
        let p = normalize_path(paths[i].as_str());
        let mut seen = false;
        let mut k: usize = 0;
        while k < out.len()
            invariant
                k <= out.len(),
                !seen ==> forall|j: int| 0 <= j < k ==> (#[trigger] crate::sorting::string_views(out@)[j]) != p@,
                seen ==> crate::sorting::string_views(out@).contains(p@),
            decreases out.len() - k,
        {
            if str_eq(out[k].as_str(), p.as_str()) {
                assert(crate::sorting::string_views(out@)[k as int] == p@);
                seen = true;
            }
            k = k + 1;
        }
        if p.unicode_len() > 0 && !seen {
            let ghost before = out@;
            out.push(p);
            assert(crate::sorting::string_views(out@) =~= crate::sorting::string_views(before).push(p@));
        }
        i = i + 1;
    }
    assert(all.subrange(0, paths@.len() as int) =~= all);
    out
}

/// Whether `p` names file `f`: its display path, its shown path, or its old
/// or new path.
pub open spec fn is_alias(f: RepositoryDiffFileDto, p: Seq<char>) -> bool {
    ||| p == f.display_path@
    ||| p == display_path(f)
    ||| (f.old_path matches Some(o) && p == o@)
    ||| (f.new_path matches Some(n) && p == n@)
}

/// The paths a diff of `f` asks git for: its non-empty old and new paths,
/// else its display path, sorted and distinct.
pub open spec fn pathspecs(f: RepositoryDiffFileDto) -> Seq<Seq<char>> {
    let old = non_empty_part(f.old_path);
    let new = non_empty_part(f.new_path);
    if old.len() + new.len() == 0 {
        seq![f.display_path@]
    } else {
        crate::sorting::sorted_set(old + new)
    }
}

/// A path given and non-empty, as a one-element sequence.
pub open spec fn non_empty_part(p: Option<String>) -> Seq<Seq<char>> {
    match p {
        Some(o) => if o@.len() > 0 {
            seq![o@]
        } else {
            seq![]
        },
        None => seq![],
    }
}

/// The first file that `requested` names, by index.
pub open spec fn first_named(files: Seq<RepositoryDiffFileDto>, requested: Seq<char>) -> Option<int> {
    if exists|i: int| 0 <= i < files.len() && is_alias(files[i], requested) {
        Some(choose|i: int| 0 <= i < files.len() && is_alias(files[i], requested) && forall|j: int|
            0 <= j < i ==> !is_alias(#[trigger] files[j], requested))
    } else {
        None
    }
}

fn is_alias_exec(f: &RepositoryDiffFileDto, p: &str) -> (r: bool)
    ensures
        r == is_alias(*f, p@),
{
    if str_eq(p, f.display_path.as_str()) {
        return true;
    }
    let shown = file_display_path(f);
    if str_eq(p, shown.as_str()) {
        return true;
    }
    if let Some(o) = &f.old_path {
        if str_eq(p, o.as_str()) {
            return true;
        }
    }
    if let Some(n) = &f.new_path {
        if str_eq(p, n.as_str()) {
            return true;
        }
    }
    false
}

fn file_pathspecs(f: &RepositoryDiffFileDto) -> (r: Vec<String>)
    ensures
        crate::sorting::string_views(r@) == pathspecs(*f),
{
    let mut items: Vec<String> = Vec::new();
    if let Some(o) = &f.old_path {
        if o.unicode_len() > 0 {
            items.push(own(o.as_str()));
        }
    }
    if let Some(n) = &f.new_path {
        if n.unicode_len() > 0 {
            items.push(own(n.as_str()));
        }
    }
    if items.len() == 0 {
        let mut v: Vec<String> = Vec::new();
        v.push(own(f.display_path.as_str()));
        assert(crate::sorting::string_views(v@) =~= seq![f.display_path@]);
        return v;
    }
    assert(crate::sorting::string_views(items@) =~= non_empty_part(f.old_path) + non_empty_part(f.new_path));
    crate::sorting::sorted_set_of(items)
}

/// The shown path and pathspecs of the first staged file that
/// `requested_path` names, if any.
pub fn staged_file_pathspecs_for_request(files: &[RepositoryDiffFileDto], requested_path: &str) -> (r:
    Option<(String, Vec<String>)>)
    ensures
        match (r, first_named(files@, requested_path@)) {
            (Some((label, specs)), Some(i)) => label@ == display_path(files@[i])
                && crate::sorting::string_views(specs@) == pathspecs(files@[i]),
            (None, None) => true,
            _ => false,
        },
{
    let mut i: usize = 0;
    while i < files.len()
        invariant
            i <= files.len(),
            forall|j: int| 0 <= j < i ==> !is_alias(#[trigger] files@[j], requested_path@),
        decreases files.len() - i,
    {
        if is_alias_exec(&files[i], requested_path) {
            proof {
                let c = choose|k: int| 0 <= k < files@.len() && is_alias(files@[k], requested_path@)
                    && forall|j: int| 0 <= j < k ==> !is_alias(#[trigger] files@[j], requested_path@);
                assert(0 <= i < files@.len() && is_alias(files@[i as int], requested_path@));
                if c < i {
                } else if c > i {
                    assert(!is_alias(files@[i as int], requested_path@));
                }
            }
            return Some((file_display_path(&files[i]), file_pathspecs(&files[i])));
        }
        i = i + 1;
    }
    None
}

/// The shown path of every staged file, in order.
pub fn staged_file_labels(files: &[RepositoryDiffFileDto]) -> (r: Vec<String>)
    ensures
        crate::sorting::string_views(r@) == Seq::new(files@.len(), |i: int| display_path(files@[i])),
{
    let mut out: Vec<String> = Vec::new();
    let mut i: usize = 0;
    while i < files.len()
        invariant
            i <= files.len(),
            crate::sorting::string_views(out@) == Seq::new(i as nat, |k: int| display_path(files@[k])),
        decreases files.len() - i,
    {
        let ghost before = out@;
        let label = file_display_path(&files[i]);
        out.push(label);
        proof {
            assert(crate::sorting::string_views(before).len() == before.len());
            assert(out@ == before.push(label));
            assert forall|k: int| 0 <= k < i implies crate::sorting::string_views(out@)[k] == display_path(files@[k]) by {
                assert(out@[k] == before[k]);
                assert(crate::sorting::string_views(before)[k] == display_path(files@[k]));
            }
        }
        assert(crate::sorting::string_views(out@) =~= Seq::new((i + 1) as nat, |k: int| display_path(files@[k])));
        i = i + 1;
    }
    out
}

/// A trimmed text, or `None` where nothing is left.
pub open spec fn normalized_optional(v: Option<String>) -> Option<Seq<char>> {
    match v {
        Some(t) => if trim(t@).len() > 0 {
            Some(trim(t@))
        } else {
            None
        },
        None => None,
    }
}

pub fn normalize_optional_text(value: Option<String>) -> (r: Option<String>)
    ensures
        crate::text::owned_text(r) == normalized_optional(value),
{
    match value {
        Some(text) => {
            let t = trim_string(text.as_str());
            if t.unicode_len() > 0 {
                Some(t)
            } else {
                None
            }
        },
        None => None,
    }
}

} // verus!

verus! {

// -------------------------------------------------------------- tool budgets

/// What a commit-message tool call does.
#[derive(Debug, Clone, Copy, PartialEq, Eq, Structural)]
pub enum ToolStep {
    /// The tool-call budget is spent; the call is answered with a failure.
    BudgetExhausted,
    ListStagedFiles,
    ReadStagedDiff,
    /// A tool name the conversation does not offer.
    Unknown,
}

/// How a `read_staged_diff` request is answered.
#[derive(Debug, Clone)]
pub enum DiffReadPlan {
    NoPaths,
    TooManyPaths { requested: usize },
    UnknownPaths { unknown: Vec<String>, known: Vec<String> },
    /// The diff byte budget is spent.
    BudgetExhausted { requested: Vec<String> },
    /// Read the diff of `pathspecs`, at most `max_patch_bytes` of it.
    Read { requested: Vec<String>, pathspecs: Vec<String>, max_patch_bytes: usize },
}

/// The budgets of one commit-message conversation's git tools.
pub struct CommitMessageToolContext {
    pub project_id: String,
    pub staged_files: Vec<RepositoryDiffFileDto>,
    pub tool_calls_used: usize,
    pub diff_read_calls_used: usize,
    pub diff_bytes_sent: usize,
    pub diff_truncated: bool,
}

pub open spec fn saturating_sub(a: int, b: int) -> int {
    if a > b {
        a - b
    } else {
        0
    }
}

impl CommitMessageToolContext {
    pub fn new(project_id: &str, staged_files: Vec<RepositoryDiffFileDto>) -> (c: Self)
        ensures
            c.project_id@ == project_id@,
            c.staged_files@ == staged_files@,
            c.tool_calls_used == 0,
            c.diff_read_calls_used == 0,
            c.diff_bytes_sent == 0,
            !c.diff_truncated,
    {
        CommitMessageToolContext {
            project_id: own(project_id),
            staged_files,
            tool_calls_used: 0,
            diff_read_calls_used: 0,
            diff_bytes_sent: 0,
            diff_truncated: false,
        }
    }

    pub fn remaining_tool_calls(&self) -> (n: usize)
        ensures
            n == saturating_sub(COMMIT_MESSAGE_MAX_TOOL_CALLS as int, self.tool_calls_used as int),
    {
        if self.tool_calls_used < COMMIT_MESSAGE_MAX_TOOL_CALLS {
            COMMIT_MESSAGE_MAX_TOOL_CALLS - self.tool_calls_used
        } else {
            0
        }
    }

    pub fn remaining_diff_bytes(&self) -> (n: usize)
        ensures
            n == saturating_sub(COMMIT_MESSAGE_MAX_DIFF_BYTES_TOTAL as int, self.diff_bytes_sent as int),
    {
        if self.diff_bytes_sent < COMMIT_MESSAGE_MAX_DIFF_BYTES_TOTAL {
            COMMIT_MESSAGE_MAX_DIFF_BYTES_TOTAL - self.diff_bytes_sent
        } else {
            0
        }
    }

    /// Counts a tool call against the budget, unless it is spent, and says
    /// what the call does.
    pub fn begin_tool_call(&mut self, tool_name: &str) -> (step: ToolStep)
        ensures
            old(self).tool_calls_used >= COMMIT_MESSAGE_MAX_TOOL_CALLS ==> step == ToolStep::BudgetExhausted
                && final(self).tool_calls_used == old(self).tool_calls_used,
            old(self).tool_calls_used < COMMIT_MESSAGE_MAX_TOOL_CALLS ==> {
                &&& final(self).tool_calls_used == old(self).tool_calls_used + 1
                &&& step == (if tool_name@ == "list_staged_files"@ {
                    ToolStep::ListStagedFiles
                } else if tool_name@ == "read_staged_diff"@ {
                    ToolStep::ReadStagedDiff
                } else {
                    ToolStep::Unknown
                })
            },
            final(self).project_id == old(self).project_id,
            final(self).staged_files == old(self).staged_files,
            final(self).diff_read_calls_used == old(self).diff_read_calls_used,
            final(self).diff_bytes_sent == old(self).diff_bytes_sent,
            final(self).diff_truncated == old(self).diff_truncated,
    {
        if self.tool_calls_used >= COMMIT_MESSAGE_MAX_TOOL_CALLS {
            return ToolStep::BudgetExhausted;
        }
        self.tool_calls_used = self.tool_calls_used + 1;
        if str_eq(tool_name, "list_staged_files") {
            ToolStep::ListStagedFiles
        } else if str_eq(tool_name, "read_staged_diff") {
            ToolStep::ReadStagedDiff
        } else {
            ToolStep::Unknown
        }
    }

    /// Whether a model that answers before reading any diff is asked to
    /// read one first; it is asked once.
    pub fn should_request_diff_read(&self, already_requested: bool) -> (r: bool)
        ensures
            r == (self.diff_read_calls_used == 0 && self.tool_calls_used < COMMIT_MESSAGE_MAX_TOOL_CALLS
                && !already_requested),
    {
        self.diff_read_calls_used == 0 && self.remaining_tool_calls() > 0 && !already_requested
    }

    /// Counts a diff read that sent `patch_len` bytes.
    pub fn record_staged_diff_read(&mut self, patch_len: usize, truncated: bool)
        requires
            old(self).diff_bytes_sent + patch_len <= usize::MAX,
            old(self).diff_read_calls_used < usize::MAX,
        ensures
            final(self).diff_bytes_sent == if old(self).diff_bytes_sent + patch_len
                > COMMIT_MESSAGE_MAX_DIFF_BYTES_TOTAL {
                COMMIT_MESSAGE_MAX_DIFF_BYTES_TOTAL as int
            } else {
                old(self).diff_bytes_sent + patch_len
            },
            final(self).diff_read_calls_used == old(self).diff_read_calls_used + 1,
            final(self).diff_truncated == (old(self).diff_truncated || truncated),
            final(self).tool_calls_used == old(self).tool_calls_used,
            final(self).project_id == old(self).project_id,
            final(self).staged_files == old(self).staged_files,
    {
        let sent = self.diff_bytes_sent + patch_len;
        self.diff_bytes_sent = if sent > COMMIT_MESSAGE_MAX_DIFF_BYTES_TOTAL {
            COMMIT_MESSAGE_MAX_DIFF_BYTES_TOTAL
        } else {
            sent
        };
        self.diff_read_calls_used = self.diff_read_calls_used + 1;
        self.diff_truncated = self.diff_truncated || truncated;
    }
}

} // verus!

verus! {

/// For each requested path in order: the shown path and pathspecs of the
/// file it names, or the path itself where it names none.
pub open spec fn selection(files: Seq<RepositoryDiffFileDto>, reqs: Seq<Seq<char>>) -> (
    Seq<Seq<char>>,
    Seq<Seq<char>>,
    Seq<Seq<char>>,
)
    decreases reqs.len(),
{
    if reqs.len() == 0 {
        (seq![], seq![], seq![])
    } else {
        let prev = selection(files, reqs.drop_last());
        match first_named(files, reqs.last()) {
            Some(i) => (prev.0.push(display_path(files[i])), prev.1 + pathspecs(files[i]), prev.2),
            None => (prev.0, prev.1, prev.2.push(reqs.last())),
        }
    }
}


/// Splits the requested paths into the files they name (shown path and
/// pathspecs) and the paths that name no staged file.
fn collect_selection(files: &[RepositoryDiffFileDto], requested: &Vec<String>) -> (r: (Vec<String>, Vec<String>, Vec<String>))
    ensures
    ({
        let sel = selection(files@, crate::sorting::string_views(requested@));
        &&& crate::sorting::string_views(r.0@) == sel.0
        &&& crate::sorting::string_views(r.1@) == sel.1
        &&& crate::sorting::string_views(r.2@) == sel.2
    }),
{
    let ghost req = crate::sorting::string_views(requested@);
    let mut labels: Vec<String> = Vec::new();
    let mut specs: Vec<String> = Vec::new();
    let mut unknown: Vec<String> = Vec::new();
    let mut i: usize = 0;
    while i < requested.len()
        invariant
            i <= requested.len(),
            req == crate::sorting::string_views(requested@),
            ({
                let sel = selection(files@, req.subrange(0, i as int));
                &&& crate::sorting::string_views(labels@) == sel.0
                &&& crate::sorting::string_views(specs@) == sel.1
                &&& crate::sorting::string_views(unknown@) == sel.2
            }),
        decreases requested.len() - i,
    {
        proof {
            assert(req.subrange(0, i + 1).drop_last() =~= req.subrange(0, i as int));
        }
        let ghost l0 = labels@;
        let ghost u0 = unknown@;
        let ghost s0 = specs@;
        match staged_file_pathspecs_for_request(files, requested[i].as_str()) {
            Some((label, mut found)) => {
                let ghost f0 = found@;
                labels.push(label);
                specs.append(&mut found);
                assert(crate::sorting::string_views(labels@) =~= crate::sorting::string_views(l0).push(label@));
                assert(crate::sorting::string_views(specs@) =~= crate::sorting::string_views(s0) + crate::sorting::string_views(f0));
            },
            None => {
                let p = own(requested[i].as_str());
                unknown.push(p);
                assert(crate::sorting::string_views(unknown@) =~= crate::sorting::string_views(u0).push(p@));
            },
        }
        i = i + 1;
    }
    proof {
        assert(req.subrange(0, requested@.len() as int) =~= req);
    }
    (labels, specs, unknown)
}

impl CommitMessageToolContext {
    /// Decides how a `read_staged_diff` request for `paths` is answered;
    /// a request that finds the byte budget spent marks the diff truncated.
    pub fn plan_staged_diff_read(&mut self, paths: Vec<String>) -> (plan: DiffReadPlan)
        ensures
            ({
                let req = normalized_paths(crate::sorting::string_views(paths@));
                let sel = selection(old(self).staged_files@, req);
                let spent = old(self).diff_bytes_sent >= COMMIT_MESSAGE_MAX_DIFF_BYTES_TOTAL;
                &&& (plan is NoPaths) == (req.len() == 0)
                &&& (plan is TooManyPaths) == (req.len() > COMMIT_MESSAGE_MAX_PATHS_PER_DIFF_CALL)
                &&& (plan is UnknownPaths) == (0 < req.len() <= COMMIT_MESSAGE_MAX_PATHS_PER_DIFF_CALL
                    && sel.2.len() > 0)
                &&& (plan is BudgetExhausted) == (0 < req.len() <= COMMIT_MESSAGE_MAX_PATHS_PER_DIFF_CALL
                    && sel.2.len() == 0 && spent)
                &&& plan matches DiffReadPlan::TooManyPaths { requested } ==> requested == req.len()
                &&& plan matches DiffReadPlan::UnknownPaths { unknown, known } ==> {
                    &&& crate::sorting::string_views(unknown@) == sel.2
                    &&& crate::sorting::string_views(known@) == Seq::new(
                        old(self).staged_files@.len(),
                        |i: int| display_path(old(self).staged_files@[i]),
                    )
                }
                &&& plan matches DiffReadPlan::BudgetExhausted { requested } ==> crate::sorting::string_views(requested@) == sel.0
                &&& plan matches DiffReadPlan::Read { requested, pathspecs, max_patch_bytes } ==> {
                    &&& crate::sorting::string_views(requested@) == sel.0
                    &&& crate::sorting::string_views(pathspecs@) == crate::sorting::sorted_set(sel.1)
                    &&& max_patch_bytes == if saturating_sub(COMMIT_MESSAGE_MAX_DIFF_BYTES_TOTAL as int, old(self).diff_bytes_sent as int)
                        < COMMIT_MESSAGE_MAX_DIFF_BYTES_PER_CALL {
                        saturating_sub(COMMIT_MESSAGE_MAX_DIFF_BYTES_TOTAL as int, old(self).diff_bytes_sent as int)
                    } else {
                        COMMIT_MESSAGE_MAX_DIFF_BYTES_PER_CALL as int
                    }
                }
                &&& final(self).diff_truncated == (old(self).diff_truncated || plan is BudgetExhausted)
            }),
            final(self).project_id == old(self).project_id,
            final(self).staged_files == old(self).staged_files,
            final(self).tool_calls_used == old(self).tool_calls_used,
            final(self).diff_read_calls_used == old(self).diff_read_calls_used,
            final(self).diff_bytes_sent == old(self).diff_bytes_sent,
    {
        let requested = normalized_requested_paths(paths);
        let ghost req = crate::sorting::string_views(requested@);
        if requested.len() == 0 {
            return DiffReadPlan::NoPaths;
        }
        if requested.len() > COMMIT_MESSAGE_MAX_PATHS_PER_DIFF_CALL {
            return DiffReadPlan::TooManyPaths { requested: requested.len() };
        }
        let (labels, specs, unknown) = collect_selection(self.staged_files.as_slice(), &requested);
        if unknown.len() > 0 {
            let known = staged_file_labels(self.staged_files.as_slice());
            return DiffReadPlan::UnknownPaths { unknown, known };
        }
        let remaining = self.remaining_diff_bytes();
        if remaining == 0 {
            self.diff_truncated = true;
            return DiffReadPlan::BudgetExhausted { requested: labels };
        }
        let max_patch_bytes = if remaining < COMMIT_MESSAGE_MAX_DIFF_BYTES_PER_CALL {
            remaining
        } else {
            COMMIT_MESSAGE_MAX_DIFF_BYTES_PER_CALL
        };
        let pathspecs = crate::sorting::sorted_set_of(specs);
        DiffReadPlan::Read { requested: labels, pathspecs, max_patch_bytes }
    }
}

/// The error of a conversation that ran out of provider turns.
pub fn turn_limit_error() -> (e: CommandError)
    ensures
        crate::error::retryable_is(
            e,
            "git_commit_message_provider_turn_limit_exceeded"@,
            "Xero stopped commit-message generation after "@ + decimal(COMMIT_MESSAGE_MAX_PROVIDER_TURNS as nat)
                + " provider turns to prevent an infinite git-tool loop."@,
        ),
{
    let turns = decimal_string(COMMIT_MESSAGE_MAX_PROVIDER_TURNS as u64);
    let m = cat3(
        "Xero stopped commit-message generation after ",
        turns.as_str(),
        " provider turns to prevent an infinite git-tool loop.",
    );
    CommandError::retryable("git_commit_message_provider_turn_limit_exceeded", m.as_str())
}

/// The error of a request with nothing staged.
pub fn no_staged_changes_error() -> (e: CommandError)
    ensures
        crate::error::user_fixable_is(
            e,
            "git_commit_message_no_staged_changes"@,
            "Stage changes before generating a commit message."@,
        ),
{
    CommandError::user_fixable(
        "git_commit_message_no_staged_changes",
        "Stage changes before generating a commit message.",
    )
}

} // verus!

verus! {

/// A leading label is cut, in any ASCII case, together with the blanks
/// around it: where the left-trimmed message reads `commit message:`,
/// `commit:` or `message:`, what is left is the rest after that label,
/// left-trimmed; any other message is only left-trimmed.
pub proof fn law_label_is_cut_from_the_message(m: Seq<char>)
    ensures
        ({
            let t = ltrim(m);
            let l = lower(t);
            &&& starts_with(l, "commit message:"@) ==> strip_label(m) == ltrim(t.subrange(15, t.len() as int))
            &&& starts_with(l, "commit:"@) ==> strip_label(m) == ltrim(t.subrange(7, t.len() as int))
            &&& starts_with(l, "message:"@) ==> strip_label(m) == ltrim(t.subrange(8, t.len() as int))
            &&& !starts_with(l, "commit message:"@) && !starts_with(l, "commit:"@) && !starts_with(l, "message:"@)
                ==> strip_label(m) == t
        }),
{
    reveal_strlit("commit message:");
    reveal_strlit("commit:");
    reveal_strlit("message:");
    let t = ltrim(m);
    let l = lower(t);
    if starts_with(l, "commit:"@) {
        assert(l[6] == "commit:"@[6]);
        assert(!starts_with(l, "commit message:"@)) by {
            if starts_with(l, "commit message:"@) {
                assert(l[6] == "commit message:"@[6]);
            }
        }
    }
    if starts_with(l, "message:"@) {
        assert(l[0] == "message:"@[0]);
        assert(!starts_with(l, "commit message:"@)) by {
            if starts_with(l, "commit message:"@) {
                assert(l[0] == "commit message:"@[0]);
            }
        }
        assert(!starts_with(l, "commit:"@)) by {
            if starts_with(l, "commit:"@) {
                assert(l[0] == "commit:"@[0]);
            }
        }
    }
}

/// A message that opens with a `commit:` label, in any ASCII case, and has
/// no blanks around it is sanitized to the cleaned-up text after the label:
/// the label never reaches the commit.
pub proof fn law_commit_label_is_dropped(m: Seq<char>)
    requires
        ltrim(m) == m,
        rtrim(m) == m,
        starts_with(lower(m), "commit:"@),
    ensures
        sanitized(m) == trim(collapse_blank_lines(strip_quotes(ltrim(m.subrange(7, m.len() as int))))),
{
    reveal_strlit("commit:");
    reveal_strlit("```");
    assert(lower(m).subrange(0, 7) == "commit:"@);
    assert("commit:"@[0] == 'c');
    assert(lower(m).subrange(0, 7)[0] == lower(m)[0]);
    assert(lower(m)[0] == 'c');
    assert(m[0] == 'c' || m[0] == 'C');
    assert(trim(m) == m);
    assert(!starts_with(m, fence())) by {
        if starts_with(m, fence()) {
            assert(m[0] == fence()[0]);
        }
    }
    assert(strip_fence(m) == m);
    law_label_is_cut_from_the_message(m);
}

} // verus!
