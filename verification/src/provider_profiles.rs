//! Provider profiles: which readiness proof a provider relies on, whether
//! an OpenAI-compatible endpoint is local, how a profile upsert and an
//! active-profile switch change the stored snapshot, and what the provider
//! credential table mirrors of it.

use vstd::prelude::*;
use crate::error::{CommandError, CommandResult, Fault, fault, first, uf};
use crate::text::{
    blank, chars_of, lower, lower_chars, normalized_text, owned_text, own, str_eq, string_of, trim, trim_string,
};

verus! {

pub const OPENAI_CODEX_PROVIDER_ID: &'static str = "openai_codex";
pub const OLLAMA_PROVIDER_ID: &'static str = "ollama";
pub const BEDROCK_PROVIDER_ID: &'static str = "bedrock";
pub const VERTEX_PROVIDER_ID: &'static str = "vertex";
pub const OPENAI_API_PROVIDER_ID: &'static str = "openai_api";

/// The host `url` finds in `s`, where `s` parses as a URL with a host.
pub uninterp spec fn url_host(s: Seq<char>) -> Option<Seq<char>>;

/// `url::Url::parse(s)` then `host_str()`; the result is the named host of
/// `s`.
#[verifier::external_body]
fn parse_url_host(s: &str) -> (r: Option<String>)
    ensures
        crate::text::owned_text(r) == url_host(s@),
{
    url::Url::parse(s).ok().and_then(|u| u.host_str().map(|h| h.to_owned()))
}

/// A base URL whose host is this machine: `localhost`, `127.0.0.1` or
/// `::1`, in any ASCII case.
pub open spec fn local_base_url(base_url: Seq<char>) -> bool {
    match url_host(base_url) {
        Some(h) => lower(h) == "localhost"@ || lower(h) == "127.0.0.1"@ || lower(h) == "::1"@,
        None => false,
    }
}

pub fn is_local_openai_base_url(base_url: &str) -> (r: bool)
    ensures
        r == local_base_url(base_url@),
{
    match parse_url_host(base_url) {
        Some(h) => {
            let v = chars_of(h.as_str());
            let l = string_of(&lower_chars(&v));
            str_eq(l.as_str(), "localhost") || str_eq(l.as_str(), "127.0.0.1") || str_eq(l.as_str(), "::1")
        },
        None => false,
    }
}

/// Providers proven ready by a local endpoint: Ollama, and the OpenAI API
/// pointed at this machine.
pub open spec fn uses_local_readiness(provider_id: Seq<char>, base_url: Option<Seq<char>>) -> bool {
    provider_id == "ollama"@ || (provider_id == "openai_api"@ && match base_url {
        Some(u) => local_base_url(u),
        None => false,
    })
}

pub fn provider_uses_local_readiness(provider_id: &str, base_url: Option<&str>) -> (r: bool)
    ensures
        r == uses_local_readiness(provider_id@, crate::text::borrowed_text(base_url)),
{
    str_eq(provider_id, OLLAMA_PROVIDER_ID) || (str_eq(provider_id, OPENAI_API_PROVIDER_ID) && match base_url {
        Some(u) => is_local_openai_base_url(u),
        None => false,
    })
}

/// Providers proven ready by ambient cloud credentials.
pub open spec fn uses_ambient_readiness(provider_id: Seq<char>) -> bool {
    provider_id == "bedrock"@ || provider_id == "vertex"@
}

pub fn provider_uses_ambient_readiness(provider_id: &str) -> (r: bool)
    ensures
        r == uses_ambient_readiness(provider_id@),
{
    str_eq(provider_id, BEDROCK_PROVIDER_ID) || str_eq(provider_id, VERTEX_PROVIDER_ID)
}

/// Providers whose profiles may store an API key.
pub open spec fn supports_api_key(provider_id: Seq<char>) -> bool {
    !(provider_id == "openai_codex"@ || provider_id == "ollama"@ || provider_id == "bedrock"@
        || provider_id == "vertex"@)
}

pub fn provider_supports_api_key(provider_id: &str) -> (r: bool)
    ensures
        r == supports_api_key(provider_id@),
{
    !(str_eq(provider_id, OPENAI_CODEX_PROVIDER_ID) || str_eq(provider_id, OLLAMA_PROVIDER_ID)
        || str_eq(provider_id, BEDROCK_PROVIDER_ID) || str_eq(provider_id, VERTEX_PROVIDER_ID))
}

} // verus!

verus! {

// ------------------------------------------------------------ snapshot

/// How a profile proves it can reach its provider, and since when.
#[derive(Debug, Clone)]
pub enum ProviderProfileCredentialLink {
    ApiKey { updated_at: String },
    Local { updated_at: String },
    Ambient { updated_at: String },
    OpenAiCodex { updated_at: String },
}

#[derive(Debug, Clone)]
pub struct ProviderProfileRecord {
    pub profile_id: String,
    pub provider_id: String,
    pub runtime_kind: String,
    pub label: String,
    pub model_id: String,
    pub preset_id: Option<String>,
    pub base_url: Option<String>,
    pub api_version: Option<String>,
    pub region: Option<String>,
    pub project_id: Option<String>,
    pub credential_link: Option<ProviderProfileCredentialLink>,
    pub migrated_from_legacy: bool,
    pub migrated_at: Option<String>,
    pub updated_at: String,
}

/// The API key stored for a profile.
#[derive(Debug, Clone)]
pub struct ProviderApiKeyCredentialEntry {
    pub profile_id: String,
    pub api_key: String,
    pub updated_at: String,
}

#[derive(Debug, Clone)]
pub struct ProviderProfilesMetadata {
    pub active_profile_id: String,
    pub profiles: Vec<ProviderProfileRecord>,
    pub updated_at: String,
}

#[derive(Debug, Clone)]
pub struct ProviderProfilesCredentials {
    pub api_keys: Vec<ProviderApiKeyCredentialEntry>,
}

/// The stored provider profiles and their secrets.
#[derive(Debug, Clone)]
pub struct ProviderProfilesSnapshot {
    pub metadata: ProviderProfilesMetadata,
    pub credentials: ProviderProfilesCredentials,
}

/// A request to create or update a profile.
#[derive(Debug, Clone)]
pub struct UpsertProviderProfileRequestDto {
    pub profile_id: String,
    pub provider_id: String,
    pub runtime_kind: String,
    pub label: String,
    pub model_id: String,
    pub preset_id: Option<String>,
    pub base_url: Option<String>,
    pub api_version: Option<String>,
    pub region: Option<String>,
    pub project_id: Option<String>,
    pub api_key: Option<String>,
    pub activate: bool,
}

/// The provider and runtime kind a request resolves to.
#[derive(Debug, Clone)]
pub struct ResolvedProviderIdentity {
    pub provider_id: String,
    pub runtime_kind: String,
}

/// A link's kind (`0` API key, `1` local, `2` ambient, `3` OpenAI Codex)
/// and timestamp.
pub open spec fn link_view(l: ProviderProfileCredentialLink) -> (nat, Seq<char>) {
    match l {
        ProviderProfileCredentialLink::ApiKey { updated_at } => (0, updated_at@),
        ProviderProfileCredentialLink::Local { updated_at } => (1, updated_at@),
        ProviderProfileCredentialLink::Ambient { updated_at } => (2, updated_at@),
        ProviderProfileCredentialLink::OpenAiCodex { updated_at } => (3, updated_at@),
    }
}

pub open spec fn opt_link_view(l: Option<ProviderProfileCredentialLink>) -> Option<(nat, Seq<char>)> {
    match l {
        Some(x) => Some(link_view(x)),
        None => None,
    }
}

/// Two profiles hold the same values.
pub open spec fn same_profile(a: ProviderProfileRecord, b: ProviderProfileRecord) -> bool {
    &&& a.profile_id@ == b.profile_id@
    &&& a.provider_id@ == b.provider_id@
    &&& a.runtime_kind@ == b.runtime_kind@
    &&& a.label@ == b.label@
    &&& a.model_id@ == b.model_id@
    &&& owned_text(a.preset_id) == owned_text(b.preset_id)
    &&& owned_text(a.base_url) == owned_text(b.base_url)
    &&& owned_text(a.api_version) == owned_text(b.api_version)
    &&& owned_text(a.region) == owned_text(b.region)
    &&& owned_text(a.project_id) == owned_text(b.project_id)
    &&& opt_link_view(a.credential_link) == opt_link_view(b.credential_link)
    &&& a.migrated_from_legacy == b.migrated_from_legacy
    &&& owned_text(a.migrated_at) == owned_text(b.migrated_at)
    &&& a.updated_at@ == b.updated_at@
}

pub open spec fn same_profiles(a: Seq<ProviderProfileRecord>, b: Seq<ProviderProfileRecord>) -> bool {
    a.len() == b.len() && forall|i: int| 0 <= i < a.len() ==> same_profile(#[trigger] a[i], b[i])
}

pub open spec fn same_entry(a: ProviderApiKeyCredentialEntry, b: ProviderApiKeyCredentialEntry) -> bool {
    a.profile_id@ == b.profile_id@ && a.api_key@ == b.api_key@ && a.updated_at@ == b.updated_at@
}

pub open spec fn same_entries(a: Seq<ProviderApiKeyCredentialEntry>, b: Seq<ProviderApiKeyCredentialEntry>) -> bool {
    a.len() == b.len() && forall|i: int| 0 <= i < a.len() ==> same_entry(#[trigger] a[i], b[i])
}

/// Two snapshots hold the same values.
pub open spec fn same_snapshot(a: ProviderProfilesSnapshot, b: ProviderProfilesSnapshot) -> bool {
    &&& a.metadata.active_profile_id@ == b.metadata.active_profile_id@
    &&& same_profiles(a.metadata.profiles@, b.metadata.profiles@)
    &&& a.metadata.updated_at@ == b.metadata.updated_at@
    &&& same_entries(a.credentials.api_keys@, b.credentials.api_keys@)
}

/// The position of the first profile with id `id`.
pub open spec fn profile_position(ps: Seq<ProviderProfileRecord>, id: Seq<char>) -> Option<int> {
    if exists|i: int| 0 <= i < ps.len() && #[trigger] ps[i].profile_id@ == id {
        Some(choose|i: int| 0 <= i < ps.len() && #[trigger] ps[i].profile_id@ == id
            && forall|j: int| 0 <= j < i ==> #[trigger] ps[j].profile_id@ != id)
    } else {
        None
    }
}

/// The position of the first key entry of profile `id`.
pub open spec fn entry_position(es: Seq<ProviderApiKeyCredentialEntry>, id: Seq<char>) -> Option<int> {
    if exists|i: int| 0 <= i < es.len() && #[trigger] es[i].profile_id@ == id {
        Some(choose|i: int| 0 <= i < es.len() && #[trigger] es[i].profile_id@ == id
            && forall|j: int| 0 <= j < i ==> #[trigger] es[j].profile_id@ != id)
    } else {
        None
    }
}

} // verus!

verus! {

fn opt_same(a: &Option<String>, b: &Option<String>) -> (r: bool)
    ensures
        r == (owned_text(*a) == owned_text(*b)),
{
    match (a, b) {
        (Some(x), Some(y)) => str_eq(x.as_str(), y.as_str()),
        (None, None) => true,
        _ => false,
    }
}

fn link_parts(l: &ProviderProfileCredentialLink) -> (r: (u8, &str))
    ensures
        link_view(*l) == (r.0 as nat, r.1@),
{
    match l {
        ProviderProfileCredentialLink::ApiKey { updated_at } => (0, updated_at.as_str()),
        ProviderProfileCredentialLink::Local { updated_at } => (1, updated_at.as_str()),
        ProviderProfileCredentialLink::Ambient { updated_at } => (2, updated_at.as_str()),
        ProviderProfileCredentialLink::OpenAiCodex { updated_at } => (3, updated_at.as_str()),
    }
}

fn opt_link_same(a: &Option<ProviderProfileCredentialLink>, b: &Option<ProviderProfileCredentialLink>) -> (r: bool)
    ensures
        r == (opt_link_view(*a) == opt_link_view(*b)),
{
    match (a, b) {
        (Some(x), Some(y)) => {
            let (kx, tx) = link_parts(x);
            let (ky, ty) = link_parts(y);
            kx == ky && str_eq(tx, ty)
        },
        (None, None) => true,
        _ => false,
    }
}

fn clone_link(l: &ProviderProfileCredentialLink) -> (r: ProviderProfileCredentialLink)
    ensures
        link_view(r) == link_view(*l),
{
    match l {
        ProviderProfileCredentialLink::ApiKey { updated_at } => ProviderProfileCredentialLink::ApiKey {
            updated_at: own(updated_at.as_str()),
        },
        ProviderProfileCredentialLink::Local { updated_at } => ProviderProfileCredentialLink::Local {
            updated_at: own(updated_at.as_str()),
        },
        ProviderProfileCredentialLink::Ambient { updated_at } => ProviderProfileCredentialLink::Ambient {
            updated_at: own(updated_at.as_str()),
        },
        ProviderProfileCredentialLink::OpenAiCodex { updated_at } => ProviderProfileCredentialLink::OpenAiCodex {
            updated_at: own(updated_at.as_str()),
        },
    }
}

fn clone_opt_link(l: &Option<ProviderProfileCredentialLink>) -> (r: Option<ProviderProfileCredentialLink>)
    ensures
        opt_link_view(r) == opt_link_view(*l),
{
    match l {
        Some(x) => Some(clone_link(x)),
        None => None,
    }
}

fn profile_same(a: &ProviderProfileRecord, b: &ProviderProfileRecord) -> (r: bool)
    ensures
        r == same_profile(*a, *b),
{
    str_eq(a.profile_id.as_str(), b.profile_id.as_str()) && str_eq(a.provider_id.as_str(), b.provider_id.as_str())
        && str_eq(a.runtime_kind.as_str(), b.runtime_kind.as_str()) && str_eq(a.label.as_str(), b.label.as_str())
        && str_eq(a.model_id.as_str(), b.model_id.as_str()) && opt_same(&a.preset_id, &b.preset_id) && opt_same(
        &a.base_url,
        &b.base_url,
    ) && opt_same(&a.api_version, &b.api_version) && opt_same(&a.region, &b.region) && opt_same(
        &a.project_id,
        &b.project_id,
    ) && opt_link_same(&a.credential_link, &b.credential_link) && a.migrated_from_legacy == b.migrated_from_legacy
        && opt_same(&a.migrated_at, &b.migrated_at) && str_eq(a.updated_at.as_str(), b.updated_at.as_str())
}

fn clone_profile(a: &ProviderProfileRecord) -> (r: ProviderProfileRecord)
    ensures
        same_profile(r, *a),
{
    ProviderProfileRecord {
        profile_id: own(a.profile_id.as_str()),
        provider_id: own(a.provider_id.as_str()),
        runtime_kind: own(a.runtime_kind.as_str()),
        label: own(a.label.as_str()),
        model_id: own(a.model_id.as_str()),
        preset_id: crate::text::clone_text_opt(&a.preset_id),
        base_url: crate::text::clone_text_opt(&a.base_url),
        api_version: crate::text::clone_text_opt(&a.api_version),
        region: crate::text::clone_text_opt(&a.region),
        project_id: crate::text::clone_text_opt(&a.project_id),
        credential_link: clone_opt_link(&a.credential_link),
        migrated_from_legacy: a.migrated_from_legacy,
        migrated_at: crate::text::clone_text_opt(&a.migrated_at),
        updated_at: own(a.updated_at.as_str()),
    }
}

fn entry_same(a: &ProviderApiKeyCredentialEntry, b: &ProviderApiKeyCredentialEntry) -> (r: bool)
    ensures
        r == same_entry(*a, *b),
{
    str_eq(a.profile_id.as_str(), b.profile_id.as_str()) && str_eq(a.api_key.as_str(), b.api_key.as_str())
        && str_eq(a.updated_at.as_str(), b.updated_at.as_str())
}

fn clone_entry(a: &ProviderApiKeyCredentialEntry) -> (r: ProviderApiKeyCredentialEntry)
    ensures
        same_entry(r, *a),
{
    ProviderApiKeyCredentialEntry {
        profile_id: own(a.profile_id.as_str()),
        api_key: own(a.api_key.as_str()),
        updated_at: own(a.updated_at.as_str()),
    }
}

fn profiles_same(a: &Vec<ProviderProfileRecord>, b: &Vec<ProviderProfileRecord>) -> (r: bool)
    ensures
        r == same_profiles(a@, b@),
{
    if a.len() != b.len() {
        return false;
    }
    let mut i: usize = 0;
    while i < a.len()
        invariant
            a.len() == b.len(),
            i <= a.len(),
            forall|j: int| 0 <= j < i ==> same_profile(#[trigger] a@[j], b@[j]),
        decreases a.len() - i,
    {
        if !profile_same(&a[i], &b[i]) {
            return false;
        }
        i = i + 1;
    }
    true
}

fn entries_same(a: &Vec<ProviderApiKeyCredentialEntry>, b: &Vec<ProviderApiKeyCredentialEntry>) -> (r: bool)
    ensures
        r == same_entries(a@, b@),
{
    if a.len() != b.len() {
        return false;
    }
    let mut i: usize = 0;
    while i < a.len()
        invariant
            a.len() == b.len(),
            i <= a.len(),
            forall|j: int| 0 <= j < i ==> same_entry(#[trigger] a@[j], b@[j]),
        decreases a.len() - i,
    {
        if !entry_same(&a[i], &b[i]) {
            return false;
        }
        i = i + 1;
    }
    true
}

fn clone_profiles(a: &Vec<ProviderProfileRecord>) -> (r: Vec<ProviderProfileRecord>)
    ensures
        same_profiles(r@, a@),
{
    let mut r: Vec<ProviderProfileRecord> = Vec::new();
    let mut i: usize = 0;
    while i < a.len()
        invariant
            i <= a.len(),
            r@.len() == i,
            forall|j: int| 0 <= j < i ==> same_profile(#[trigger] r@[j], a@[j]),
        decreases a.len() - i,
    {
        r.push(clone_profile(&a[i]));
        i = i + 1;
    }
    r
}

fn clone_entries(a: &Vec<ProviderApiKeyCredentialEntry>) -> (r: Vec<ProviderApiKeyCredentialEntry>)
    ensures
        same_entries(r@, a@),
{
    let mut r: Vec<ProviderApiKeyCredentialEntry> = Vec::new();
    let mut i: usize = 0;
    while i < a.len()
        invariant
            i <= a.len(),
            r@.len() == i,
            forall|j: int| 0 <= j < i ==> same_entry(#[trigger] r@[j], a@[j]),
        decreases a.len() - i,
    {
        r.push(clone_entry(&a[i]));
        i = i + 1;
    }
    r
}

/// A snapshot holding the same values as `s`.
pub fn clone_snapshot(s: &ProviderProfilesSnapshot) -> (r: ProviderProfilesSnapshot)
    ensures
        same_snapshot(r, *s),
{
    ProviderProfilesSnapshot {
        metadata: ProviderProfilesMetadata {
            active_profile_id: own(s.metadata.active_profile_id.as_str()),
            profiles: clone_profiles(&s.metadata.profiles),
            updated_at: own(s.metadata.updated_at.as_str()),
        },
        credentials: ProviderProfilesCredentials { api_keys: clone_entries(&s.credentials.api_keys) },
    }
}

fn find_profile(ps: &Vec<ProviderProfileRecord>, id: &str) -> (r: Option<usize>)
    ensures
        match r {
            Some(i) => i < ps@.len() && profile_position(ps@, id@) == Some(i as int),
            None => profile_position(ps@, id@) is None,
        },
{
    let mut i: usize = 0;
    while i < ps.len()
        invariant
            i <= ps.len(),
            forall|j: int| 0 <= j < i ==> #[trigger] ps@[j].profile_id@ != id@,
        decreases ps.len() - i,
    {
        if str_eq(ps[i].profile_id.as_str(), id) {
            proof {
                let k = profile_position(ps@, id@)->0;
                assert(ps@[i as int].profile_id@ == id@);
                assert(profile_position(ps@, id@) == Some(i as int));
            }
            return Some(i);
        }
        i = i + 1;
    }
    None
}

fn find_entry(es: &Vec<ProviderApiKeyCredentialEntry>, id: &str) -> (r: Option<usize>)
    ensures
        match r {
            Some(i) => i < es@.len() && entry_position(es@, id@) == Some(i as int),
            None => entry_position(es@, id@) is None,
        },
{
    let mut i: usize = 0;
    while i < es.len()
        invariant
            i <= es.len(),
            forall|j: int| 0 <= j < i ==> #[trigger] es@[j].profile_id@ != id@,
        decreases es.len() - i,
    {
        if str_eq(es[i].profile_id.as_str(), id) {
            proof {
                let k = entry_position(es@, id@)->0;
                assert(es@[i as int].profile_id@ == id@);
                assert(entry_position(es@, id@) == Some(i as int));
            }
            return Some(i);
        }
        i = i + 1;
    }
    None
}

} // verus!

verus! {

/// Makes profile `profile_id` (trimmed) the active one. Switching to the
/// profile already active returns the snapshot unchanged; otherwise the
/// snapshot is stamped with `now`.
pub fn apply_active_profile_switch_at(current: &ProviderProfilesSnapshot, profile_id: &str, now: &str) -> (r:
    CommandResult<ProviderProfilesSnapshot>)
    ensures
        ({
            let id = trim(profile_id@);
            &&& blank(profile_id@) ==> (r matches Err(e) && crate::error::user_fixable_is(
                e,
                "invalid_request"@,
                crate::error::invalid_request_message("profileId"@),
            ))
            &&& !blank(profile_id@) && profile_position(current.metadata.profiles@, id) is None ==> (r matches Err(e)
                && crate::error::user_fixable_is(
                e,
                "provider_profile_not_found"@,
                "Cadence could not find provider profile `"@ + id + "`."@,
            ))
            &&& !blank(profile_id@) && profile_position(current.metadata.profiles@, id) is Some ==> (r matches Ok(s)
                && if current.metadata.active_profile_id@ == id {
                same_snapshot(s, *current)
            } else {
                &&& s.metadata.active_profile_id@ == id
                &&& same_profiles(s.metadata.profiles@, current.metadata.profiles@)
                &&& same_entries(s.credentials.api_keys@, current.credentials.api_keys@)
                &&& s.metadata.updated_at@ == now@
            })
        }),
{
    let id = trim_string(profile_id);
    if id.unicode_len() == 0 {
        return Err(CommandError::invalid_request("profileId"));
    }
    if find_profile(&current.metadata.profiles, id.as_str()).is_none() {
        let m = crate::text::cat3("Cadence could not find provider profile `", id.as_str(), "`.");
        return Err(CommandError::user_fixable("provider_profile_not_found", m.as_str()));
    }
    let mut next = clone_snapshot(current);
    if str_eq(current.metadata.active_profile_id.as_str(), id.as_str()) {
        return Ok(next);
    }
    next.metadata.active_profile_id = id;
    next.metadata.updated_at = own(now);
    Ok(next)
}

/// [`apply_active_profile_switch_at`] stamped with the current time.
pub fn apply_active_profile_switch(current: &ProviderProfilesSnapshot, profile_id: &str) -> (r: CommandResult<
    ProviderProfilesSnapshot,
>)
    ensures
        ({
            let id = trim(profile_id@);
            &&& blank(profile_id@) ==> (r matches Err(e) && crate::error::user_fixable_is(
                e,
                "invalid_request"@,
                crate::error::invalid_request_message("profileId"@),
            ))
            &&& !blank(profile_id@) && profile_position(current.metadata.profiles@, id) is None ==> (r matches Err(e)
                && crate::error::user_fixable_is(
                e,
                "provider_profile_not_found"@,
                "Cadence could not find provider profile `"@ + id + "`."@,
            ))
            &&& !blank(profile_id@) && profile_position(current.metadata.profiles@, id) is Some ==> (r matches Ok(s)
                && if current.metadata.active_profile_id@ == id {
                same_snapshot(s, *current)
            } else {
                &&& s.metadata.active_profile_id@ == id
                &&& same_profiles(s.metadata.profiles@, current.metadata.profiles@)
                &&& same_entries(s.credentials.api_keys@, current.credentials.api_keys@)
            })
        }),
{
    let now = crate::clock::now_timestamp();
    apply_active_profile_switch_at(current, profile_id, now.as_str())
}

} // verus!

verus! {

// ------------------------------------------------------------ upsert: credentials

/// An API key view: profile, key, timestamp.
pub type KeyView = (Seq<char>, Seq<char>, Seq<char>);

pub open spec fn entry_view(e: ProviderApiKeyCredentialEntry) -> KeyView {
    (e.profile_id@, e.api_key@, e.updated_at@)
}

/// The request carries an API key that is not blank.
pub open spec fn key_given(r: UpsertProviderProfileRequestDto) -> bool {
    r.api_key matches Some(k) && !blank(k@)
}

/// The request clears the API key by sending a blank one.
pub open spec fn key_cleared(r: UpsertProviderProfileRequestDto) -> bool {
    r.api_key matches Some(k) && blank(k@)
}

/// The stored key entry of profile `id`, if any.
pub open spec fn current_secret(cur: ProviderProfilesSnapshot, id: Seq<char>) -> Option<KeyView> {
    match entry_position(cur.credentials.api_keys@, id) {
        Some(i) => Some(entry_view(cur.credentials.api_keys@[i])),
        None => None,
    }
}

/// The stored profile `id`, if any.
pub open spec fn current_profile(cur: ProviderProfilesSnapshot, id: Seq<char>) -> Option<ProviderProfileRecord> {
    match profile_position(cur.metadata.profiles@, id) {
        Some(i) => Some(cur.metadata.profiles@[i]),
        None => None,
    }
}

/// The key a profile stores after the request: none for providers without
/// API keys or when the request clears it; the requested key (keeping the
/// stored timestamp where the key is unchanged); else the stored one.
pub open spec fn next_secret(
    cur: ProviderProfilesSnapshot,
    req: UpsertProviderProfileRequestDto,
    provider_id: Seq<char>,
    now: Seq<char>,
) -> Option<KeyView> {
    let id = trim(req.profile_id@);
    let stored = current_secret(cur, id);
    if !supports_api_key(provider_id) || provider_id == "openai_codex"@ || key_cleared(req) {
        None
    } else if key_given(req) {
        let k = trim(req.api_key->0@);
        Some((id, k, match stored {
            Some(s) => if s.1 == k {
                s.2
            } else {
                now
            },
            None => now,
        }))
    } else if current_profile(cur, id) matches Some(p) && p.provider_id@ != "openai_codex"@ {
        stored
    } else {
        None
    }
}

/// The key entries after storing `e`: replacing the entry of its profile,
/// or added last.
pub open spec fn keys_with(es: Seq<ProviderApiKeyCredentialEntry>, e: KeyView, out: Seq<ProviderApiKeyCredentialEntry>) -> bool {
    match entry_position(es, e.0) {
        Some(i) => out.len() == es.len() && entry_view(out[i]) == e && forall|j: int|
            0 <= j < es.len() && j != i ==> same_entry(#[trigger] out[j], es[j]),
        None => out.len() == es.len() + 1 && entry_view(out[es.len() as int]) == e && forall|j: int|
            0 <= j < es.len() ==> same_entry(#[trigger] out[j], es[j]),
    }
}

/// The key entries of profiles other than `id`, in order.
pub open spec fn keys_without(es: Seq<ProviderApiKeyCredentialEntry>, id: Seq<char>) -> Seq<ProviderApiKeyCredentialEntry>
    decreases es.len(),
{
    if es.len() == 0 {
        seq![]
    } else if es.last().profile_id@ == id {
        keys_without(es.drop_last(), id)
    } else {
        keys_without(es.drop_last(), id).push(es.last())
    }
}

fn secret_for(
    cur: &ProviderProfilesSnapshot,
    req: &UpsertProviderProfileRequestDto,
    profile_id: &str,
    provider_id: &str,
    now: &str,
) -> (r: Option<ProviderApiKeyCredentialEntry>)
    requires
        profile_id@ == trim(req.profile_id@),
    ensures
        match next_secret(*cur, *req, provider_id@, now@) {
            Some(v) => r matches Some(e) && entry_view(e) == v,
            None => r is None,
        },
{
    let stored = find_entry(&cur.credentials.api_keys, profile_id);
    let cleared = match &req.api_key {
        Some(k) => crate::text::is_blank(k.as_str()),
        None => false,
    };
    if !provider_supports_api_key(provider_id) || str_eq(provider_id, OPENAI_CODEX_PROVIDER_ID) || cleared {
        return None;
    }
    match &req.api_key {
        Some(k) => {
            if !crate::text::is_blank(k.as_str()) {
                let key = trim_string(k.as_str());
                let updated_at = match stored {
                    Some(i) => {
                        let s = &cur.credentials.api_keys[i];
                        if str_eq(s.api_key.as_str(), key.as_str()) {
                            own(s.updated_at.as_str())
                        } else {
                            own(now)
                        }
                    },
                    None => own(now),
                };
                return Some(ProviderApiKeyCredentialEntry { profile_id: own(profile_id), api_key: key, updated_at });
            }
        },
        None => {},
    }
    match find_profile(&cur.metadata.profiles, profile_id) {
        Some(p) => {
            if str_eq(cur.metadata.profiles[p].provider_id.as_str(), OPENAI_CODEX_PROVIDER_ID) {
                return None;
            }
            match stored {
                Some(i) => Some(clone_entry(&cur.credentials.api_keys[i])),
                None => None,
            }
        },
        None => None,
    }
}

fn upsert_api_key_secret(keys: &mut Vec<ProviderApiKeyCredentialEntry>, next: ProviderApiKeyCredentialEntry)
    ensures
        keys_with(old(keys)@, entry_view(next), final(keys)@),
{
    match find_entry(keys, next.profile_id.as_str()) {
        Some(i) => {
            keys.set(i, next);
        },
        None => {
            keys.push(next);
        },
    }
}

fn remove_api_key_secret(keys: &Vec<ProviderApiKeyCredentialEntry>, id: &str) -> (r: Vec<ProviderApiKeyCredentialEntry>)
    ensures
        same_entries(r@, keys_without(keys@, id@)),
{
    let mut out: Vec<ProviderApiKeyCredentialEntry> = Vec::new();
    let mut i: usize = 0;
    while i < keys.len()
        invariant
            i <= keys.len(),
            same_entries(out@, keys_without(keys@.subrange(0, i as int), id@)),
        decreases keys.len() - i,
    {
        proof {
            assert(keys@.subrange(0, i + 1).drop_last() =~= keys@.subrange(0, i as int));
        }
        let ghost before = out@;
        let ghost kw = keys_without(keys@.subrange(0, i as int), id@);
        if !str_eq(keys[i].profile_id.as_str(), id) {
            out.push(clone_entry(&keys[i]));
            proof {
                assert(keys_without(keys@.subrange(0, i + 1), id@) == kw.push(keys@[i as int]));
                assert forall|j: int| 0 <= j < out@.len() implies same_entry(#[trigger] out@[j], kw.push(keys@[i as int])[j]) by {
                    if j < before.len() {
                        assert(out@[j] == before[j]);
                    }
                }
            }
        } else {
            assert(keys_without(keys@.subrange(0, i + 1), id@) == kw);
        }
        i = i + 1;
    }
    assert(keys@.subrange(0, keys@.len() as int) =~= keys@);
    out
}

} // verus!

verus! {

// ------------------------------------------------------------ upsert: credential link

pub type LinkView = (nat, Seq<char>);

/// A profile of the OpenAI Codex provider linked to its OAuth session.
pub open spec fn codex_linked(p: ProviderProfileRecord) -> bool {
    p.provider_id@ == "openai_codex"@ && p.credential_link matches Some(ProviderProfileCredentialLink::OpenAiCodex {
        ..
    })
}

/// The OAuth link of the first Codex profile that has one.
pub open spec fn codex_auth_link(ps: Seq<ProviderProfileRecord>) -> Option<LinkView> {
    if exists|i: int| 0 <= i < ps.len() && codex_linked(#[trigger] ps[i]) {
        let i = choose|i: int| 0 <= i < ps.len() && codex_linked(#[trigger] ps[i]) && forall|j: int|
            0 <= j < i ==> !codex_linked(#[trigger] ps[j]);
        opt_link_view(ps[i].credential_link)
    } else {
        None
    }
}

/// The timestamp of `p`'s link where it is of kind `kind`.
pub open spec fn kept_stamp(p: Option<ProviderProfileRecord>, kind: nat) -> Option<Seq<char>> {
    match p {
        Some(r) => match opt_link_view(r.credential_link) {
            Some(l) => if l.0 == kind {
                Some(l.1)
            } else {
                None
            },
            None => None,
        },
        None => None,
    }
}

/// The credential link a profile has after the request: Codex keeps its
/// OAuth link (or takes the one another Codex profile has); local and
/// ambient providers are linked as such (keeping the stored timestamp);
/// others are linked by their API key, if they store one.
pub open spec fn next_link(
    provider_id: Seq<char>,
    cur: Option<ProviderProfileRecord>,
    secret: Option<KeyView>,
    base_url: Option<Seq<char>>,
    codex_link: Option<LinkView>,
    now: Seq<char>,
) -> Option<LinkView> {
    if provider_id == "openai_codex"@ {
        match kept_stamp(cur, 3) {
            Some(t) => Some((3nat, t)),
            None => codex_link,
        }
    } else if uses_local_readiness(provider_id, base_url) && secret is None {
        Some((1nat, match kept_stamp(cur, 1) {
            Some(t) => t,
            None => now,
        }))
    } else if uses_ambient_readiness(provider_id) {
        Some((2nat, match kept_stamp(cur, 2) {
            Some(t) => t,
            None => now,
        }))
    } else {
        match secret {
            Some(e) => Some((0nat, e.2)),
            None => None,
        }
    }
}

fn find_codex_auth_link(ps: &Vec<ProviderProfileRecord>) -> (r: Option<ProviderProfileCredentialLink>)
    ensures
        opt_link_view(r) == codex_auth_link(ps@),
{
    let mut i: usize = 0;
    while i < ps.len()
        invariant
            i <= ps.len(),
            forall|j: int| 0 <= j < i ==> !codex_linked(#[trigger] ps@[j]),
        decreases ps.len() - i,
    {
        let p = &ps[i];
        let linked = str_eq(p.provider_id.as_str(), OPENAI_CODEX_PROVIDER_ID) && match &p.credential_link {
            Some(ProviderProfileCredentialLink::OpenAiCodex { .. }) => true,
            _ => false,
        };
        if linked {
            proof {
                assert(codex_linked(ps@[i as int]));
                let k = choose|k: int| 0 <= k < ps@.len() && codex_linked(#[trigger] ps@[k]) && forall|j: int|
                    0 <= j < k ==> !codex_linked(#[trigger] ps@[j]);
                if k < i {
                } else if k > i {
                    assert(!codex_linked(ps@[i as int]));
                }
            }
            return clone_opt_link(&p.credential_link);
        }
        i = i + 1;
    }
    None
}

fn kept_link_stamp(p: Option<&ProviderProfileRecord>, kind: u8) -> (r: Option<String>)
    ensures
        owned_text(r) == kept_stamp(
            match p {
                Some(x) => Some(*x),
                None => None,
            },
            kind as nat,
        ),
{
    match p {
        Some(x) => match &x.credential_link {
            Some(l) => {
                let (k, t) = link_parts(l);
                if k == kind {
                    Some(own(t))
                } else {
                    None
                }
            },
            None => None,
        },
        None => None,
    }
}

fn next_provider_profile_credential_link(
    provider_id: &str,
    current: Option<&ProviderProfileRecord>,
    secret: Option<&ProviderApiKeyCredentialEntry>,
    base_url: Option<&str>,
    codex_link: &Option<ProviderProfileCredentialLink>,
    now: &str,
) -> (r: Option<ProviderProfileCredentialLink>)
    ensures
        opt_link_view(r) == next_link(
            provider_id@,
            match current {
                Some(x) => Some(*x),
                None => None,
            },
            match secret {
                Some(e) => Some(entry_view(*e)),
                None => None,
            },
            crate::text::borrowed_text(base_url),
            opt_link_view(*codex_link),
            now@,
        ),
{
    if str_eq(provider_id, OPENAI_CODEX_PROVIDER_ID) {
        return match kept_link_stamp(current, 3) {
            Some(t) => Some(ProviderProfileCredentialLink::OpenAiCodex { updated_at: t }),
            None => clone_opt_link(codex_link),
        };
    }
    if provider_uses_local_readiness(provider_id, base_url) && secret.is_none() {
        let t = match kept_link_stamp(current, 1) {
            Some(t) => t,
            None => own(now),
        };
        return Some(ProviderProfileCredentialLink::Local { updated_at: t });
    }
    if provider_uses_ambient_readiness(provider_id) {
        let t = match kept_link_stamp(current, 2) {
            Some(t) => t,
            None => own(now),
        };
        return Some(ProviderProfileCredentialLink::Ambient { updated_at: t });
    }
    match secret {
        Some(e) => Some(ProviderProfileCredentialLink::ApiKey { updated_at: own(e.updated_at.as_str()) }),
        None => None,
    }
}

} // verus!

verus! {

// ------------------------------------------------------------ upsert

pub open spec fn invalid_field(value: Seq<char>, field: Seq<char>) -> Option<Fault> {
    if blank(value) {
        uf("invalid_request"@, crate::error::invalid_request_message(field))
    } else {
        None
    }
}

/// The position of the first profile of provider `provider_id`.
pub open spec fn provider_position(ps: Seq<ProviderProfileRecord>, provider_id: Seq<char>) -> Option<int> {
    if exists|i: int| 0 <= i < ps.len() && #[trigger] ps[i].provider_id@ == provider_id {
        Some(choose|i: int| 0 <= i < ps.len() && #[trigger] ps[i].provider_id@ == provider_id
            && forall|j: int| 0 <= j < i ==> #[trigger] ps[j].provider_id@ != provider_id)
    } else {
        None
    }
}

pub open spec fn api_key_refused() -> Option<Fault> {
    uf("invalid_request"@, crate::error::invalid_request_message("apiKey"@))
}

/// Why an upsert is refused, checked in order: blank required fields, an
/// unresolvable provider, a second profile for one provider, the Codex
/// settings, and API keys where none may be set or cleared.
pub open spec fn upsert_fault(
    cur: ProviderProfilesSnapshot,
    req: UpsertProviderProfileRequestDto,
    provider: Result<ResolvedProviderIdentity, String>,
    codex_settings: CommandResult<()>,
) -> Option<Fault> {
    first(invalid_field(req.profile_id@, "profileId"@),
    first(invalid_field(req.provider_id@, "providerId"@),
    first(invalid_field(req.runtime_kind@, "runtimeKind"@),
    first(invalid_field(req.label@, "label"@),
    first(invalid_field(req.model_id@, "modelId"@),
    match provider {
        Err(m) => uf("provider_profiles_invalid"@, m@),
        Ok(p) => {
            let id = trim(req.profile_id@);
            let prov = p.provider_id@;
            let ps = cur.metadata.profiles@;
            first(
                match provider_position(ps, prov) {
                    Some(i) => if ps[i].profile_id@ != id {
                        uf(
                            "provider_profile_already_exists"@,
                            "Cadence already has a `"@ + prov + "` provider profile (`"@ + ps[i].profile_id@
                                + "`); only one profile per provider is supported. Update the existing profile instead of creating `"@
                                + id + "`."@,
                        )
                    } else {
                        None
                    },
                    None => None,
                },
            first(
                if prov == "openai_codex"@ {
                    first(fault(codex_settings), if key_given(req) { api_key_refused() } else { None })
                } else {
                    None
                },
            first(
                if !supports_api_key(prov) && key_given(req) { api_key_refused() } else { None },
                if key_cleared(req) && profile_position(ps, id) is None && prov != "openai_codex"@ {
                    api_key_refused()
                } else {
                    None
                },
            )))
        },
    })))))
}

/// The profile a successful upsert stores.
pub open spec fn upserted_profile_is(
    rec: ProviderProfileRecord,
    cur: ProviderProfilesSnapshot,
    req: UpsertProviderProfileRequestDto,
    p: ResolvedProviderIdentity,
    codex_model_id: Seq<char>,
    now: Seq<char>,
) -> bool {
    let id = trim(req.profile_id@);
    let old = current_profile(cur, id);
    let model = if p.provider_id@ == "openai_codex"@ { codex_model_id } else { trim(req.model_id@) };
    let link = next_link(
        p.provider_id@,
        old,
        next_secret(cur, req, p.provider_id@, now),
        owned_text(req.base_url),
        codex_auth_link(cur.metadata.profiles@),
        now,
    );
    let preset = normalized_text(owned_text(req.preset_id));
    let base_url = normalized_text(owned_text(req.base_url));
    let api_version = normalized_text(owned_text(req.api_version));
    let region = normalized_text(owned_text(req.region));
    let project = normalized_text(owned_text(req.project_id));
    &&& rec.profile_id@ == id
    &&& rec.provider_id@ == p.provider_id@
    &&& rec.runtime_kind@ == p.runtime_kind@
    &&& rec.label@ == trim(req.label@)
    &&& rec.model_id@ == model
    &&& owned_text(rec.preset_id) == preset
    &&& owned_text(rec.base_url) == base_url
    &&& owned_text(rec.api_version) == api_version
    &&& owned_text(rec.region) == region
    &&& owned_text(rec.project_id) == project
    &&& opt_link_view(rec.credential_link) == link
    &&& rec.migrated_from_legacy == (old matches Some(o) && o.migrated_from_legacy)
    &&& owned_text(rec.migrated_at) == match old {
        Some(o) => owned_text(o.migrated_at),
        None => None,
    }
    &&& rec.updated_at@ == match old {
        Some(o) => if o.provider_id@ == p.provider_id@ && o.runtime_kind@ == p.runtime_kind@ && o.label@ == trim(
            req.label@,
        ) && o.model_id@ == model && owned_text(o.preset_id) == preset && owned_text(o.base_url) == base_url
            && owned_text(o.api_version) == api_version && owned_text(o.region) == region && owned_text(o.project_id)
            == project && opt_link_view(o.credential_link) == link {
            o.updated_at@
        } else {
            now
        },
        None => now,
    }
}

/// The profiles after storing the one with id `id`: replacing the stored
/// one in place, or added last.
pub open spec fn profiles_with(
    ps: Seq<ProviderProfileRecord>,
    id: Seq<char>,
    out: Seq<ProviderProfileRecord>,
    placed: spec_fn(ProviderProfileRecord) -> bool,
) -> bool {
    match profile_position(ps, id) {
        Some(i) => out.len() == ps.len() && placed(out[i]) && forall|j: int|
            0 <= j < ps.len() && j != i ==> same_profile(#[trigger] out[j], ps[j]),
        None => out.len() == ps.len() + 1 && placed(out[ps.len() as int]) && forall|j: int|
            0 <= j < ps.len() ==> same_profile(#[trigger] out[j], ps[j]),
    }
}

fn upsert_profile(profiles: &mut Vec<ProviderProfileRecord>, next: ProviderProfileRecord)
    ensures
        profiles_with(old(profiles)@, next.profile_id@, final(profiles)@, |r: ProviderProfileRecord| same_profile(r, next)),
{
    let ghost n = next;
    match find_profile(profiles, next.profile_id.as_str()) {
        Some(i) => {
            profiles.set(i, next);
            assert(same_profile(profiles@[i as int], n));
        },
        None => {
            profiles.push(next);
            assert(same_profile(profiles@[old(profiles)@.len() as int], n));
        },
    }
}

} // verus!

verus! {

/// What a successful upsert stores: the request's profile in place of the
/// stored one (or added), its key stored or dropped, the profile made
/// active where asked; the snapshot is stamped with `now` only where
/// something changed.
pub open spec fn upsert_result_is(
    out: ProviderProfilesSnapshot,
    cur: ProviderProfilesSnapshot,
    req: UpsertProviderProfileRequestDto,
    p: ResolvedProviderIdentity,
    codex_model_id: Seq<char>,
    now: Seq<char>,
) -> bool {
    let id = trim(req.profile_id@);
    &&& profiles_with(
        cur.metadata.profiles@,
        id,
        out.metadata.profiles@,
        |r: ProviderProfileRecord| upserted_profile_is(r, cur, req, p, codex_model_id, now),
    )
    &&& match next_secret(cur, req, p.provider_id@, now) {
        Some(e) => keys_with(cur.credentials.api_keys@, e, out.credentials.api_keys@),
        None => same_entries(out.credentials.api_keys@, keys_without(cur.credentials.api_keys@, id)),
    }
    &&& out.metadata.active_profile_id@ == if req.activate { id } else { cur.metadata.active_profile_id@ }
    &&& out.metadata.updated_at@ == if same_profiles(out.metadata.profiles@, cur.metadata.profiles@) && same_entries(
        out.credentials.api_keys@,
        cur.credentials.api_keys@,
    ) && out.metadata.active_profile_id@ == cur.metadata.active_profile_id@ {
        cur.metadata.updated_at@
    } else {
        now
    }
}

fn require_field(value: &str, field: &str) -> (r: CommandResult<()>)
    ensures
        fault(r) == invalid_field(value@, field@),
{
    if crate::text::is_blank(value) {
        return Err(CommandError::invalid_request(field));
    }
    Ok(())
}

fn find_provider_profile(ps: &Vec<ProviderProfileRecord>, provider_id: &str) -> (r: Option<usize>)
    ensures
        match r {
            Some(i) => i < ps@.len() && provider_position(ps@, provider_id@) == Some(i as int),
            None => provider_position(ps@, provider_id@) is None,
        },
{
    let mut i: usize = 0;
    while i < ps.len()
        invariant
            i <= ps.len(),
            forall|j: int| 0 <= j < i ==> #[trigger] ps@[j].provider_id@ != provider_id@,
        decreases ps.len() - i,
    {
        if str_eq(ps[i].provider_id.as_str(), provider_id) {
            proof {
                let k = provider_position(ps@, provider_id@)->0;
                assert(ps@[i as int].provider_id@ == provider_id@);
                assert(provider_position(ps@, provider_id@) == Some(i as int));
            }
            return Some(i);
        }
        i = i + 1;
    }
    None
}

fn check_upsert_request(
    current: &ProviderProfilesSnapshot,
    request: &UpsertProviderProfileRequestDto,
    provider: &Result<ResolvedProviderIdentity, String>,
    codex_settings: CommandResult<()>,
) -> (r: CommandResult<()>)
    ensures
        fault(r) == upsert_fault(*current, *request, *provider, codex_settings),
{
    if let Err(e) = require_field(request.profile_id.as_str(), "profileId") {
        return Err(e);
    }
    if let Err(e) = require_field(request.provider_id.as_str(), "providerId") {
        return Err(e);
    }
    if let Err(e) = require_field(request.runtime_kind.as_str(), "runtimeKind") {
        return Err(e);
    }
    if let Err(e) = require_field(request.label.as_str(), "label") {
        return Err(e);
    }
    if let Err(e) = require_field(request.model_id.as_str(), "modelId") {
        return Err(e);
    }
    let p = match provider {
        Err(m) => {
            return Err(CommandError::user_fixable("provider_profiles_invalid", m.as_str()));
        },
        Ok(p) => p,
    };
    let profile_id = trim_string(request.profile_id.as_str());
    let profiles = &current.metadata.profiles;
    if let Some(i) = find_provider_profile(profiles, p.provider_id.as_str()) {
        if !str_eq(profiles[i].profile_id.as_str(), profile_id.as_str()) {
            let head = crate::text::cat5(
                "Cadence already has a `",
                p.provider_id.as_str(),
                "` provider profile (`",
                profiles[i].profile_id.as_str(),
                "`); only one profile per provider is supported. Update the existing profile instead of creating `",
            );
            let m = crate::text::cat3(head.as_str(), profile_id.as_str(), "`.");
            return Err(CommandError::user_fixable("provider_profile_already_exists", m.as_str()));
        }
    }
    let given = match &request.api_key {
        Some(k) => !crate::text::is_blank(k.as_str()),
        None => false,
    };
    let cleared = match &request.api_key {
        Some(k) => crate::text::is_blank(k.as_str()),
        None => false,
    };
    let codex = str_eq(p.provider_id.as_str(), OPENAI_CODEX_PROVIDER_ID);
    if codex {
        if let Err(e) = codex_settings {
            return Err(e);
        }
        if given {
            return Err(CommandError::invalid_request("apiKey"));
        }
    }
    if !provider_supports_api_key(p.provider_id.as_str()) && given {
        return Err(CommandError::invalid_request("apiKey"));
    }
    if cleared && find_profile(profiles, profile_id.as_str()).is_none() && !codex {
        return Err(CommandError::invalid_request("apiKey"));
    }
    Ok(())
}

/// The profile the request stores, and the key entry it keeps.
fn upserted_profile(
    current: &ProviderProfilesSnapshot,
    request: &UpsertProviderProfileRequestDto,
    p: &ResolvedProviderIdentity,
    codex_model_id: &str,
    now: &str,
) -> (r: (ProviderProfileRecord, Option<ProviderApiKeyCredentialEntry>))
    ensures
        upserted_profile_is(r.0, *current, *request, *p, codex_model_id@, now@),
        match next_secret(*current, *request, p.provider_id@, now@) {
            Some(v) => r.1 matches Some(e) && entry_view(e) == v,
            None => r.1 is None,
        },
{
    let profile_id = trim_string(request.profile_id.as_str());
    let label = trim_string(request.label.as_str());
    let profiles = &current.metadata.profiles;
    let codex = str_eq(p.provider_id.as_str(), OPENAI_CODEX_PROVIDER_ID);
    let existing = find_profile(profiles, profile_id.as_str());
    let model_id = if codex {
        own(codex_model_id)
    } else {
        trim_string(request.model_id.as_str())
    };
    let secret = secret_for(current, request, profile_id.as_str(), p.provider_id.as_str(), now);
    let codex_link = find_codex_auth_link(profiles);
    let old_profile: Option<&ProviderProfileRecord> = match existing {
        Some(i) => Some(&profiles[i]),
        None => None,
    };
    let link = next_provider_profile_credential_link(
        p.provider_id.as_str(),
        old_profile,
        match &secret {
            Some(e) => Some(e),
            None => None,
        },
        crate::text::opt_str(&request.base_url),
        &codex_link,
        now,
    );
    let preset_id = crate::text::trimmed_present(crate::text::opt_str(&request.preset_id));
    let base_url = crate::text::trimmed_present(crate::text::opt_str(&request.base_url));
    let api_version = crate::text::trimmed_present(crate::text::opt_str(&request.api_version));
    let region = crate::text::trimmed_present(crate::text::opt_str(&request.region));
    let project_id = crate::text::trimmed_present(crate::text::opt_str(&request.project_id));
    let (migrated_from_legacy, migrated_at, updated_at) = match old_profile {
        Some(o) => {
            let unchanged = str_eq(o.provider_id.as_str(), p.provider_id.as_str()) && str_eq(
                o.runtime_kind.as_str(),
                p.runtime_kind.as_str(),
            ) && str_eq(o.label.as_str(), label.as_str()) && str_eq(o.model_id.as_str(), model_id.as_str())
                && opt_same(&o.preset_id, &preset_id) && opt_same(&o.base_url, &base_url) && opt_same(
                &o.api_version,
                &api_version,
            ) && opt_same(&o.region, &region) && opt_same(&o.project_id, &project_id) && opt_link_same(
                &o.credential_link,
                &link,
            );
            (
                o.migrated_from_legacy,
                crate::text::clone_text_opt(&o.migrated_at),
                if unchanged {
                    own(o.updated_at.as_str())
                } else {
                    own(now)
                },
            )
        },
        None => (false, None, own(now)),
    };
    let record = ProviderProfileRecord {
        profile_id,
        provider_id: own(p.provider_id.as_str()),
        runtime_kind: own(p.runtime_kind.as_str()),
        label,
        model_id,
        preset_id,
        base_url,
        api_version,
        region,
        project_id,
        credential_link: link,
        migrated_from_legacy,
        migrated_at,
        updated_at,
    };
    (record, secret)
}

/// A profile holding the same values as one the upsert stores is one it
/// stores.
proof fn lemma_upserted_same(
    a: ProviderProfileRecord,
    b: ProviderProfileRecord,
    cur: ProviderProfilesSnapshot,
    req: UpsertProviderProfileRequestDto,
    p: ResolvedProviderIdentity,
    codex_model_id: Seq<char>,
    now: Seq<char>,
)
    requires
        same_profile(a, b),
        upserted_profile_is(b, cur, req, p, codex_model_id, now),
    ensures
        upserted_profile_is(a, cur, req, p, codex_model_id, now),
{
}

proof fn lemma_first_profile_from(ps: Seq<ProviderProfileRecord>, id: Seq<char>, k: int)
    requires
        0 <= k < ps.len(),
        ps[k].profile_id@ == id,
    ensures
        exists|i: int| 0 <= i < ps.len() && #[trigger] ps[i].profile_id@ == id
            && forall|j: int| 0 <= j < i ==> #[trigger] ps[j].profile_id@ != id,
    decreases k,
{
    if exists|j: int| 0 <= j < k && #[trigger] ps[j].profile_id@ == id {
        let j = choose|j: int| 0 <= j < k && #[trigger] ps[j].profile_id@ == id;
        lemma_first_profile_from(ps, id, j);
    }
}

proof fn lemma_profile_position(ps: Seq<ProviderProfileRecord>, id: Seq<char>)
    ensures
        match profile_position(ps, id) {
            Some(i) => 0 <= i < ps.len() && ps[i].profile_id@ == id && forall|j: int|
                0 <= j < i ==> #[trigger] ps[j].profile_id@ != id,
            None => forall|j: int| 0 <= j < ps.len() ==> #[trigger] ps[j].profile_id@ != id,
        },
{
    if exists|i: int| 0 <= i < ps.len() && #[trigger] ps[i].profile_id@ == id {
        let k = choose|i: int| 0 <= i < ps.len() && #[trigger] ps[i].profile_id@ == id;
        lemma_first_profile_from(ps, id, k);
    }
}

proof fn lemma_first_entry_from(es: Seq<ProviderApiKeyCredentialEntry>, id: Seq<char>, k: int)
    requires
        0 <= k < es.len(),
        es[k].profile_id@ == id,
    ensures
        exists|i: int| 0 <= i < es.len() && #[trigger] es[i].profile_id@ == id
            && forall|j: int| 0 <= j < i ==> #[trigger] es[j].profile_id@ != id,
    decreases k,
{
    if exists|j: int| 0 <= j < k && #[trigger] es[j].profile_id@ == id {
        let j = choose|j: int| 0 <= j < k && #[trigger] es[j].profile_id@ == id;
        lemma_first_entry_from(es, id, j);
    }
}

proof fn lemma_entry_position(es: Seq<ProviderApiKeyCredentialEntry>, id: Seq<char>)
    ensures
        match entry_position(es, id) {
            Some(i) => 0 <= i < es.len() && es[i].profile_id@ == id && forall|j: int|
                0 <= j < i ==> #[trigger] es[j].profile_id@ != id,
            None => forall|j: int| 0 <= j < es.len() ==> #[trigger] es[j].profile_id@ != id,
        },
{
    if exists|i: int| 0 <= i < es.len() && #[trigger] es[i].profile_id@ == id {
        let k = choose|i: int| 0 <= i < es.len() && #[trigger] es[i].profile_id@ == id;
        lemma_first_entry_from(es, id, k);
    }
}

/// The stored profiles with `record` in place of the one with its id, or
/// added last.
fn profiles_after(ps: &Vec<ProviderProfileRecord>, record: ProviderProfileRecord) -> (out: Vec<ProviderProfileRecord>)
    ensures
        profiles_with(ps@, record.profile_id@, out@, |r: ProviderProfileRecord| same_profile(r, record)),
{
    let mut next = clone_profiles(ps);
    let ghost cloned = next@;
    let ghost rec = record;
    upsert_profile(&mut next, record);
    proof {
        lemma_profile_position(ps@, rec.profile_id@);
        match profile_position(ps@, rec.profile_id@) {
            Some(i) => {
                assert(profile_position(cloned, rec.profile_id@) == Some(i)) by {
                    lemma_profile_position(cloned, rec.profile_id@);
                    assert(same_profile(cloned[i], ps@[i]));
                    let k = profile_position(cloned, rec.profile_id@)->0;
                    if k < i {
                        assert(same_profile(cloned[k], ps@[k]));
                    } else if k > i {
                    }
                }
                assert forall|j: int| 0 <= j < ps@.len() && j != i implies same_profile(#[trigger] next@[j], ps@[j]) by {
                    assert(same_profile(cloned[j], ps@[j]));
                }
            },
            None => {
                assert(profile_position(cloned, rec.profile_id@) is None) by {
                    lemma_profile_position(cloned, rec.profile_id@);
                    if profile_position(cloned, rec.profile_id@) is Some {
                        let k = profile_position(cloned, rec.profile_id@)->0;
                        assert(same_profile(cloned[k], ps@[k]));
                    }
                }
                assert forall|j: int| 0 <= j < ps@.len() implies same_profile(#[trigger] next@[j], ps@[j]) by {
                    assert(same_profile(cloned[j], ps@[j]));
                }
            },
        }
    }
    next
}

/// The stored key entries with `secret` stored, or, without one, those of
/// profile `id` dropped.
fn keys_after(es: &Vec<ProviderApiKeyCredentialEntry>, secret: Option<ProviderApiKeyCredentialEntry>, id: &str) -> (out:
    Vec<ProviderApiKeyCredentialEntry>)
    ensures
        match secret {
            Some(e) => keys_with(es@, entry_view(e), out@),
            None => same_entries(out@, keys_without(es@, id@)),
        },
{
    match secret {
        Some(e) => {
            let mut next = clone_entries(es);
            let ghost before = next@;
            let ghost ge = e;
            upsert_api_key_secret(&mut next, e);
            proof {
                lemma_entry_position(es@, ge.profile_id@);
                match entry_position(es@, ge.profile_id@) {
                    Some(i) => {
                        assert(entry_position(before, ge.profile_id@) == Some(i)) by {
                            lemma_entry_position(before, ge.profile_id@);
                            assert(same_entry(before[i], es@[i]));
                            let k = entry_position(before, ge.profile_id@)->0;
                            if k < i {
                                assert(same_entry(before[k], es@[k]));
                            } else if k > i {
                            }
                        }
                        assert forall|j: int| 0 <= j < es@.len() && j != i implies same_entry(#[trigger] next@[j], es@[j]) by {
                            assert(same_entry(before[j], es@[j]));
                        }
                        assert(next@.len() == es@.len());
                        assert(entry_view(next@[i]) == entry_view(ge));
                        assert(keys_with(es@, entry_view(ge), next@));
                    },
                    None => {
                        assert(entry_position(before, ge.profile_id@) is None) by {
                            lemma_entry_position(before, ge.profile_id@);
                            if entry_position(before, ge.profile_id@) is Some {
                                let k = entry_position(before, ge.profile_id@)->0;
                                assert(same_entry(before[k], es@[k]));
                            }
                        }
                        assert forall|j: int| 0 <= j < es@.len() implies same_entry(#[trigger] next@[j], es@[j]) by {
                            assert(same_entry(before[j], es@[j]));
                        }
                        assert(next@.len() == es@.len() + 1);
                        assert(entry_view(next@[es@.len() as int]) == entry_view(ge));
                        assert(keys_with(es@, entry_view(ge), next@));
                    },
                }
            }
            next
        },
        None => remove_api_key_secret(es, id),
    }
}

/// Creates or updates a provider profile from `request`, with `provider`
/// the identity its provider and runtime kind resolve to (or why they do
/// not), and, for OpenAI Codex, `codex_settings` the outcome of checking
/// its runtime settings and `codex_model_id` its normalized model id.
pub fn apply_provider_profile_upsert_at(
    current: &ProviderProfilesSnapshot,
    request: &UpsertProviderProfileRequestDto,
    provider: Result<ResolvedProviderIdentity, String>,
    codex_settings: CommandResult<()>,
    codex_model_id: &str,
    now: &str,
) -> (r: CommandResult<ProviderProfilesSnapshot>)
    ensures
        fault(r) == upsert_fault(*current, *request, provider, codex_settings),
        r matches Ok(out) ==> upsert_result_is(out, *current, *request, provider->Ok_0, codex_model_id@, now@),
{
    if let Err(e) = check_upsert_request(current, request, &provider, codex_settings) {
        return Err(e);
    }
    let p = match provider {
        Ok(p) => p,
        Err(_) => {
            return Err(CommandError::user_fixable("provider_profiles_invalid", ""));
        },
    };
    let (record, secret) = upserted_profile(current, request, &p, codex_model_id, now);
    let ghost rec = record;
    let profile_id = own(record.profile_id.as_str());
    let keys = keys_after(&current.credentials.api_keys, secret, profile_id.as_str());
    let profiles = profiles_after(&current.metadata.profiles, record);
    let active_profile_id = if request.activate {
        own(profile_id.as_str())
    } else {
        own(current.metadata.active_profile_id.as_str())
    };
    let unchanged = profiles_same(&profiles, &current.metadata.profiles) && entries_same(
        &keys,
        &current.credentials.api_keys,
    ) && str_eq(active_profile_id.as_str(), current.metadata.active_profile_id.as_str());
    let updated_at = if unchanged {
        own(current.metadata.updated_at.as_str())
    } else {
        own(now)
    };
    let out = ProviderProfilesSnapshot {
        metadata: ProviderProfilesMetadata { active_profile_id, profiles, updated_at },
        credentials: ProviderProfilesCredentials { api_keys: keys },
    };
    proof {
        let ps = current.metadata.profiles@;
        let id = trim(request.profile_id@);
        match profile_position(ps, id) {
            Some(i) => {
                lemma_upserted_same(out.metadata.profiles@[i], rec, *current, *request, p, codex_model_id@, now@);
            },
            None => {
                lemma_upserted_same(out.metadata.profiles@[ps.len() as int], rec, *current, *request, p, codex_model_id@, now@);
            },
        }
    }
    Ok(out)
}

} // verus!

verus! {

/// [`apply_provider_profile_upsert_at`] stamped with the current time.
pub fn apply_provider_profile_upsert(
    current: &ProviderProfilesSnapshot,
    request: &UpsertProviderProfileRequestDto,
    provider: Result<ResolvedProviderIdentity, String>,
    codex_settings: CommandResult<()>,
    codex_model_id: &str,
) -> (r: CommandResult<ProviderProfilesSnapshot>)
    ensures
        fault(r) == upsert_fault(*current, *request, provider, codex_settings),
        r matches Ok(out) ==> exists|now: Seq<char>|
            upsert_result_is(out, *current, *request, provider->Ok_0, codex_model_id@, now),
{
    let now = crate::clock::now_timestamp();
    apply_provider_profile_upsert_at(current, request, provider, codex_settings, codex_model_id, now.as_str())
}

// ------------------------------------------------------------ credential mirror

#[derive(Debug, Clone, Copy, PartialEq, Eq, Structural)]
pub enum ProviderCredentialKind {
    ApiKey,
    Local,
    Ambient,
}

/// The provider credential row a profile's state maps to.
#[derive(Debug, Clone)]
pub struct ProviderCredentialUpsert {
    pub provider_id: String,
    pub kind: ProviderCredentialKind,
    pub api_key: Option<String>,
    pub base_url: Option<String>,
    pub api_version: Option<String>,
    pub region: Option<String>,
    pub project_id: Option<String>,
    pub default_model_id: String,
    pub updated_at: String,
}

/// What the provider credential table needs after a profile upsert.
#[derive(Debug, Clone)]
pub enum ProviderCredentialMirror {
    /// Nothing to write.
    Unchanged,
    /// The provider's credential row is dropped.
    Delete { provider_id: String },
    /// The provider's credential row is written.
    Upsert(ProviderCredentialUpsert),
}

/// What the credential table mirrors of profile `id` in `snapshot` after a
/// request for provider `provider`: nothing for OpenAI Codex or a missing
/// profile; a deletion where the profile has no usable link (none, an
/// OAuth link, or an API-key link without a stored key); else its row.
pub open spec fn mirror_is(m: ProviderCredentialMirror, snapshot: ProviderProfilesSnapshot, provider: Seq<char>, id: Seq<char>) -> bool {
    if provider == "openai_codex"@ {
        m is Unchanged
    } else {
        match current_profile(snapshot, id) {
            None => m is Unchanged,
            Some(p) => {
                let key = current_secret(snapshot, id);
                match opt_link_view(p.credential_link) {
                    None => m matches ProviderCredentialMirror::Delete { provider_id } && provider_id@ == p.provider_id@,
                    Some(l) => if l.0 == 3 || (l.0 == 0 && key is None) {
                        m matches ProviderCredentialMirror::Delete { provider_id } && provider_id@ == p.provider_id@
                    } else {
                        m matches ProviderCredentialMirror::Upsert(u) && {
                            &&& u.provider_id@ == p.provider_id@
                            &&& u.kind == if l.0 == 0 {
                                ProviderCredentialKind::ApiKey
                            } else if l.0 == 1 {
                                ProviderCredentialKind::Local
                            } else {
                                ProviderCredentialKind::Ambient
                            }
                            &&& owned_text(u.api_key) == if l.0 == 0 {
                                Some((key->0).1)
                            } else {
                                None
                            }
                            &&& owned_text(u.base_url) == owned_text(p.base_url)
                            &&& owned_text(u.api_version) == owned_text(p.api_version)
                            &&& owned_text(u.region) == owned_text(p.region)
                            &&& owned_text(u.project_id) == owned_text(p.project_id)
                            &&& u.default_model_id@ == p.model_id@
                            &&& u.updated_at@ == l.1
                        }
                    },
                }
            },
        }
    }
}

/// Decides how the provider credential table follows the profile the
/// request named (ids trimmed).
pub fn mirror_profile_credential(
    snapshot: &ProviderProfilesSnapshot,
    request: &UpsertProviderProfileRequestDto,
) -> (m: ProviderCredentialMirror)
    ensures
        mirror_is(m, *snapshot, trim(request.provider_id@), trim(request.profile_id@)),
{
    let provider = trim_string(request.provider_id.as_str());
    if str_eq(provider.as_str(), OPENAI_CODEX_PROVIDER_ID) {
        return ProviderCredentialMirror::Unchanged;
    }
    let id = trim_string(request.profile_id.as_str());
    let p = match find_profile(&snapshot.metadata.profiles, id.as_str()) {
        Some(i) => &snapshot.metadata.profiles[i],
        None => {
            return ProviderCredentialMirror::Unchanged;
        },
    };
    let (kind, updated_at) = match &p.credential_link {
        None => {
            return ProviderCredentialMirror::Delete { provider_id: own(p.provider_id.as_str()) };
        },
        Some(l) => link_parts(l),
    };
    if kind == 3 {
        return ProviderCredentialMirror::Delete { provider_id: own(p.provider_id.as_str()) };
    }
    let api_key = if kind == 0 {
        match find_entry(&snapshot.credentials.api_keys, id.as_str()) {
            Some(i) => Some(own(snapshot.credentials.api_keys[i].api_key.as_str())),
            None => {
                return ProviderCredentialMirror::Delete { provider_id: own(p.provider_id.as_str()) };
            },
        }
    } else {
        None
    };
    ProviderCredentialMirror::Upsert(ProviderCredentialUpsert {
        provider_id: own(p.provider_id.as_str()),
        kind: if kind == 0 {
            ProviderCredentialKind::ApiKey
        } else if kind == 1 {
            ProviderCredentialKind::Local
        } else {
            ProviderCredentialKind::Ambient
        },
        api_key,
        base_url: crate::text::clone_text_opt(&p.base_url),
        api_version: crate::text::clone_text_opt(&p.api_version),
        region: crate::text::clone_text_opt(&p.region),
        project_id: crate::text::clone_text_opt(&p.project_id),
        default_model_id: own(p.model_id.as_str()),
        updated_at: own(updated_at),
    })
}

} // verus!

verus! {

/// An authentication store failure as a command error: retryable where it
/// was, user-fixable otherwise, with its code and message.
pub fn map_auth_store_error_to_command_error(error: crate::anthropic::AuthFlowError) -> (e: CommandError)
    ensures
        error.retryable ==> crate::error::retryable_is(e, error.code@, error.message@),
        !error.retryable ==> crate::error::user_fixable_is(e, error.code@, error.message@),
{
    if error.retryable {
        CommandError::retryable(error.code.as_str(), error.message.as_str())
    } else {
        CommandError::user_fixable(error.code.as_str(), error.message.as_str())
    }
}

} // verus!
