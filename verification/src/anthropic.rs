//! The Anthropic runtime binding: the models probe's configuration, how a
//! models response is normalized, how probe failures are classified, and
//! the synthetic account and session ids a binding carries.

use vstd::prelude::*;
use crate::codec::{hex, sha256, sha256_hex};
use crate::text::{
    normalized_text, blank, borrowed_text, cat2, cat3, cat5, decimal, decimal_string, own, str_eq, trim, trim_string,
};

verus! {

pub const DEFAULT_MODELS_URL: &'static str = "https://api.anthropic.com/v1/models";
pub const DEFAULT_ANTHROPIC_VERSION: &'static str = "2023-06-01";
pub const ANTHROPIC_PROVIDER_ID: &'static str = "anthropic";

/// Where and how the models probe asks Anthropic. The probe's HTTP client
/// gives up after `timeout_secs` whole seconds.
#[derive(Debug)]
pub struct AnthropicAuthConfig {
    pub models_url: String,
    pub anthropic_version: String,
    pub timeout_secs: u64,
}

impl AnthropicAuthConfig {
    /// The public models endpoint, API version `2023-06-01`, ten seconds.
    pub fn for_platform() -> (c: Self)
        ensures
            c.models_url@ == "https://api.anthropic.com/v1/models"@,
            c.anthropic_version@ == "2023-06-01"@,
            c.timeout_secs == 10,
    {
        AnthropicAuthConfig {
            models_url: own(DEFAULT_MODELS_URL),
            anthropic_version: own(DEFAULT_ANTHROPIC_VERSION),
            timeout_secs: 10,
        }
    }
}

/// The phase of a runtime's authentication flow.
#[derive(Debug, Clone, Copy, PartialEq, Eq, Structural)]
pub enum RuntimeAuthPhase {
    Idle,
    Starting,
    AwaitingBrowserCallback,
    AwaitingManualInput,
    ExchangingCode,
    Authenticated,
    Refreshing,
    Failed,
}

/// A failed authentication flow.
#[derive(Debug, Clone)]
pub struct AuthFlowError {
    pub code: String,
    pub phase: RuntimeAuthPhase,
    pub message: String,
    pub retryable: bool,
}

/// Why a runtime is signed out.
#[derive(Debug, Clone)]
pub struct AuthDiagnostic {
    pub code: String,
    pub message: String,
    pub retryable: bool,
}

pub open spec fn auth_error_is(e: AuthFlowError, code: Seq<char>, message: Seq<char>, retryable: bool) -> bool {
    e.code@ == code && e.phase == RuntimeAuthPhase::Failed && e.message@ == message && e.retryable
        == retryable
}

impl AuthFlowError {
    pub fn terminal(code: &str, phase: RuntimeAuthPhase, message: &str) -> (e: Self)
        ensures
            e.code@ == code@ && e.phase == phase && e.message@ == message@ && !e.retryable,
    {
        AuthFlowError { code: own(code), phase, message: own(message), retryable: false }
    }

    pub fn retryable(code: &str, phase: RuntimeAuthPhase, message: &str) -> (e: Self)
        ensures
            e.code@ == code@ && e.phase == phase && e.message@ == message@ && e.retryable,
    {
        AuthFlowError { code: own(code), phase, message: own(message), retryable: true }
    }
}

#[derive(Debug, Clone)]
pub struct AnthropicRuntimeSessionBinding {
    pub provider_id: String,
    pub session_id: String,
    pub account_id: String,
    pub updated_at: String,
}

#[derive(Debug, Clone)]
pub enum AnthropicBindOutcome {
    Ready(AnthropicRuntimeSessionBinding),
    SignedOut(AuthDiagnostic),
}

#[derive(Debug, Clone)]
pub enum AnthropicReconcileOutcome {
    Authenticated(AnthropicRuntimeSessionBinding),
    SignedOut(AuthDiagnostic),
}

#[derive(Debug, Clone, Copy, PartialEq, Eq, Structural)]
pub enum AnthropicDiscoveredThinkingEffort {
    Low,
    Medium,
    High,
    XHigh,
}

#[derive(Debug, Clone)]
pub struct AnthropicDiscoveredModel {
    pub id: String,
    pub display_name: String,
    pub thinking_supported: bool,
    pub effort_levels: Vec<AnthropicDiscoveredThinkingEffort>,
}

/// What the models endpoint says a model supports.
#[derive(Debug, Clone, Copy)]
pub struct ModelCapabilities {
    pub effort_supported: bool,
    pub effort_low: bool,
    pub effort_medium: bool,
    pub effort_high: bool,
    pub effort_xhigh: bool,
    pub thinking_supported: bool,
    pub thinking_adaptive: bool,
    pub thinking_enabled: bool,
}

/// One model of a models response.
#[derive(Debug, Clone)]
pub struct ModelSummary {
    pub id: String,
    pub display_name: Option<String>,
    pub capabilities: ModelCapabilities,
}

/// A models response.
#[derive(Debug, Clone)]
pub struct ModelsResponse {
    pub data: Vec<ModelSummary>,
}

/// `text` with ` Response: body` added where the body is not empty.
pub open spec fn with_body(text: Seq<char>, body: Seq<char>) -> Seq<char> {
    if body.len() == 0 {
        text
    } else {
        text + " Response: "@ + body
    }
}

/// The error for a models probe answered with HTTP `status` and `body`.
pub open spec fn probe_status_error_is(e: AuthFlowError, status: u16, body: Seq<char>) -> bool {
    let n = decimal(status as nat);
    if status == 401 || status == 403 {
        auth_error_is(
            e,
            "anthropic_invalid_api_key"@,
            with_body("Anthropic rejected the configured API key with HTTP "@ + n + "."@, body),
            false,
        )
    } else if status == 429 {
        auth_error_is(
            e,
            "anthropic_rate_limited"@,
            with_body("Anthropic rate limited the models probe with HTTP 429."@, body),
            true,
        )
    } else {
        auth_error_is(
            e,
            "anthropic_provider_unavailable"@,
            with_body(
                "Anthropic returned HTTP "@ + n + " while validating the configured API key."@,
                body,
            ),
            500 <= status <= 599,
        )
    }
}

pub fn map_probe_status_error(status: u16, body: &str) -> (e: AuthFlowError)
    ensures
        probe_status_error_is(e, status, body@),
{
    let n = decimal_string(status as u64);
    let base = if status == 401 || status == 403 {
        cat3("Anthropic rejected the configured API key with HTTP ", n.as_str(), ".")
    } else if status == 429 {
        own("Anthropic rate limited the models probe with HTTP 429.")
    } else {
        cat3("Anthropic returned HTTP ", n.as_str(), " while validating the configured API key.")
    };
    let message = if body.unicode_len() == 0 {
        base
    } else {
        cat3(base.as_str(), " Response: ", body)
    };
    if status == 401 || status == 403 {
        AuthFlowError::terminal("anthropic_invalid_api_key", RuntimeAuthPhase::Failed, message.as_str())
    } else if status == 429 {
        AuthFlowError::retryable("anthropic_rate_limited", RuntimeAuthPhase::Failed, message.as_str())
    } else if 500 <= status && status <= 599 {
        AuthFlowError::retryable("anthropic_provider_unavailable", RuntimeAuthPhase::Failed, message.as_str())
    } else {
        AuthFlowError::terminal("anthropic_provider_unavailable", RuntimeAuthPhase::Failed, message.as_str())
    }
}

/// A present value trimmed, or `None` where nothing is left.
pub fn normalized(value: Option<&str>) -> (r: Option<String>)
    ensures
        crate::text::owned_text(r) == normalized_text(borrowed_text(value)),
{
    crate::text::trimmed_present(value)
}

} // verus!

verus! {

pub open spec fn decode_failed_is(e: AuthFlowError, message: Seq<char>) -> bool {
    auth_error_is(e, "anthropic_models_decode_failed"@, message, false)
}

/// The effort levels a model supports, lowest first.
pub open spec fn effort_list(c: ModelCapabilities) -> Seq<AnthropicDiscoveredThinkingEffort> {
    (if c.effort_low { seq![AnthropicDiscoveredThinkingEffort::Low] } else { seq![] })
        + (if c.effort_medium { seq![AnthropicDiscoveredThinkingEffort::Medium] } else { seq![] })
        + (if c.effort_high { seq![AnthropicDiscoveredThinkingEffort::High] } else { seq![] })
        + (if c.effort_xhigh { seq![AnthropicDiscoveredThinkingEffort::XHigh] } else { seq![] })
}

/// Whether model `id` thinks and at which effort levels, or the message of
/// the capabilities that contradict each other.
pub open spec fn thinking_of(id: Seq<char>, c: ModelCapabilities) -> Result<(bool, Seq<AnthropicDiscoveredThinkingEffort>), Seq<char>> {
    if c.effort_supported {
        if effort_list(c).len() == 0 {
            Err(
                "Cadence rejected the Anthropic models response because model `"@ + id
                    + "` declared only unsupported effort levels."@,
            )
        } else {
            Ok((true, effort_list(c)))
        }
    } else if c.thinking_supported {
        if c.thinking_enabled || c.thinking_adaptive {
            Ok((true, seq![]))
        } else {
            Err(
                "Cadence rejected the Anthropic models response because model `"@ + id
                    + "` declared thinking support without any supported thinking type."@,
            )
        }
    } else {
        Ok((false, seq![]))
    }
}

pub fn normalize_anthropic_model_thinking(model_id: &str, capabilities: &ModelCapabilities) -> (r: Result<
    (bool, Vec<AnthropicDiscoveredThinkingEffort>),
    AuthFlowError,
>)
    ensures
        match thinking_of(model_id@, *capabilities) {
            Ok(t) => r matches Ok(v) && v.0 == t.0 && v.1@ == t.1,
            Err(m) => r matches Err(e) && decode_failed_is(e, m),
        },
{
    let mut levels: Vec<AnthropicDiscoveredThinkingEffort> = Vec::new();
    if capabilities.effort_low {
        levels.push(AnthropicDiscoveredThinkingEffort::Low);
    }
    if capabilities.effort_medium {
        levels.push(AnthropicDiscoveredThinkingEffort::Medium);
    }
    if capabilities.effort_high {
        levels.push(AnthropicDiscoveredThinkingEffort::High);
    }
    if capabilities.effort_xhigh {
        levels.push(AnthropicDiscoveredThinkingEffort::XHigh);
    }
    assert(levels@ =~= effort_list(*capabilities));
    if capabilities.effort_supported {
        if levels.len() == 0 {
            let m = cat3(
                "Cadence rejected the Anthropic models response because model `",
                model_id,
                "` declared only unsupported effort levels.",
            );
            return Err(AuthFlowError::terminal("anthropic_models_decode_failed", RuntimeAuthPhase::Failed, m.as_str()));
        }
        return Ok((true, levels));
    }
    if capabilities.thinking_supported {
        if capabilities.thinking_enabled || capabilities.thinking_adaptive {
            return Ok((true, Vec::new()));
        }
        let m = cat3(
            "Cadence rejected the Anthropic models response because model `",
            model_id,
            "` declared thinking support without any supported thinking type.",
        );
        return Err(AuthFlowError::terminal("anthropic_models_decode_failed", RuntimeAuthPhase::Failed, m.as_str()));
    }
    Ok((false, Vec::new()))
}

/// A discovered model as plain values.
pub type ModelView = (Seq<char>, Seq<char>, bool, Seq<AnthropicDiscoveredThinkingEffort>);

pub open spec fn model_view(m: AnthropicDiscoveredModel) -> ModelView {
    (m.id@, m.display_name@, m.thinking_supported, m.effort_levels@)
}

pub open spec fn model_views(ms: Seq<AnthropicDiscoveredModel>) -> Seq<ModelView> {
    ms.map_values(|m: AnthropicDiscoveredModel| model_view(m))
}

/// Some model before `i` has the trimmed id of model `i`.
pub open spec fn id_repeats(ms: Seq<ModelSummary>, i: int) -> bool {
    exists|j: int| 0 <= j < i && trim(ms[j].id@) == trim(ms[i].id@)
}

/// Model `i` normalized, or the message of its fault.
pub open spec fn model_at(ms: Seq<ModelSummary>, i: int) -> Result<ModelView, Seq<char>> {
    let id = trim(ms[i].id@);
    if id.len() == 0 {
        Err("Cadence could not decode the Anthropic models response because one model id was blank."@)
    } else if id_repeats(ms, i) {
        Err(
            "Cadence rejected the Anthropic models response because model `"@ + id
                + "` appeared more than once."@,
        )
    } else {
        let display = match normalized_text(crate::text::owned_text(ms[i].display_name)) {
            Some(d) => d,
            None => id,
        };
        match thinking_of(id, ms[i].capabilities) {
            Ok(t) => Ok((id, display, t.0, t.1)),
            Err(m) => Err(m),
        }
    }
}

/// The models from `i` on, normalized, or the message of the first fault.
pub open spec fn models_from(ms: Seq<ModelSummary>, i: int) -> Result<Seq<ModelView>, Seq<char>>
    decreases ms.len() - i,
{
    if i < 0 || i >= ms.len() {
        Ok(seq![])
    } else {
        match model_at(ms, i) {
            Err(m) => Err(m),
            Ok(v) => match models_from(ms, i + 1) {
                Err(m) => Err(m),
                Ok(rest) => Ok(seq![v] + rest),
            },
        }
    }
}

fn id_repeats_exec(ms: &Vec<ModelSummary>, i: usize, id: &str) -> (r: bool)
    requires
        i < ms.len(),
        id@ == trim(ms@[i as int].id@),
    ensures
        r == id_repeats(ms@, i as int),
{
    let mut j: usize = 0;
    while j < i
        invariant
            i < ms.len(),
            j <= i,
            id@ == trim(ms@[i as int].id@),
            forall|k: int| 0 <= k < j ==> trim(ms@[k].id@) != trim(ms@[i as int].id@),
        decreases i - j,
    {
        let other = trim_string(ms[j].id.as_str());
        if str_eq(other.as_str(), id) {
            return true;
        }
        j = j + 1;
    }
    false
}

pub fn normalize_anthropic_models(response: &ModelsResponse) -> (r: Result<Vec<AnthropicDiscoveredModel>, AuthFlowError>)
    ensures
        match models_from(response.data@, 0) {
            Ok(v) => r matches Ok(out) && model_views(out@) == v,
            Err(m) => r matches Err(e) && decode_failed_is(e, m),
        },
{
    let ms = &response.data;
    let mut out: Vec<AnthropicDiscoveredModel> = Vec::new();
    let mut i: usize = 0;
    proof {
        assert(model_views(out@) + match models_from(ms@, 0) { Ok(v) => v, Err(_) => seq![] } =~= match models_from(ms@, 0) { Ok(v) => v, Err(_) => seq![] });
    }
    while i < ms.len()
        invariant
            ms == &response.data,
            i <= ms.len(),
            match models_from(ms@, 0) {
                Ok(all) => models_from(ms@, i as int) is Ok && all == model_views(out@) + models_from(ms@, i as int)->Ok_0,
                Err(m) => models_from(ms@, i as int) == Err::<Seq<ModelView>, Seq<char>>(m),
            },
        decreases ms.len() - i,
    {
        let model = &ms[i];
        let id = trim_string(model.id.as_str());
        if id.unicode_len() == 0 {
            return Err(
                AuthFlowError::terminal(
                    "anthropic_models_decode_failed",
                    RuntimeAuthPhase::Failed,
                    "Cadence could not decode the Anthropic models response because one model id was blank.",
                ),
            );
        }
        if id_repeats_exec(ms, i, id.as_str()) {
            let m = cat3(
                "Cadence rejected the Anthropic models response because model `",
                id.as_str(),
                "` appeared more than once.",
            );
            return Err(AuthFlowError::terminal("anthropic_models_decode_failed", RuntimeAuthPhase::Failed, m.as_str()));
        }
        let display = match normalized(match &model.display_name {
            Some(d) => Some(d.as_str()),
            None => None,
        }) {
            Some(d) => d,
            None => own(id.as_str()),
        };
        let (thinking_supported, effort_levels) = match normalize_anthropic_model_thinking(id.as_str(), &model.capabilities) {
            Ok(t) => t,
            Err(e) => {
                return Err(e);
            },
        };
        let ghost before = out@;
        let d = AnthropicDiscoveredModel { id, display_name: display, thinking_supported, effort_levels };
        out.push(d);
        proof {
            assert(model_views(out@) =~= model_views(before).push(model_view(d)));
            match models_from(ms@, 0) {
                Ok(all) => {
                    let rest = models_from(ms@, i + 1)->Ok_0;
                    assert(models_from(ms@, i as int)->Ok_0 == seq![model_view(d)] + rest);
                    assert(model_views(before) + (seq![model_view(d)] + rest) =~= model_views(out@) + rest);
                },
                Err(_) => {},
            }
        }
        i = i + 1;
    }
    proof {
        match models_from(ms@, 0) {
            Ok(all) => {
                assert(models_from(ms@, i as int)->Ok_0 =~= Seq::<ModelView>::empty());
                assert(model_views(out@) + Seq::<ModelView>::empty() =~= model_views(out@));
            },
            Err(_) => {},
        }
    }
    Ok(out)
}

} // verus!

verus! {

/// The runtime settings a binding is made from.
#[derive(Debug, Clone)]
pub struct AnthropicRuntimeSettings {
    pub provider_id: String,
    pub model_id: String,
    pub updated_at: String,
    pub anthropic_api_key: Option<String>,
    pub anthropic_credentials_updated_at: Option<String>,
}

/// The hex SHA-256 of `anthropic:<api key>`.
pub open spec fn key_fingerprint(api_key: Seq<char>) -> Seq<char> {
    hex(sha256(vstd::utf8::encode_utf8("anthropic:"@ + api_key)))
}

/// When the credentials last changed, else when the settings did.
pub open spec fn effective_timestamp(s: AnthropicRuntimeSettings) -> Seq<char> {
    match s.anthropic_credentials_updated_at {
        Some(t) => t@,
        None => s.updated_at@,
    }
}

/// The hex SHA-256 of `<key fingerprint>:<provider>:<model>:<timestamp>`.
pub open spec fn session_fingerprint(s: AnthropicRuntimeSettings, api_key: Seq<char>) -> Seq<char> {
    hex(sha256(vstd::utf8::encode_utf8(
        key_fingerprint(api_key) + ":"@ + s.provider_id@ + ":"@ + s.model_id@ + ":"@ + effective_timestamp(s),
    )))
}

pub open spec fn binding_account_id(api_key: Seq<char>) -> Seq<char> {
    "anthropic-acct-"@ + key_fingerprint(api_key).subrange(0, 16)
}

pub open spec fn binding_session_id(s: AnthropicRuntimeSettings, api_key: Seq<char>) -> Seq<char> {
    "anthropic-session-"@ + session_fingerprint(s, api_key).subrange(0, 16)
}

/// The first sixteen characters of a 64-character fingerprint.
fn fingerprint_prefix(fp: &String) -> (r: String)
    requires
        fp@.len() == 64,
    ensures
        r@ == fp@.subrange(0, 16),
{
    let v = crate::text::chars_of(fp.as_str());
    crate::text::string_of_range(&v, 0, 16)
}

/// The binding a runtime session gets from the settings and API key: ids
/// derived from fingerprints of the key and of the selected profile, model
/// and credentials timestamp, stamped with the current time.
pub fn synthetic_binding(settings: &AnthropicRuntimeSettings, api_key: &str) -> (b: AnthropicRuntimeSessionBinding)
    ensures
        b.provider_id@ == ANTHROPIC_PROVIDER_ID@,
        b.account_id@ == binding_account_id(api_key@),
        b.session_id@ == binding_session_id(*settings, api_key@),
        binding_current(*settings, api_key@, Some(b.account_id@), Some(b.session_id@)),
{
    let keyed = cat3(ANTHROPIC_PROVIDER_ID, ":", api_key);
    proof {
        reveal_strlit("anthropic");
        reveal_strlit(":");
        assert(keyed@ =~= "anthropic:"@ + api_key@) by {
            reveal_strlit("anthropic:");
        }
    }
    let key_fp = sha256_hex(keyed.as_str().as_bytes());
    let ts: &str = match &settings.anthropic_credentials_updated_at {
        Some(t) => t.as_str(),
        None => settings.updated_at.as_str(),
    };
    let head = cat5(key_fp.as_str(), ":", settings.provider_id.as_str(), ":", settings.model_id.as_str());
    let whole = cat3(head.as_str(), ":", ts);
    let session_fp = sha256_hex(whole.as_str().as_bytes());
    let account_id = cat2("anthropic-acct-", fingerprint_prefix(&key_fp).as_str());
    let session_id = cat2("anthropic-session-", fingerprint_prefix(&session_fp).as_str());
    proof {
        crate::codec::lemma_hex_lower(sha256(vstd::utf8::encode_utf8(keyed@)));
        crate::codec::lemma_hex_lower(sha256(vstd::utf8::encode_utf8(whole@)));
        reveal_strlit("anthropic-acct-");
        reveal_strlit("anthropic-session-");
        let a = account_id@;
        let s = session_id@;
        assert(a[0] == 'a');
        assert(a.last() == key_fp@[15]);
        crate::text::lemma_trim_unchanged(a);
        assert(s[0] == 'a');
        assert(s.last() == session_fp@[15]);
        crate::text::lemma_trim_unchanged(s);
    }
    AnthropicRuntimeSessionBinding {
        provider_id: own(ANTHROPIC_PROVIDER_ID),
        account_id,
        session_id,
        updated_at: crate::clock::now_timestamp(),
    }
}

} // verus!

verus! {

pub open spec fn diagnostic_is(d: AuthDiagnostic, code: Seq<char>, message: Seq<char>) -> bool {
    d.code@ == code && d.message@ == message && !d.retryable
}

pub open spec fn bind_missing_key_message() -> Seq<char> {
    "Cadence cannot bind the selected Anthropic runtime because no app-local API key is configured for the active provider profile."@
}

pub open spec fn reconcile_missing_key_message() -> Seq<char> {
    "Cadence cannot reconcile the selected Anthropic runtime because no app-local API key is configured for the active provider profile."@
}

pub open spec fn stale_binding_message() -> Seq<char> {
    "Cadence rejected the persisted Anthropic runtime binding because the selected provider profile, model, or API key changed. Rebind the runtime session from the active profile."@
}

fn diagnostic(code: &str, message: &str) -> (d: AuthDiagnostic)
    ensures
        diagnostic_is(d, code@, message@),
{
    AuthDiagnostic { code: own(code), message: own(message), retryable: false }
}

/// Some model of the probe's answer has, trimmed, the configured id.
pub open spec fn model_listed(models: Seq<AnthropicDiscoveredModel>, model_id: Seq<char>) -> bool {
    exists|i: int| 0 <= i < models.len() && trim(#[trigger] models[i].id@) == model_id
}

pub open spec fn model_unavailable_message(model_id: Seq<char>) -> Seq<char> {
    "Cadence could not find the configured Anthropic model `"@ + model_id
        + "` in the provider models response."@
}

/// What a models probe concludes from the models the provider listed: the
/// configured model must be among them.
pub fn check_model_listed(models: &Vec<AnthropicDiscoveredModel>, model_id: &str) -> (r: Result<(), AuthFlowError>)
    ensures
        r is Ok <==> model_listed(models@, model_id@),
        r matches Err(e) ==> auth_error_is(
            e,
            "anthropic_model_unavailable"@,
            model_unavailable_message(model_id@),
            false,
        ),
{
    let mut i: usize = 0;
    while i < models.len()
        invariant
            i <= models.len(),
            forall|k: int| 0 <= k < i ==> trim(#[trigger] models@[k].id@) != model_id@,
        decreases models.len() - i,
    {
        let t = trim_string(models[i].id.as_str());
        if str_eq(t.as_str(), model_id) {
            return Ok(());
        }
        i = i + 1;
    }
    let m = cat3("Cadence could not find the configured Anthropic model `", model_id, "` in the provider models response.");
    Err(AuthFlowError::terminal("anthropic_model_unavailable", RuntimeAuthPhase::Failed, m.as_str()))
}

/// Binding a runtime session: signed out without an API key; otherwise the
/// probe's failure, or the synthetic binding once the probe passed.
pub fn bind_anthropic_runtime_session(
    settings: &AnthropicRuntimeSettings,
    probe: Result<(), AuthFlowError>,
) -> (r: Result<AnthropicBindOutcome, AuthFlowError>)
    ensures
        settings.anthropic_api_key is None ==> (r matches Ok(AnthropicBindOutcome::SignedOut(d))
            && diagnostic_is(d, "anthropic_api_key_missing"@, bind_missing_key_message())),
        settings.anthropic_api_key matches Some(k) ==> match probe {
            Err(e) => r == Err::<AnthropicBindOutcome, AuthFlowError>(e),
            Ok(_) => r matches Ok(AnthropicBindOutcome::Ready(b)) && b.provider_id@ == ANTHROPIC_PROVIDER_ID@
                && b.account_id@ == binding_account_id(k@)
                && b.session_id@ == binding_session_id(*settings, k@)
                && binding_current(*settings, k@, Some(b.account_id@), Some(b.session_id@)),
        },
{
    match &settings.anthropic_api_key {
        None => Ok(AnthropicBindOutcome::SignedOut(diagnostic(
            "anthropic_api_key_missing",
            "Cadence cannot bind the selected Anthropic runtime because no app-local API key is configured for the active provider profile.",
        ))),
        Some(k) => match probe {
            Err(e) => Err(e),
            Ok(()) => Ok(AnthropicBindOutcome::Ready(synthetic_binding(settings, k.as_str()))),
        },
    }
}

/// The persisted account and session ids still match what the settings
/// would bind now (after trimming; blank ids never match).
pub open spec fn binding_current(
    settings: AnthropicRuntimeSettings,
    api_key: Seq<char>,
    account_id: Option<Seq<char>>,
    session_id: Option<Seq<char>>,
) -> bool {
    normalized_text(account_id) == Some(binding_account_id(api_key))
        && normalized_text(session_id) == Some(binding_session_id(settings, api_key))
}

fn opt_text_eq(a: &Option<String>, b: &str) -> (r: bool)
    ensures
        r == (crate::text::owned_text(*a) == Some(b@)),
{
    match a {
        Some(t) => str_eq(t.as_str(), b),
        None => false,
    }
}

/// Whether reconciling would consult the models probe: an API key is set
/// and the persisted ids are current.
pub fn anthropic_binding_needs_probe(
    settings: &AnthropicRuntimeSettings,
    account_id: Option<&str>,
    session_id: Option<&str>,
) -> (r: bool)
    ensures
        r == (settings.anthropic_api_key matches Some(k) && binding_current(
            *settings,
            k@,
            borrowed_text(account_id),
            borrowed_text(session_id),
        )),
{
    match &settings.anthropic_api_key {
        None => false,
        Some(k) => {
            let expected = synthetic_binding(settings, k.as_str());
            let account = normalized(account_id);
            let session = normalized(session_id);
            opt_text_eq(&account, expected.account_id.as_str()) && opt_text_eq(&session, expected.session_id.as_str())
        },
    }
}

/// Reconciling a persisted binding: signed out without an API key or when
/// the persisted ids are stale; otherwise the probe's failure, or the
/// binding the settings give once the probe passed. The probe is consulted
/// only where the ids are current.
pub fn reconcile_anthropic_runtime_session(
    settings: &AnthropicRuntimeSettings,
    account_id: Option<&str>,
    session_id: Option<&str>,
    probe: Result<(), AuthFlowError>,
) -> (r: Result<AnthropicReconcileOutcome, AuthFlowError>)
    ensures
        settings.anthropic_api_key is None ==> (r matches Ok(AnthropicReconcileOutcome::SignedOut(d))
            && diagnostic_is(d, "anthropic_api_key_missing"@, reconcile_missing_key_message())),
        settings.anthropic_api_key matches Some(k) ==> if !binding_current(
            *settings,
            k@,
            borrowed_text(account_id),
            borrowed_text(session_id),
        ) {
            r matches Ok(AnthropicReconcileOutcome::SignedOut(d))
                && diagnostic_is(d, "anthropic_binding_stale"@, stale_binding_message())
        } else {
            match probe {
                Err(e) => r == Err::<AnthropicReconcileOutcome, AuthFlowError>(e),
                Ok(_) => r matches Ok(AnthropicReconcileOutcome::Authenticated(b))
                    && b.provider_id@ == ANTHROPIC_PROVIDER_ID@
                    && b.account_id@ == binding_account_id(k@)
                    && b.session_id@ == binding_session_id(*settings, k@),
            }
        },
{
    match &settings.anthropic_api_key {
        None => Ok(AnthropicReconcileOutcome::SignedOut(diagnostic(
            "anthropic_api_key_missing",
            "Cadence cannot reconcile the selected Anthropic runtime because no app-local API key is configured for the active provider profile.",
        ))),
        Some(k) => {
            let expected = synthetic_binding(settings, k.as_str());
            let account = normalized(account_id);
            let session = normalized(session_id);
            if !opt_text_eq(&account, expected.account_id.as_str())
                || !opt_text_eq(&session, expected.session_id.as_str()) {
                return Ok(AnthropicReconcileOutcome::SignedOut(diagnostic(
                    "anthropic_binding_stale",
                    "Cadence rejected the persisted Anthropic runtime binding because the selected provider profile, model, or API key changed. Rebind the runtime session from the active profile.",
                )));
            }
            match probe {
                Err(e) => Err(e),
                Ok(()) => Ok(AnthropicReconcileOutcome::Authenticated(expected)),
            }
        },
    }
}

} // verus!

verus! {

/// What a models probe makes of the provider's answer: HTTP `status`, the
/// response `body`, and the body decoded as a models response (or the
/// decoder's message). A status outside 200..=299 is classified with the
/// trimmed body; a decoding failure is terminal; a decoded response is
/// normalized.
pub fn interpret_models_response(
    status: u16,
    body: &str,
    decoded: Result<ModelsResponse, String>,
) -> (r: Result<Vec<AnthropicDiscoveredModel>, AuthFlowError>)
    ensures
        !(200 <= status <= 299) ==> (r matches Err(e) && probe_status_error_is(e, status, trim(body@))),
        200 <= status <= 299 ==> match decoded {
            Err(m) => r matches Err(e) && decode_failed_is(
                e,
                "Cadence could not decode the Anthropic models response: "@ + m@,
            ),
            Ok(resp) => match models_from(resp.data@, 0) {
                Ok(v) => r matches Ok(out) && model_views(out@) == v,
                Err(m) => r matches Err(e) && decode_failed_is(e, m),
            },
        },
{
    if !(200 <= status && status <= 299) {
        let t = trim_string(body);
        return Err(map_probe_status_error(status, t.as_str()));
    }
    match decoded {
        Err(m) => {
            let msg = cat2("Cadence could not decode the Anthropic models response: ", m.as_str());
            Err(AuthFlowError::terminal("anthropic_models_decode_failed", RuntimeAuthPhase::Failed, msg.as_str()))
        },
        Ok(resp) => normalize_anthropic_models(&resp),
    }
}

} // verus!


verus! {

/// The order of effort levels, lowest first.
pub open spec fn effort_rank(e: AnthropicDiscoveredThinkingEffort) -> int {
    match e {
        AnthropicDiscoveredThinkingEffort::Low => 0,
        AnthropicDiscoveredThinkingEffort::Medium => 1,
        AnthropicDiscoveredThinkingEffort::High => 2,
        AnthropicDiscoveredThinkingEffort::XHigh => 3,
    }
}

/// Whether the capabilities declare effort level `e`.
pub open spec fn declares_effort(c: ModelCapabilities, e: AnthropicDiscoveredThinkingEffort) -> bool {
    match e {
        AnthropicDiscoveredThinkingEffort::Low => c.effort_low,
        AnthropicDiscoveredThinkingEffort::Medium => c.effort_medium,
        AnthropicDiscoveredThinkingEffort::High => c.effort_high,
        AnthropicDiscoveredThinkingEffort::XHigh => c.effort_xhigh,
    }
}

/// A model that supports effort and declares some level thinks, at
/// exactly the levels it declares, each once, lowest first.
pub proof fn law_effort_levels_are_the_declared_ones(id: Seq<char>, c: ModelCapabilities)
    requires
        c.effort_supported,
        c.effort_low || c.effort_medium || c.effort_high || c.effort_xhigh,
    ensures
        thinking_of(id, c) matches Ok((thinks, levels)) && thinks && (forall|e: AnthropicDiscoveredThinkingEffort|
            levels.contains(e) <==> declares_effort(c, e)) && (forall|i: int, j: int|
            0 <= i < j < levels.len() ==> effort_rank(#[trigger] levels[i]) < effort_rank(#[trigger] levels[j])),
{
    let ls = effort_list(c);
    let lo: Seq<AnthropicDiscoveredThinkingEffort> = if c.effort_low { seq![AnthropicDiscoveredThinkingEffort::Low] } else { seq![] };
    let me: Seq<AnthropicDiscoveredThinkingEffort> = if c.effort_medium { seq![AnthropicDiscoveredThinkingEffort::Medium] } else { seq![] };
    let hi: Seq<AnthropicDiscoveredThinkingEffort> = if c.effort_high { seq![AnthropicDiscoveredThinkingEffort::High] } else { seq![] };
    let xh: Seq<AnthropicDiscoveredThinkingEffort> = if c.effort_xhigh { seq![AnthropicDiscoveredThinkingEffort::XHigh] } else { seq![] };
    assert(ls == lo + me + hi + xh);
    assert(ls.len() > 0);
    assert forall|e: AnthropicDiscoveredThinkingEffort| ls.contains(e) <==> declares_effort(c, e) by {
        if declares_effort(c, e) {
            match e {
                AnthropicDiscoveredThinkingEffort::Low => assert(ls[0] == e),
                AnthropicDiscoveredThinkingEffort::Medium => assert(ls[lo.len() as int] == e),
                AnthropicDiscoveredThinkingEffort::High => assert(ls[(lo.len() + me.len()) as int] == e),
                AnthropicDiscoveredThinkingEffort::XHigh => assert(ls[(lo.len() + me.len() + hi.len()) as int] == e),
            }
        }
        if ls.contains(e) {
            let k = choose|k: int| 0 <= k < ls.len() && ls[k] == e;
            assert(declares_effort(c, ls[k]));
        }
    }
    assert forall|i: int, j: int| 0 <= i < j < ls.len() implies effort_rank(#[trigger] ls[i]) < effort_rank(#[trigger] ls[j]) by {
        assert(forall|k: int| 0 <= k < lo.len() ==> effort_rank(ls[k]) == 0);
        assert(forall|k: int| lo.len() <= k < lo.len() + me.len() ==> effort_rank(ls[k]) == 1);
        assert(forall|k: int| lo.len() + me.len() <= k < lo.len() + me.len() + hi.len() ==> effort_rank(ls[k]) == 2);
        assert(forall|k: int| lo.len() + me.len() + hi.len() <= k < ls.len() ==> effort_rank(ls[k]) == 3);
    }
}

} // verus!
