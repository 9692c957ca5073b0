//! Reconciling a project's runtime session: a login flow that the app no
//! longer holds fails, a signed-in session whose provider cannot be resolved
//! or whose provider signed it out is signed out, and any other session is
//! kept as it is.

use vstd::prelude::*;
use crate::anthropic::RuntimeAuthPhase;
use crate::error::CommandError;
use crate::text::{cat3, own, trim, trim_string};

verus! {

/// Why a runtime session is signed out or failed.
#[derive(Debug, Clone)]
pub struct RuntimeDiagnosticDto {
    pub code: String,
    pub message: String,
    pub retryable: bool,
}

/// A project's runtime session as the app shows it.
#[derive(Debug, Clone)]
pub struct RuntimeSessionDto {
    pub project_id: String,
    pub runtime_kind: String,
    pub provider_id: String,
    pub flow_id: Option<String>,
    pub session_id: Option<String>,
    pub account_id: Option<String>,
    pub phase: RuntimeAuthPhase,
    pub callback_bound: Option<bool>,
    pub authorization_url: Option<String>,
    pub redirect_uri: Option<String>,
    pub last_error_code: Option<String>,
    pub last_error: Option<RuntimeDiagnosticDto>,
    pub updated_at: String,
}

/// A login flow is under way in this phase.
pub open spec fn transient(phase: RuntimeAuthPhase) -> bool {
    match phase {
        RuntimeAuthPhase::Starting => true,
        RuntimeAuthPhase::AwaitingBrowserCallback => true,
        RuntimeAuthPhase::AwaitingManualInput => true,
        RuntimeAuthPhase::ExchangingCode => true,
        RuntimeAuthPhase::Refreshing => true,
        _ => false,
    }
}

/// Whether a login flow is under way in `phase`.
pub fn is_transient_phase(phase: &RuntimeAuthPhase) -> (r: bool)
    ensures
        r == transient(*phase),
{
    match phase {
        RuntimeAuthPhase::Starting => true,
        RuntimeAuthPhase::AwaitingBrowserCallback => true,
        RuntimeAuthPhase::AwaitingManualInput => true,
        RuntimeAuthPhase::ExchangingCode => true,
        RuntimeAuthPhase::Refreshing => true,
        _ => false,
    }
}

/// How a session names its provider: the resolved provider id where the
/// provider resolves, else the session's provider id, else its runtime
/// kind (each trimmed, where not blank), else `runtime`.
pub open spec fn provider_label(runtime: RuntimeSessionDto, resolved: Option<Seq<char>>) -> Seq<char> {
    match resolved {
        Some(p) => p,
        None => if trim(runtime.provider_id@).len() > 0 {
            trim(runtime.provider_id@)
        } else if trim(runtime.runtime_kind@).len() > 0 {
            trim(runtime.runtime_kind@)
        } else {
            "runtime"@
        },
    }
}

/// The label of a session's provider, given the provider id that its
/// identity resolved to (`None` where it did not resolve).
pub fn runtime_provider_label(runtime: &RuntimeSessionDto, resolved: &Option<String>) -> (r: String)
    ensures
        r@ == provider_label(*runtime, crate::text::owned_text(*resolved)),
{
    match resolved {
        Some(p) => own(p.as_str()),
        None => {
            if !crate::text::is_blank(runtime.provider_id.as_str()) {
                trim_string(runtime.provider_id.as_str())
            } else {
                if !crate::text::is_blank(runtime.runtime_kind.as_str()) {
                    trim_string(runtime.runtime_kind.as_str())
                } else {
                    own("runtime")
                }
            }
        },
    }
}

/// `next` is `runtime` with the flow, session, callback and URLs cleared,
/// in phase `phase`, failed with `code`, `message` and `retryable`, stamped
/// `now`; the project, provider, runtime kind and account stay.
pub open spec fn failed_session_is(
    next: RuntimeSessionDto,
    runtime: RuntimeSessionDto,
    phase: RuntimeAuthPhase,
    keep_session: bool,
    code: Seq<char>,
    message: Seq<char>,
    retryable: bool,
    now: Seq<char>,
) -> bool {
    &&& next.project_id@ == runtime.project_id@
    &&& next.runtime_kind@ == runtime.runtime_kind@
    &&& next.provider_id@ == runtime.provider_id@
    &&& next.account_id == runtime.account_id
    &&& (if keep_session {
        next.session_id == runtime.session_id
    } else {
        next.session_id is None
    })
    &&& next.flow_id is None
    &&& next.phase == phase
    &&& next.callback_bound is None
    &&& next.authorization_url is None
    &&& next.redirect_uri is None
    &&& next.last_error_code matches Some(c) && c@ == code
    &&& next.last_error matches Some(d) && d.code@ == code && d.message@ == message && d.retryable == retryable
    &&& next.updated_at@ == now
}

/// The session signed out: idle, with no flow or session, and the reason
/// as its last error, stamped `now`.
pub fn signed_out_runtime_at(
    runtime: RuntimeSessionDto,
    code: &str,
    message: &str,
    retryable: bool,
    now: String,
) -> (r: RuntimeSessionDto)
    ensures
        failed_session_is(r, runtime, RuntimeAuthPhase::Idle, false, code@, message@, retryable, now@),
{
    RuntimeSessionDto {
        flow_id: None,
        session_id: None,
        phase: RuntimeAuthPhase::Idle,
        callback_bound: None,
        authorization_url: None,
        redirect_uri: None,
        last_error_code: Some(own(code)),
        last_error: Some(RuntimeDiagnosticDto { code: own(code), message: own(message), retryable }),
        updated_at: now,
        ..runtime
    }
}

/// The session signed out, stamped with the current time.
pub fn signed_out_runtime(runtime: RuntimeSessionDto, code: &str, message: &str, retryable: bool) -> (r:
    RuntimeSessionDto)
    ensures
        exists|now: Seq<char>|
            failed_session_is(r, runtime, RuntimeAuthPhase::Idle, false, code@, message@, retryable, now),
{
    signed_out_runtime_at(runtime, code, message, retryable, crate::clock::now_timestamp())
}

/// The message of a login flow that the app no longer holds.
pub open spec fn flow_unavailable_message(label: Seq<char>) -> Seq<char> {
    "Cadence no longer has the in-memory "@ + label + " login flow for this project. Start login again."@
}

/// A flow is under way by the session's phase and id, but the app holds no
/// authorization URL or redirect for it.
pub open spec fn abandoned_flow(runtime: RuntimeSessionDto) -> bool {
    transient(runtime.phase) && runtime.flow_id is Some && runtime.authorization_url is None
        && runtime.redirect_uri is None
}

/// What reconciling a session does next.
#[derive(Debug, Clone)]
pub enum RuntimeReconcileStep {
    /// The session stands as it is.
    Keep(RuntimeSessionDto),
    /// The session is stored and announced in this form.
    Persist(RuntimeSessionDto),
    /// The provider is asked whether the signed-in session still holds.
    AskProvider(RuntimeSessionDto),
}

/// The first step of reconciling `runtime`, given the provider id that its
/// provider identity resolves to, or why it does not resolve.
pub open spec fn reconcile_step_is(
    step: RuntimeReconcileStep,
    runtime: RuntimeSessionDto,
    identity: Result<Seq<char>, (Seq<char>, Seq<char>, bool)>,
    now: Seq<char>,
) -> bool {
    if abandoned_flow(runtime) {
        let label = provider_label(
            runtime,
            match identity {
                Ok(p) => Some(p),
                Err(_) => None,
            },
        );
        step matches RuntimeReconcileStep::Persist(next) && failed_session_is(
            next,
            runtime,
            RuntimeAuthPhase::Failed,
            true,
            "auth_flow_unavailable"@,
            flow_unavailable_message(label),
            false,
            now,
        )
    } else if runtime.phase != RuntimeAuthPhase::Authenticated {
        step == RuntimeReconcileStep::Keep(runtime)
    } else {
        match identity {
            Ok(_) => step == RuntimeReconcileStep::AskProvider(runtime),
            Err((code, message, retryable)) => step matches RuntimeReconcileStep::Persist(next)
                && failed_session_is(next, runtime, RuntimeAuthPhase::Idle, false, code, message, retryable, now),
        }
    }
}

pub open spec fn identity_view(identity: Result<String, RuntimeDiagnosticDto>) -> Result<
    Seq<char>,
    (Seq<char>, Seq<char>, bool),
> {
    match identity {
        Ok(p) => Ok(p@),
        Err(d) => Err((d.code@, d.message@, d.retryable)),
    }
}

/// The first step of reconciling a stored session, stamped `now` where the
/// session changes: a flow the app no longer holds fails; a session that is
/// not signed in stays; a signed-in session whose provider does not resolve
/// is signed out; else the provider is asked.
pub fn plan_runtime_reconcile(
    runtime: RuntimeSessionDto,
    identity: Result<String, RuntimeDiagnosticDto>,
    now: String,
) -> (step: RuntimeReconcileStep)
    ensures
        reconcile_step_is(step, runtime, identity_view(identity), now@),
{
    if is_transient_phase(&runtime.phase) && runtime.flow_id.is_some() && runtime.authorization_url.is_none()
        && runtime.redirect_uri.is_none() {
        let resolved: Option<String> = match &identity {
            Ok(p) => Some(own(p.as_str())),
            Err(_) => None,
        };
        let label = runtime_provider_label(&runtime, &resolved);
        let message = cat3(
            "Cadence no longer has the in-memory ",
            label.as_str(),
            " login flow for this project. Start login again.",
        );
        let next = RuntimeSessionDto {
            flow_id: None,
            phase: RuntimeAuthPhase::Failed,
            callback_bound: None,
            authorization_url: None,
            redirect_uri: None,
            last_error_code: Some(own("auth_flow_unavailable")),
            last_error: Some(
                RuntimeDiagnosticDto { code: own("auth_flow_unavailable"), message, retryable: false },
            ),
            updated_at: now,
            ..runtime
        };
        return RuntimeReconcileStep::Persist(next);
    }
    if runtime.phase != RuntimeAuthPhase::Authenticated {
        return RuntimeReconcileStep::Keep(runtime);
    }
    match identity {
        Ok(_) => RuntimeReconcileStep::AskProvider(runtime),
        Err(d) => RuntimeReconcileStep::Persist(
            signed_out_runtime_at(runtime, d.code.as_str(), d.message.as_str(), d.retryable, now),
        ),
    }
}

/// What the provider answered of a signed-in session.
#[derive(Debug, Clone)]
pub enum RuntimeProviderReconcileOutcome {
    /// The session still holds.
    Authenticated,
    /// The provider signed the session out, for this reason.
    SignedOut(RuntimeDiagnosticDto),
}

/// The step after the provider answered: a session that still holds stays;
/// one the provider signed out, or whose check failed, is signed out with
/// that reason.
pub fn finish_runtime_reconcile(
    runtime: RuntimeSessionDto,
    outcome: Result<RuntimeProviderReconcileOutcome, CommandError>,
    now: String,
) -> (step: RuntimeReconcileStep)
    ensures
        match outcome {
            Ok(RuntimeProviderReconcileOutcome::Authenticated) => step == RuntimeReconcileStep::Keep(runtime),
            Ok(RuntimeProviderReconcileOutcome::SignedOut(d)) => step matches RuntimeReconcileStep::Persist(next)
                && failed_session_is(next, runtime, RuntimeAuthPhase::Idle, false, d.code@, d.message@, d.retryable, now@),
            Err(e) => step matches RuntimeReconcileStep::Persist(next) && failed_session_is(
                next,
                runtime,
                RuntimeAuthPhase::Idle,
                false,
                e.code@,
                e.message@,
                e.retryable,
                now@,
            ),
        },
{
    match outcome {
        Ok(RuntimeProviderReconcileOutcome::Authenticated) => RuntimeReconcileStep::Keep(runtime),
        Ok(RuntimeProviderReconcileOutcome::SignedOut(d)) => RuntimeReconcileStep::Persist(
            signed_out_runtime_at(runtime, d.code.as_str(), d.message.as_str(), d.retryable, now),
        ),
        Err(e) => RuntimeReconcileStep::Persist(
            signed_out_runtime_at(runtime, e.code.as_str(), e.message.as_str(), e.retryable, now),
        ),
    }
}

/// The account a logout signs out of: the session's account id, where it
/// is not blank.
pub open spec fn logout_account(current: RuntimeSessionDto) -> Option<Seq<char>> {
    match current.account_id {
        Some(a) => if crate::text::blank(a@) {
            None
        } else {
            Some(a@)
        },
        None => None,
    }
}

/// The account that logging out of `current` signs out of at its provider.
pub fn logout_account_id(current: &RuntimeSessionDto) -> (r: Option<String>)
    ensures
        crate::text::owned_text(r) == logout_account(*current),
{
    match &current.account_id {
        Some(a) => if crate::text::is_blank(a.as_str()) {
            None
        } else {
            Some(own(a.as_str()))
        },
        None => None,
    }
}

/// The session after a logout, stamped `now`: idle, with the provider that
/// the session resolved to (or the default provider, with the reason it
/// did not resolve as its last error), keeping only its account.
pub fn logged_out_session_at(
    project_id: String,
    current: &RuntimeSessionDto,
    provider_runtime_kind: &str,
    provider_id: &str,
    provider_error: Option<RuntimeDiagnosticDto>,
    now: String,
) -> (r: RuntimeSessionDto)
    ensures
        r.project_id@ == project_id@,
        r.runtime_kind@ == provider_runtime_kind@,
        r.provider_id@ == provider_id@,
        r.flow_id is None && r.session_id is None,
        crate::text::owned_text(r.account_id) == logout_account(*current),
        r.phase == RuntimeAuthPhase::Idle,
        r.callback_bound is None && r.authorization_url is None && r.redirect_uri is None,
        match provider_error {
            Some(d) => {
                &&& r.last_error_code matches Some(c) && c@ == d.code@
                &&& r.last_error matches Some(e) && e.code@ == d.code@ && e.message@ == d.message@ && e.retryable
                    == d.retryable
            },
            None => r.last_error_code is None && r.last_error is None,
        },
        r.updated_at@ == now@,
{
    let (last_error_code, last_error) = match provider_error {
        Some(d) => (Some(own(d.code.as_str())), Some(d)),
        None => (None, None),
    };
    RuntimeSessionDto {
        project_id,
        runtime_kind: own(provider_runtime_kind),
        provider_id: own(provider_id),
        flow_id: None,
        session_id: None,
        account_id: logout_account_id(current),
        phase: RuntimeAuthPhase::Idle,
        callback_bound: None,
        authorization_url: None,
        redirect_uri: None,
        last_error_code,
        last_error,
        updated_at: now,
    }
}

} // verus!
