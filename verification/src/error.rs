//! The error shape that every command of the desktop backend returns.

use vstd::prelude::*;
use crate::text::{blank, cat3, is_blank, own};

verus! {

/// How the frontend should treat a failed command.
#[derive(Debug, Clone, Copy, PartialEq, Eq, Structural)]
pub enum CommandErrorClass {
    UserFixable,
    Retryable,
    SystemFault,
    PolicyDenied,
}

/// A failed command: a stable machine code, its class, a message for
/// people, and whether retrying may help.
#[derive(Debug, Clone)]
pub struct CommandError {
    pub code: String,
    pub class: CommandErrorClass,
    pub message: String,
    pub retryable: bool,
}

/// `Ok` or a [`CommandError`].
pub type CommandResult<T> = Result<T, CommandError>;

/// The error value with these four parts.
pub open spec fn error_is(
    e: CommandError,
    code: Seq<char>,
    class: CommandErrorClass,
    message: Seq<char>,
    retryable: bool,
) -> bool {
    &&& e.code@ == code
    &&& e.class == class
    &&& e.message@ == message
    &&& e.retryable == retryable
}

/// A user-fixable error with this code and message.
pub open spec fn user_fixable_is(e: CommandError, code: Seq<char>, message: Seq<char>) -> bool {
    error_is(e, code, CommandErrorClass::UserFixable, message, false)
}

/// A retryable error with this code and message.
pub open spec fn retryable_is(e: CommandError, code: Seq<char>, message: Seq<char>) -> bool {
    error_is(e, code, CommandErrorClass::Retryable, message, true)
}

/// A system-fault error with this code and message.
pub open spec fn system_fault_is(e: CommandError, code: Seq<char>, message: Seq<char>) -> bool {
    error_is(e, code, CommandErrorClass::SystemFault, message, false)
}

/// The message of `invalid_request` for `field`.
pub open spec fn invalid_request_message(field: Seq<char>) -> Seq<char> {
    "Field `"@ + field + "` must be a non-empty string."@
}

impl CommandError {
    pub fn new(code: &str, class: CommandErrorClass, message: &str, retryable: bool) -> (e: Self)
        ensures
            error_is(e, code@, class, message@, retryable),
    {
        CommandError { code: own(code), class, message: own(message), retryable }
    }

    /// The error for a request field that must not be blank.
    pub fn invalid_request(field: &str) -> (e: Self)
        ensures
            user_fixable_is(e, "invalid_request"@, invalid_request_message(field@)),
    {
        let message = cat3("Field `", field, "` must be a non-empty string.");
        Self::new("invalid_request", CommandErrorClass::UserFixable, message.as_str(), false)
    }

    pub fn user_fixable(code: &str, message: &str) -> (e: Self)
        ensures
            user_fixable_is(e, code@, message@),
    {
        Self::new(code, CommandErrorClass::UserFixable, message, false)
    }

    pub fn policy_denied(message: &str) -> (e: Self)
        ensures
            error_is(e, "policy_denied"@, CommandErrorClass::PolicyDenied, message@, false),
    {
        Self::new("policy_denied", CommandErrorClass::PolicyDenied, message, false)
    }

    pub fn retryable(code: &str, message: &str) -> (e: Self)
        ensures
            retryable_is(e, code@, message@),
    {
        Self::new(code, CommandErrorClass::Retryable, message, true)
    }

    pub fn system_fault(code: &str, message: &str) -> (e: Self)
        ensures
            system_fault_is(e, code@, message@),
    {
        Self::new(code, CommandErrorClass::SystemFault, message, false)
    }

    /// The error for a command that the desktop backend does not offer yet.
    pub fn backend_not_ready(command: &str) -> (e: Self)
        ensures
            system_fault_is(
                e,
                "desktop_backend_not_ready"@,
                "Command "@ + command@ + " is not available from the desktop backend yet."@,
            ),
    {
        let message = cat3("Command ", command, " is not available from the desktop backend yet.");
        Self::system_fault("desktop_backend_not_ready", message.as_str())
    }

    pub fn project_not_found() -> (e: Self)
        ensures
            user_fixable_is(
                e,
                "project_not_found"@,
                "Project was not found in the local desktop registry."@,
            ),
    {
        Self::user_fixable(
            "project_not_found",
            "Project was not found in the local desktop registry.",
        )
    }
}

/// Fails with `invalid_request` exactly when `value` is blank.
pub fn validate_non_empty(value: &str, field: &str) -> (r: CommandResult<()>)
    ensures
        r is Ok <==> !blank(value@),
        r matches Err(e) ==> user_fixable_is(e, "invalid_request"@, invalid_request_message(field@)),
{
    if is_blank(value) {
        return Err(CommandError::invalid_request(field));
    }
    Ok(())
}

/// Fails with the user-fixable error `code` exactly when `value` is blank.
pub fn validate_non_empty_text(value: &str, field: &str, code: &str) -> (r: CommandResult<()>)
    ensures
        r is Ok <==> !blank(value@),
        r matches Err(e) ==> user_fixable_is(e, code@, invalid_request_message(field@)),
        fault(r) == nonempty(value@, field@, code@),
{
    if is_blank(value) {
        let message = cat3("Field `", field, "` must be a non-empty string.");
        return Err(CommandError::user_fixable(code, message.as_str()));
    }
    Ok(())
}

} // verus!

verus! {

/// The parts of an error: code, class, message, and whether it is retryable.
pub type Fault = (Seq<char>, CommandErrorClass, Seq<char>, bool);

/// The fault a result carries, `None` for `Ok`.
pub open spec fn fault<T>(r: CommandResult<T>) -> Option<Fault> {
    match r {
        Ok(_) => None,
        Err(e) => Some((e.code@, e.class, e.message@, e.retryable)),
    }
}

/// A user-fixable fault.
pub open spec fn uf(code: Seq<char>, message: Seq<char>) -> Option<Fault> {
    Some((code, CommandErrorClass::UserFixable, message, false))
}

/// A system fault.
pub open spec fn sf(code: Seq<char>, message: Seq<char>) -> Option<Fault> {
    Some((code, CommandErrorClass::SystemFault, message, false))
}

/// A policy denial.
pub open spec fn pd(message: Seq<char>) -> Option<Fault> {
    Some(("policy_denied"@, CommandErrorClass::PolicyDenied, message, false))
}

/// The first fault of two checks made in order.
pub open spec fn first(a: Option<Fault>, b: Option<Fault>) -> Option<Fault> {
    if a is Some {
        a
    } else {
        b
    }
}

/// The fault of `validate_non_empty_text`.
pub open spec fn nonempty(value: Seq<char>, field: Seq<char>, code: Seq<char>) -> Option<Fault> {
    if blank(value) {
        uf(code, invalid_request_message(field))
    } else {
        None
    }
}

/// The fault of `validate_non_empty_text` on an optional value.
pub open spec fn nonempty_opt(value: Option<String>, field: Seq<char>, code: Seq<char>) -> Option<Fault> {
    match value {
        Some(v) => nonempty(v@, field, code),
        None => None,
    }
}

} // verus!
