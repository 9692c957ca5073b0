//! Detection of secret-bearing content that must never be persisted in
//! durable runtime records, transition diagnostics or handoff packages.

use vstd::prelude::*;
use crate::text::{chars_of, contains, contains_chars, lower, lower_chars};

verus! {

/// What secret-bearing content `v` holds, as the hint that error messages
/// name; matching ignores ASCII case. Markers are checked in this order.
pub open spec fn prohibited_hint(v: Seq<char>) -> Option<Seq<char>> {
    let l = lower(v);
    if contains(l, "authorization:"@) {
        Some("authorization headers"@)
    } else if contains(l, "bearer "@) {
        Some("bearer tokens"@)
    } else if contains(l, "api_key"@) || contains(l, "apikey"@) {
        Some("API keys"@)
    } else if contains(l, "access_token"@) || contains(l, "refresh_token"@) {
        Some("OAuth tokens"@)
    } else if contains(l, "client_secret"@) {
        Some("client secrets"@)
    } else if contains(l, "private key"@) {
        Some("private key material"@)
    } else {
        None
    }
}

pub open spec fn hint_text(h: Option<&'static str>) -> Option<Seq<char>> {
    match h {
        Some(s) => Some(s@),
        None => None,
    }
}

fn has(l: &Vec<char>, marker: &str) -> (r: bool)
    ensures
        r == contains(l@, marker@),
{
    let m = chars_of(marker);
    contains_chars(l, &m)
}

/// The hint of the secret-bearing content in `value`, if any.
pub fn find_prohibited_runtime_persistence_content(value: &str) -> (r: Option<&'static str>)
    ensures
        hint_text(r) == prohibited_hint(value@),
{
    let v = chars_of(value);
    let l = lower_chars(&v);
    if has(&l, "authorization:") {
        Some("authorization headers")
    } else if has(&l, "bearer ") {
        Some("bearer tokens")
    } else if has(&l, "api_key") || has(&l, "apikey") {
        Some("API keys")
    } else if has(&l, "access_token") || has(&l, "refresh_token") {
        Some("OAuth tokens")
    } else if has(&l, "client_secret") {
        Some("client secrets")
    } else if has(&l, "private key") {
        Some("private key material")
    } else {
        None
    }
}

/// Transition diagnostics follow the same rule as persisted runtime content.
pub fn find_prohibited_transition_diagnostic_content(value: &str) -> (r: Option<&'static str>)
    ensures
        hint_text(r) == prohibited_hint(value@),
{
    find_prohibited_runtime_persistence_content(value)
}

/// Handoff packages follow the same rule as persisted runtime content.
pub fn find_prohibited_workflow_handoff_content(value: &str) -> (r: Option<&'static str>)
    ensures
        hint_text(r) == prohibited_hint(value@),
{
    find_prohibited_runtime_persistence_content(value)
}

} // verus!

verus! {

/// Lower-casing a text twice changes nothing more.
proof fn lemma_lower_idempotent(v: Seq<char>)
    ensures
        lower(lower(v)) == lower(v),
{
    assert(lower(lower(v)) =~= lower(v));
}

/// The secret check ignores ASCII case: a text and its lower-case form are
/// flagged alike.
pub proof fn law_hint_ignores_case(v: Seq<char>)
    ensures
        prohibited_hint(v) == prohibited_hint(lower(v)),
{
    lemma_lower_idempotent(v);
}

} // verus!
