//! Events emitted by the Solana workbench backend.

use vstd::prelude::*;

verus! {

pub const SOLANA_VALIDATOR_STATUS_EVENT: &'static str = "solana:validator:status";
pub const SOLANA_VALIDATOR_LOG_EVENT: &'static str = "solana:validator:log";
pub const SOLANA_TOOLCHAIN_STATUS_CHANGED_EVENT: &'static str = "solana:toolchain:changed";
pub const SOLANA_RPC_HEALTH_EVENT: &'static str = "solana:rpc:health";

#[derive(Debug, Clone, Copy, PartialEq, Eq, Structural)]
pub enum ValidatorPhase {
    Idle,
    Booting,
    Ready,
    Stopping,
    Stopped,
    Error,
}

/// The status of the local validator, with optional details.
#[derive(Debug, Clone)]
pub struct ValidatorStatusPayload {
    pub phase: ValidatorPhase,
    pub kind: Option<String>,
    pub rpc_url: Option<String>,
    pub ws_url: Option<String>,
    pub message: Option<String>,
}

/// The text held by an optional string, if any.
pub open spec fn opt_view(o: Option<String>) -> Option<Seq<char>> {
    match o {
        Some(s) => Some(s@),
        None => None,
    }
}

impl ValidatorStatusPayload {
    pub fn new(phase: ValidatorPhase) -> (p: Self)
        ensures
            p.phase == phase,
            p.kind is None,
            p.rpc_url is None,
            p.ws_url is None,
            p.message is None,
    {
        ValidatorStatusPayload { phase, kind: None, rpc_url: None, ws_url: None, message: None }
    }

    pub fn with_kind(self, kind: String) -> (p: Self)
        ensures
            p.phase == self.phase,
            opt_view(p.kind) == Some(kind@),
            p.rpc_url == self.rpc_url,
            p.ws_url == self.ws_url,
            p.message == self.message,
    {
        ValidatorStatusPayload { kind: Some(kind), ..self }
    }

    pub fn with_rpc_url(self, url: String) -> (p: Self)
        ensures
            p.phase == self.phase,
            p.kind == self.kind,
            opt_view(p.rpc_url) == Some(url@),
            p.ws_url == self.ws_url,
            p.message == self.message,
    {
        ValidatorStatusPayload { rpc_url: Some(url), ..self }
    }

    pub fn with_ws_url(self, url: String) -> (p: Self)
        ensures
            p.phase == self.phase,
            p.kind == self.kind,
            p.rpc_url == self.rpc_url,
            opt_view(p.ws_url) == Some(url@),
            p.message == self.message,
    {
        ValidatorStatusPayload { ws_url: Some(url), ..self }
    }

    pub fn with_message(self, message: String) -> (p: Self)
        ensures
            p.phase == self.phase,
            p.kind == self.kind,
            p.rpc_url == self.rpc_url,
            p.ws_url == self.ws_url,
            opt_view(p.message) == Some(message@),
    {
        ValidatorStatusPayload { message: Some(message), ..self }
    }
}

#[derive(Debug, Clone, Copy, PartialEq, Eq, Structural)]
pub enum ValidatorLogLevel {
    Debug,
    Info,
    Warn,
    Error,
}

/// One log line of the local validator.
#[derive(Debug, Clone)]
pub struct ValidatorLogPayload {
    pub level: ValidatorLogLevel,
    pub message: String,
    pub ts_ms: u64,
}

} // verus!
