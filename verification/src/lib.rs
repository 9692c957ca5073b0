use vstd::prelude::*;

pub mod text;
pub mod sorting;
pub mod lines;
pub mod error;
pub mod cluster;
pub mod ledger;
pub mod events;
pub mod secrets;
pub mod codec;
pub mod drift;
pub mod backend_jobs;
pub mod avd;
pub mod contracts;
pub mod redaction;
pub mod autonomous;
pub mod autonomous_rules;
pub mod autonomous_history;
pub mod workflow;
pub mod dispatch;
pub mod emulator;
pub mod commit_message;
pub mod clock;
pub mod browser_settings;
pub mod provider_profiles;
pub mod anthropic;
pub mod handoff;
pub mod wallet_adapter;
pub mod session_history;

verus! {
} // verus!
pub mod screenshot;
pub mod runtime_session;
pub mod autonomous_rollover;
pub mod dispatch_outcome;
pub mod transcript;
pub mod dispatch_step;
