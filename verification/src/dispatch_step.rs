//! The automatic dispatch after a workflow transition as a sequence of
//! steps: each answer of the database (an event) decides the next thing to
//! do (an action), until the dispatch ends with its outcome. The database
//! work itself is done by the caller.

use vstd::prelude::*;
use crate::dispatch::{
    blocked_summaries, blocked_views, format_unresolved_dispatch_candidate_summary, WorkflowAutomaticDispatchCandidate,
    WorkflowAutomaticDispatchCandidateResolution, WorkflowAutomaticDispatchPlanModeRequirement,
    WorkflowAutomaticDispatchUnresolvedContinuationCandidate,
};
use crate::dispatch_outcome::{
    applied_transition_event, automatic_dispatch_outcome_from_error, event_missing_message, gate_unmet_message,
    gate_unmet_outcome, persisted_package_outcome, plan_mode_requirement_from, replayed_package_outcome,
    WorkflowAutomaticDispatchOutcome, WorkflowAutomaticDispatchPackageOutcome, WorkflowHandoffPackagePersistResult,
};
use crate::error::{CommandError, CommandResult};
use crate::workflow::{WorkflowHandoffPackageRecord, WorkflowTransitionEventRecord};

verus! {

/// What applying the automatic transition did: wrote it, or found it
/// already written (its stored event).
#[derive(Debug, Clone)]
pub enum WorkflowTransitionMutationApplyOutcome {
    Applied,
    Replayed(WorkflowTransitionEventRecord),
}

/// An answer of the database during an automatic dispatch.
#[derive(Debug)]
pub enum AutoDispatchEvent {
    /// Whether the project has a selected agent session, and what its
    /// runtime-run snapshot says of plan mode.
    PlanModeRead { session_selected: bool, snapshot: Result<Option<bool>, CommandError> },
    /// How continuation from the completed node resolved.
    CandidateResolved(CommandResult<WorkflowAutomaticDispatchCandidateResolution>),
    /// The pending approval for held-back edges was persisted (its action id).
    ApprovalPersisted { completed_node_id: String, blocked_summary: String, persisted: CommandResult<String> },
    /// The transaction holding the pending approval was committed.
    ApprovalCommitted {
        completed_node_id: String,
        blocked_summary: String,
        action_id: String,
        commit: CommandResult<()>,
    },
    /// The approval's notifications were enqueued; `note` says how that went.
    NotificationsEnqueued { completed_node_id: String, blocked_summary: String, action_id: String, note: String },
    /// The automatic transition `transition_id` was applied.
    TransitionApplied { transition_id: String, applied: CommandResult<WorkflowTransitionMutationApplyOutcome> },
    /// The package of a replayed transition was read.
    ReplayedPackageRead {
        transition_event: WorkflowTransitionEventRecord,
        read: Result<Option<WorkflowHandoffPackageRecord>, CommandError>,
    },
    /// The transaction of an applied transition was committed.
    TransitionCommitted { transition_id: String, commit: CommandResult<()> },
    /// The applied transition was read back.
    TransitionReadBack { transition_id: String, read: Result<Option<WorkflowTransitionEventRecord>, CommandError> },
    /// The handoff package of the applied transition was persisted.
    PackagePersisted {
        transition_event: WorkflowTransitionEventRecord,
        persisted: Result<WorkflowHandoffPackagePersistResult, CommandError>,
    },
}

/// What the caller does next.
#[derive(Debug, Clone)]
pub enum AutoDispatchAction {
    /// Resolve the continuation from the completed node under this
    /// plan-mode requirement.
    ResolveCandidate(WorkflowAutomaticDispatchPlanModeRequirement),
    /// Persist a pending approval for the held-back edges.
    PersistApproval {
        completed_node_id: String,
        blocked_candidates: Vec<WorkflowAutomaticDispatchUnresolvedContinuationCandidate>,
        blocked_summary: String,
    },
    /// Commit the transaction holding the pending approval.
    CommitApproval { completed_node_id: String, blocked_summary: String, action_id: String },
    /// Enqueue the pending approval's notifications.
    EnqueueNotifications { completed_node_id: String, blocked_summary: String, action_id: String },
    /// Apply the automatic transition along this edge.
    ApplyTransition(WorkflowAutomaticDispatchCandidate),
    /// Read the package of this replayed transition.
    LoadReplayedPackage(WorkflowTransitionEventRecord),
    /// Commit the transaction of the applied transition.
    CommitTransition(String),
    /// Read the applied transition back.
    ReadBackTransition(String),
    /// Persist the handoff package of this applied transition.
    PersistPackage(WorkflowTransitionEventRecord),
    /// The dispatch is over.
    Finish(WorkflowAutomaticDispatchOutcome),
}

/// The dispatch ends skipped with this code and message.
pub open spec fn finish_skipped(a: AutoDispatchAction, code: Seq<char>, message: Seq<char>) -> bool {
    a matches AutoDispatchAction::Finish(WorkflowAutomaticDispatchOutcome::Skipped { code: c, message: m }) && c@
        == code && m@ == message
}

/// The dispatch ends skipped with the error `e`.
pub open spec fn finish_error(a: AutoDispatchAction, e: CommandError) -> bool {
    finish_skipped(a, e.code@, e.message@)
}

/// The next step of an automatic dispatch after `event`.
pub open spec fn next_step_is(a: AutoDispatchAction, event: AutoDispatchEvent, database_path: Seq<char>) -> bool {
    match event {
        AutoDispatchEvent::PlanModeRead { session_selected, snapshot } => if !session_selected {
            a == AutoDispatchAction::ResolveCandidate(WorkflowAutomaticDispatchPlanModeRequirement::Unknown)
        } else {
            match snapshot {
                Ok(Some(true)) => a == AutoDispatchAction::ResolveCandidate(
                    WorkflowAutomaticDispatchPlanModeRequirement::Required,
                ),
                Ok(Some(false)) => a == AutoDispatchAction::ResolveCandidate(
                    WorkflowAutomaticDispatchPlanModeRequirement::Disabled,
                ),
                Ok(None) => a == AutoDispatchAction::ResolveCandidate(
                    WorkflowAutomaticDispatchPlanModeRequirement::Unknown,
                ),
                Err(e) => if e.code@ == "runtime_run_decode_failed"@ {
                    a == AutoDispatchAction::ResolveCandidate(WorkflowAutomaticDispatchPlanModeRequirement::Unknown)
                } else {
                    finish_error(a, e)
                },
            }
        },
        AutoDispatchEvent::CandidateResolved(r) => match r {
            Err(e) => finish_error(a, e),
            Ok(WorkflowAutomaticDispatchCandidateResolution::NoContinuation) => a == AutoDispatchAction::Finish(
                WorkflowAutomaticDispatchOutcome::NoContinuation,
            ),
            Ok(WorkflowAutomaticDispatchCandidateResolution::Candidate(c)) => a == AutoDispatchAction::ApplyTransition(c),
            Ok(WorkflowAutomaticDispatchCandidateResolution::Unresolved { completed_node_id, blocked_candidates }) => a matches AutoDispatchAction::PersistApproval {
                completed_node_id: n,
                blocked_candidates: b,
                blocked_summary: s,
            } && n == completed_node_id && b == blocked_candidates && s@ == blocked_summaries(
                blocked_views(blocked_candidates@),
            ),
        },
        AutoDispatchEvent::ApprovalPersisted { completed_node_id, blocked_summary, persisted } => match persisted {
            Err(e) => finish_error(a, e),
            Ok(action_id) => a == AutoDispatchAction::CommitApproval { completed_node_id, blocked_summary, action_id },
        },
        AutoDispatchEvent::ApprovalCommitted { completed_node_id, blocked_summary, action_id, commit } => match commit {
            Err(e) => finish_error(a, e),
            Ok(()) => a == AutoDispatchAction::EnqueueNotifications { completed_node_id, blocked_summary, action_id },
        },
        AutoDispatchEvent::NotificationsEnqueued { completed_node_id, blocked_summary, action_id, note } => finish_skipped(
            a,
            "workflow_transition_gate_unmet"@,
            gate_unmet_message(completed_node_id@, blocked_summary@, action_id@, note@),
        ),
        AutoDispatchEvent::TransitionApplied { transition_id, applied } => match applied {
            Err(e) => finish_error(a, e),
            Ok(WorkflowTransitionMutationApplyOutcome::Replayed(ev)) => a == AutoDispatchAction::LoadReplayedPackage(ev),
            Ok(WorkflowTransitionMutationApplyOutcome::Applied) => a == AutoDispatchAction::CommitTransition(
                transition_id,
            ),
        },
        AutoDispatchEvent::ReplayedPackageRead { transition_event, read } => a matches AutoDispatchAction::Finish(
            WorkflowAutomaticDispatchOutcome::Replayed { transition_event: ev, handoff_package: _ },
        ) && ev == transition_event,
        AutoDispatchEvent::TransitionCommitted { transition_id, commit } => match commit {
            Err(e) => finish_error(a, e),
            Ok(()) => a == AutoDispatchAction::ReadBackTransition(transition_id),
        },
        AutoDispatchEvent::TransitionReadBack { transition_id, read } => match read {
            Ok(Some(ev)) => a == AutoDispatchAction::PersistPackage(ev),
            Ok(None) => finish_skipped(
                a,
                "workflow_transition_auto_dispatch_event_missing_after_persist"@,
                event_missing_message(transition_id@, database_path),
            ),
            Err(e) => finish_error(a, e),
        },
        AutoDispatchEvent::PackagePersisted { transition_event, persisted } => a matches AutoDispatchAction::Finish(
            WorkflowAutomaticDispatchOutcome::Applied { transition_event: ev, handoff_package: _ },
        ) && ev == transition_event,
    }
}

/// The next step of an automatic dispatch, given the database's answer to
/// the last one. The package of a replayed or applied transition is what
/// `replayed_package_outcome` or `persisted_package_outcome` makes of the
/// answer.
pub fn next_auto_dispatch_step(event: AutoDispatchEvent, database_path: &str) -> (a: AutoDispatchAction)
    ensures
        next_step_is(a, event, database_path@),
{
    match event {
        AutoDispatchEvent::PlanModeRead { session_selected, snapshot } => {
            match plan_mode_requirement_from(session_selected, snapshot) {
                Ok(req) => AutoDispatchAction::ResolveCandidate(req),
                Err(e) => AutoDispatchAction::Finish(automatic_dispatch_outcome_from_error(e)),
            }
        },
        AutoDispatchEvent::CandidateResolved(r) => match r {
            Err(e) => AutoDispatchAction::Finish(automatic_dispatch_outcome_from_error(e)),
            Ok(WorkflowAutomaticDispatchCandidateResolution::NoContinuation) => AutoDispatchAction::Finish(
                WorkflowAutomaticDispatchOutcome::NoContinuation,
            ),
            Ok(WorkflowAutomaticDispatchCandidateResolution::Candidate(c)) => AutoDispatchAction::ApplyTransition(c),
            Ok(WorkflowAutomaticDispatchCandidateResolution::Unresolved { completed_node_id, blocked_candidates }) => {
                let blocked_summary = format_unresolved_dispatch_candidate_summary(&blocked_candidates);
                AutoDispatchAction::PersistApproval { completed_node_id, blocked_candidates, blocked_summary }
            },
        },
        AutoDispatchEvent::ApprovalPersisted { completed_node_id, blocked_summary, persisted } => match persisted {
            Err(e) => AutoDispatchAction::Finish(automatic_dispatch_outcome_from_error(e)),
            Ok(action_id) => AutoDispatchAction::CommitApproval { completed_node_id, blocked_summary, action_id },
        },
        AutoDispatchEvent::ApprovalCommitted { completed_node_id, blocked_summary, action_id, commit } => match commit {
            Err(e) => AutoDispatchAction::Finish(automatic_dispatch_outcome_from_error(e)),
            Ok(()) => AutoDispatchAction::EnqueueNotifications { completed_node_id, blocked_summary, action_id },
        },
        AutoDispatchEvent::NotificationsEnqueued { completed_node_id, blocked_summary, action_id, note } => {
            AutoDispatchAction::Finish(
                gate_unmet_outcome(
                    completed_node_id.as_str(),
                    blocked_summary.as_str(),
                    action_id.as_str(),
                    note.as_str(),
                ),
            )
        },
        AutoDispatchEvent::TransitionApplied { transition_id, applied } => match applied {
            Err(e) => AutoDispatchAction::Finish(automatic_dispatch_outcome_from_error(e)),
            Ok(WorkflowTransitionMutationApplyOutcome::Replayed(ev)) => AutoDispatchAction::LoadReplayedPackage(ev),
            Ok(WorkflowTransitionMutationApplyOutcome::Applied) => AutoDispatchAction::CommitTransition(transition_id),
        },
        AutoDispatchEvent::ReplayedPackageRead { transition_event, read } => {
            let handoff_package = replayed_package_outcome(read, &transition_event, database_path);
            AutoDispatchAction::Finish(WorkflowAutomaticDispatchOutcome::Replayed { transition_event, handoff_package })
        },
        AutoDispatchEvent::TransitionCommitted { transition_id, commit } => match commit {
            Err(e) => AutoDispatchAction::Finish(automatic_dispatch_outcome_from_error(e)),
            Ok(()) => AutoDispatchAction::ReadBackTransition(transition_id),
        },
        AutoDispatchEvent::TransitionReadBack { transition_id, read } => {
            match applied_transition_event(read, transition_id.as_str(), database_path) {
                Ok(ev) => AutoDispatchAction::PersistPackage(ev),
                Err(o) => AutoDispatchAction::Finish(o),
            }
        },
        AutoDispatchEvent::PackagePersisted { transition_event, persisted } => {
            let handoff_package = persisted_package_outcome(persisted, &transition_event);
            AutoDispatchAction::Finish(WorkflowAutomaticDispatchOutcome::Applied { transition_event, handoff_package })
        },
    }
}

} // verus!
