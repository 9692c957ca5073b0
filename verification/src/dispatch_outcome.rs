//! How an automatic dispatch after a workflow transition ends: which plan
//! mode it runs under, and what is reported when it is skipped, replayed or
//! applied, for the dispatch and for its handoff package.

use vstd::prelude::*;
use crate::dispatch::WorkflowAutomaticDispatchPlanModeRequirement;
use crate::error::{fault, system_fault_is, CommandError, CommandResult};
use crate::text::{cat3, cat5, own, str_eq};
use crate::workflow::{
    package_linkage_fault, validate_workflow_handoff_package_transition_linkage, WorkflowHandoffPackageRecord,
    WorkflowTransitionEventRecord,
};

verus! {

/// What became of the handoff package of an automatic dispatch.
#[derive(Debug, Clone)]
pub enum WorkflowAutomaticDispatchPackageOutcome {
    Persisted { package: WorkflowHandoffPackageRecord },
    Replayed { package: WorkflowHandoffPackageRecord },
    Skipped { code: String, message: String },
}

/// What became of an automatic dispatch.
#[derive(Debug, Clone)]
pub enum WorkflowAutomaticDispatchOutcome {
    NoContinuation,
    Applied {
        transition_event: WorkflowTransitionEventRecord,
        handoff_package: WorkflowAutomaticDispatchPackageOutcome,
    },
    Replayed {
        transition_event: WorkflowTransitionEventRecord,
        handoff_package: WorkflowAutomaticDispatchPackageOutcome,
    },
    Skipped { code: String, message: String },
}

/// Whether persisting a handoff package wrote it or found it written.
#[derive(Debug, Clone, Copy, PartialEq, Eq, Structural)]
pub enum WorkflowHandoffPackagePersistDisposition {
    Persisted,
    Replayed,
}

/// A persisted handoff package and how it was persisted.
#[derive(Debug, Clone)]
pub struct WorkflowHandoffPackagePersistResult {
    pub package: WorkflowHandoffPackageRecord,
    pub disposition: WorkflowHandoffPackagePersistDisposition,
}

/// The dispatch skipped with the error's code and message.
pub fn automatic_dispatch_outcome_from_error(error: CommandError) -> (o: WorkflowAutomaticDispatchOutcome)
    ensures
        o matches WorkflowAutomaticDispatchOutcome::Skipped { code, message } && code@ == error.code@
            && message@ == error.message@,
{
    WorkflowAutomaticDispatchOutcome::Skipped { code: error.code, message: error.message }
}

/// The package skipped with the error's code and message.
pub fn automatic_dispatch_package_outcome_from_error(error: CommandError) -> (o:
    WorkflowAutomaticDispatchPackageOutcome)
    ensures
        o matches WorkflowAutomaticDispatchPackageOutcome::Skipped { code, message } && code@ == error.code@
            && message@ == error.message@,
{
    WorkflowAutomaticDispatchPackageOutcome::Skipped { code: error.code, message: error.message }
}

/// The outcome is the package skipped with this code and message.
pub open spec fn package_skipped_is(o: WorkflowAutomaticDispatchPackageOutcome, code: Seq<char>, message: Seq<char>) -> bool {
    o matches WorkflowAutomaticDispatchPackageOutcome::Skipped { code: c, message: m } && c@ == code && m@ == message
}

/// The outcome is the package skipped for the linkage fault `f`.
pub open spec fn package_linkage_skip_is(
    o: WorkflowAutomaticDispatchPackageOutcome,
    package: WorkflowHandoffPackageRecord,
    event: WorkflowTransitionEventRecord,
) -> bool {
    let f = package_linkage_fault(package, event)->0;
    package_skipped_is(o, f.0, f.2)
}

pub open spec fn replay_missing_message(transition_id: Seq<char>, database_path: Seq<char>) -> Seq<char> {
    "Cadence replayed automatic transition `"@ + transition_id + "` in "@ + database_path
        + " but no workflow handoff package row exists for that transition."@
}

/// The package of a replayed automatic transition, from the row read for
/// it: missing, unreadable, linked to another transition, or replayed.
pub fn replayed_package_outcome(
    read: Result<Option<WorkflowHandoffPackageRecord>, CommandError>,
    transition_event: &WorkflowTransitionEventRecord,
    database_path: &str,
) -> (o: WorkflowAutomaticDispatchPackageOutcome)
    ensures
        match read {
            Err(e) => package_skipped_is(o, e.code@, e.message@),
            Ok(None) => package_skipped_is(
                o,
                "workflow_handoff_replay_not_found"@,
                replay_missing_message(transition_event.transition_id@, database_path@),
            ),
            Ok(Some(p)) => if package_linkage_fault(p, *transition_event) is Some {
                package_linkage_skip_is(o, p, *transition_event)
            } else {
                o == WorkflowAutomaticDispatchPackageOutcome::Replayed { package: p }
            },
        },
{
    let package = match read {
        Err(e) => return automatic_dispatch_package_outcome_from_error(e),
        Ok(None) => {
            let m = cat5(
                "Cadence replayed automatic transition `",
                transition_event.transition_id.as_str(),
                "` in ",
                database_path,
                " but no workflow handoff package row exists for that transition.",
            );
            return WorkflowAutomaticDispatchPackageOutcome::Skipped {
                code: own("workflow_handoff_replay_not_found"),
                message: m,
            };
        },
        Ok(Some(p)) => p,
    };
    match validate_workflow_handoff_package_transition_linkage(&package, transition_event) {
        Err(e) => automatic_dispatch_package_outcome_from_error(e),
        Ok(()) => WorkflowAutomaticDispatchPackageOutcome::Replayed { package },
    }
}

/// The package of an applied automatic transition, from the result of
/// persisting it: failed, linked to another transition, persisted or
/// replayed.
pub fn persisted_package_outcome(
    persisted: Result<WorkflowHandoffPackagePersistResult, CommandError>,
    transition_event: &WorkflowTransitionEventRecord,
) -> (o: WorkflowAutomaticDispatchPackageOutcome)
    ensures
        match persisted {
            Err(e) => package_skipped_is(o, e.code@, e.message@),
            Ok(p) => if package_linkage_fault(p.package, *transition_event) is Some {
                package_linkage_skip_is(o, p.package, *transition_event)
            } else {
                match p.disposition {
                    WorkflowHandoffPackagePersistDisposition::Persisted => o
                        == WorkflowAutomaticDispatchPackageOutcome::Persisted { package: p.package },
                    WorkflowHandoffPackagePersistDisposition::Replayed => o
                        == WorkflowAutomaticDispatchPackageOutcome::Replayed { package: p.package },
                }
            },
        },
{
    let p = match persisted {
        Err(e) => return automatic_dispatch_package_outcome_from_error(e),
        Ok(p) => p,
    };
    if let Err(e) = validate_workflow_handoff_package_transition_linkage(&p.package, transition_event) {
        return automatic_dispatch_package_outcome_from_error(e);
    }
    match p.disposition {
        WorkflowHandoffPackagePersistDisposition::Persisted => WorkflowAutomaticDispatchPackageOutcome::Persisted {
            package: p.package,
        },
        WorkflowHandoffPackagePersistDisposition::Replayed => WorkflowAutomaticDispatchPackageOutcome::Replayed {
            package: p.package,
        },
    }
}

pub open spec fn event_missing_message(transition_id: Seq<char>, database_path: Seq<char>) -> Seq<char> {
    "Cadence persisted automatic transition `"@ + transition_id + "` in "@ + database_path
        + " but could not read it back."@
}

/// The transition event read back after an automatic transition was
/// committed, or the outcome that ends the dispatch: the read failed or
/// found nothing.
pub fn applied_transition_event(
    read: Result<Option<WorkflowTransitionEventRecord>, CommandError>,
    transition_id: &str,
    database_path: &str,
) -> (r: Result<WorkflowTransitionEventRecord, WorkflowAutomaticDispatchOutcome>)
    ensures
        match read {
            Ok(Some(ev)) => r == Ok::<WorkflowTransitionEventRecord, WorkflowAutomaticDispatchOutcome>(ev),
            Ok(None) => r matches Err(WorkflowAutomaticDispatchOutcome::Skipped { code, message })
                && code@ == "workflow_transition_auto_dispatch_event_missing_after_persist"@
                && message@ == event_missing_message(transition_id@, database_path@),
            Err(e) => r matches Err(WorkflowAutomaticDispatchOutcome::Skipped { code, message }) && code@ == e.code@
                && message@ == e.message@,
        },
{
    match read {
        Ok(Some(ev)) => Ok(ev),
        Ok(None) => {
            let m = cat5(
                "Cadence persisted automatic transition `",
                transition_id,
                "` in ",
                database_path,
                " but could not read it back.",
            );
            Err(
                WorkflowAutomaticDispatchOutcome::Skipped {
                    code: own("workflow_transition_auto_dispatch_event_missing_after_persist"),
                    message: m,
                },
            )
        },
        Err(e) => Err(automatic_dispatch_outcome_from_error(e)),
    }
}

/// The plan-mode requirement of a dispatch, from whether the project has a
/// selected agent session and what its runtime-run snapshot says: unknown
/// without a session, a snapshot or a decodable one; else what the
/// snapshot's active controls require.
pub fn plan_mode_requirement_from(
    session_selected: bool,
    snapshot: Result<Option<bool>, CommandError>,
) -> (r: CommandResult<WorkflowAutomaticDispatchPlanModeRequirement>)
    ensures
        !session_selected ==> r == Ok::<WorkflowAutomaticDispatchPlanModeRequirement, CommandError>(
            WorkflowAutomaticDispatchPlanModeRequirement::Unknown,
        ),
        session_selected ==> match snapshot {
            Ok(Some(true)) => r == Ok::<WorkflowAutomaticDispatchPlanModeRequirement, CommandError>(
                WorkflowAutomaticDispatchPlanModeRequirement::Required,
            ),
            Ok(Some(false)) => r == Ok::<WorkflowAutomaticDispatchPlanModeRequirement, CommandError>(
                WorkflowAutomaticDispatchPlanModeRequirement::Disabled,
            ),
            Ok(None) => r == Ok::<WorkflowAutomaticDispatchPlanModeRequirement, CommandError>(
                WorkflowAutomaticDispatchPlanModeRequirement::Unknown,
            ),
            Err(e) => if e.code@ == "runtime_run_decode_failed"@ {
                r == Ok::<WorkflowAutomaticDispatchPlanModeRequirement, CommandError>(
                    WorkflowAutomaticDispatchPlanModeRequirement::Unknown,
                )
            } else {
                fault(r) == fault::<()>(Err(e))
            },
        },
{
    if !session_selected {
        return Ok(WorkflowAutomaticDispatchPlanModeRequirement::Unknown);
    }
    match snapshot {
        Ok(Some(required)) => if required {
            Ok(WorkflowAutomaticDispatchPlanModeRequirement::Required)
        } else {
            Ok(WorkflowAutomaticDispatchPlanModeRequirement::Disabled)
        },
        Ok(None) => Ok(WorkflowAutomaticDispatchPlanModeRequirement::Unknown),
        Err(e) => if str_eq(e.code.as_str(), "runtime_run_decode_failed") {
            Ok(WorkflowAutomaticDispatchPlanModeRequirement::Unknown)
        } else {
            Err(e)
        },
    }
}

pub open spec fn gate_unmet_message(
    completed_node_id: Seq<char>,
    blocked_summary: Seq<char>,
    action_id: Seq<char>,
    enqueue_note: Seq<char>,
) -> Seq<char> {
    "Cadence skipped automatic dispatch from `"@ + completed_node_id
        + "` because continuation edges are still blocked by unresolved gates: "@ + blocked_summary
        + ". Persisted pending operator approval `"@ + action_id + "` for deterministic replay. "@ + enqueue_note
}

/// The dispatch skipped because continuation edges wait on gates: names the
/// completed node, the blocked candidates, the pending approval persisted
/// for replay, and what became of its notifications.
pub fn gate_unmet_outcome(
    completed_node_id: &str,
    blocked_summary: &str,
    action_id: &str,
    enqueue_note: &str,
) -> (o: WorkflowAutomaticDispatchOutcome)
    ensures
        o matches WorkflowAutomaticDispatchOutcome::Skipped { code, message } && code@
            == "workflow_transition_gate_unmet"@ && message@ == gate_unmet_message(
            completed_node_id@,
            blocked_summary@,
            action_id@,
            enqueue_note@,
        ),
{
    let head = cat5(
        "Cadence skipped automatic dispatch from `",
        completed_node_id,
        "` because continuation edges are still blocked by unresolved gates: ",
        blocked_summary,
        ". Persisted pending operator approval `",
    );
    let m = cat5(head.as_str(), action_id, "` for deterministic replay. ", enqueue_note, "");
    proof {
        assert(""@ =~= Seq::<char>::empty()) by {
            reveal_strlit("");
        }
    }
    assert(m@ =~= gate_unmet_message(completed_node_id@, blocked_summary@, action_id@, enqueue_note@));
    WorkflowAutomaticDispatchOutcome::Skipped { code: own("workflow_transition_gate_unmet"), message: m }
}

pub open spec fn missing_after_replay_message(transition_id: Seq<char>, database_path: Seq<char>) -> Seq<char> {
    "Cadence replayed workflow handoff package write for transition `"@ + transition_id + "` in "@ + database_path
        + " but could not read the stored package row."@
}

pub open spec fn hash_conflict_message(
    transition_id: Seq<char>,
    stored: Seq<char>,
    derived: Seq<char>,
    database_path: Seq<char>,
) -> Seq<char> {
    "Cadence refused to overwrite replayed workflow handoff package for transition `"@ + transition_id
        + "` because stored hash `"@ + stored + "` did not match derived hash `"@ + derived + "` in "@
        + database_path + "."@
}

/// A package write that found a row already stored for its transition:
/// the stored row is replayed when its hash is the derived one; a row that
/// cannot be read back, or one with another hash, is refused.
pub fn replayed_write_outcome(
    existing: Option<WorkflowHandoffPackageRecord>,
    handoff_transition_id: &str,
    package_hash: &str,
    database_path: &str,
) -> (r: CommandResult<WorkflowHandoffPackagePersistResult>)
    ensures
        match existing {
            None => r matches Err(e) && system_fault_is(
                e,
                "workflow_handoff_missing_after_replay"@,
                missing_after_replay_message(handoff_transition_id@, database_path@),
            ),
            Some(p) => if p.package_hash@ == package_hash@ {
                r matches Ok(res) && res.package == p && res.disposition
                    == WorkflowHandoffPackagePersistDisposition::Replayed
            } else {
                r matches Err(e) && system_fault_is(
                    e,
                    "workflow_handoff_hash_conflict"@,
                    hash_conflict_message(handoff_transition_id@, p.package_hash@, package_hash@, database_path@),
                )
            },
        },
{
    let p = match existing {
        None => {
            let m = cat5(
                "Cadence replayed workflow handoff package write for transition `",
                handoff_transition_id,
                "` in ",
                database_path,
                " but could not read the stored package row.",
            );
            return Err(CommandError::system_fault("workflow_handoff_missing_after_replay", m.as_str()));
        },
        Some(p) => p,
    };
    if !str_eq(p.package_hash.as_str(), package_hash) {
        let head = cat5(
            "Cadence refused to overwrite replayed workflow handoff package for transition `",
            handoff_transition_id,
            "` because stored hash `",
            p.package_hash.as_str(),
            "` did not match derived hash `",
        );
        let m = cat5(head.as_str(), package_hash, "` in ", database_path, ".");
        return Err(CommandError::system_fault("workflow_handoff_hash_conflict", m.as_str()));
    }
    Ok(WorkflowHandoffPackagePersistResult { package: p, disposition: WorkflowHandoffPackagePersistDisposition::Replayed })
}

} // verus!
