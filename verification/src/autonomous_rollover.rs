//! What upserting an autonomous run decides before it writes: that the
//! durable runtime row is this run, which unit and attempt are open, whether
//! a superseded one may be closed and with what status, and the moment it
//! is closed at.

use vstd::prelude::*;
use crate::autonomous::{
    AutonomousRunRecord, AutonomousRunStatus, AutonomousRunUpsertRecord, AutonomousUnitAttemptRecord,
    AutonomousUnitHistoryRecord, AutonomousUnitRecord, AutonomousUnitStatus,
};
use crate::autonomous_history::{autonomous_unit_status_is_open, rollover_autonomous_unit_status, rollover_status, status_is_open};
use crate::error::{retryable_is, system_fault_is, user_fixable_is, CommandError, CommandResult};
use crate::text::{cat3, cat5, decimal, decimal_string, str_eq};

verus! {

/// The run that a project's durable runtime row points at.
#[derive(Debug, Clone)]
pub struct RuntimeRunIdentity {
    pub run_id: String,
    pub runtime_kind: String,
    pub provider_id: String,
}

pub open spec fn missing_runtime_row_message(database_path: Seq<char>) -> Seq<char> {
    "Cadence could not persist autonomous-run metadata in "@ + database_path
        + " because the selected project has no durable runtime-run row."@
}

pub open spec fn other_run_message(run_id: Seq<char>, row_run_id: Seq<char>) -> Seq<char> {
    "Cadence refused to persist autonomous-run metadata for run `"@ + run_id
        + "` because the durable runtime-run row currently points at `"@ + row_run_id + "`."@
}

pub open spec fn other_identity_message(run: AutonomousRunRecord, row: RuntimeRunIdentity) -> Seq<char> {
    "Cadence refused to persist autonomous-run metadata for run `"@ + run.run_id@
        + "` because the durable runtime-run identity is `"@ + row.provider_id@ + "`/`"@ + row.runtime_kind@
        + "` instead of `"@ + run.provider_id@ + "`/`"@ + run.runtime_kind@ + "`."@
}

/// The runtime row must exist and name this run, with the same provider
/// and runtime kind.
pub fn check_runtime_run_identity(
    run: &AutonomousRunRecord,
    runtime_row: Option<RuntimeRunIdentity>,
    database_path: &str,
) -> (r: CommandResult<()>)
    ensures
        match runtime_row {
            None => r matches Err(e) && retryable_is(
                e,
                "autonomous_run_missing_runtime_row"@,
                missing_runtime_row_message(database_path@),
            ),
            Some(row) => if row.run_id@ != run.run_id@ {
                r matches Err(e) && retryable_is(
                    e,
                    "autonomous_run_mismatch"@,
                    other_run_message(run.run_id@, row.run_id@),
                )
            } else if row.runtime_kind@ != run.runtime_kind@ || row.provider_id@ != run.provider_id@ {
                r matches Err(e) && retryable_is(e, "autonomous_run_mismatch"@, other_identity_message(*run, row))
            } else {
                r is Ok
            },
        },
{
    let row = match runtime_row {
        None => {
            let m = cat3(
                "Cadence could not persist autonomous-run metadata in ",
                database_path,
                " because the selected project has no durable runtime-run row.",
            );
            return Err(CommandError::retryable("autonomous_run_missing_runtime_row", m.as_str()));
        },
        Some(row) => row,
    };
    if !str_eq(row.run_id.as_str(), run.run_id.as_str()) {
        let m = cat5(
            "Cadence refused to persist autonomous-run metadata for run `",
            run.run_id.as_str(),
            "` because the durable runtime-run row currently points at `",
            row.run_id.as_str(),
            "`.",
        );
        return Err(CommandError::retryable("autonomous_run_mismatch", m.as_str()));
    }
    if !str_eq(row.runtime_kind.as_str(), run.runtime_kind.as_str()) || !str_eq(
        row.provider_id.as_str(),
        run.provider_id.as_str(),
    ) {
        let head = cat5(
            "Cadence refused to persist autonomous-run metadata for run `",
            run.run_id.as_str(),
            "` because the durable runtime-run identity is `",
            row.provider_id.as_str(),
            "`/`",
        );
        let mid = cat5(head.as_str(), row.runtime_kind.as_str(), "` instead of `", run.provider_id.as_str(), "`/`");
        let m = cat3(mid.as_str(), run.runtime_kind.as_str(), "`.");
        return Err(CommandError::retryable("autonomous_run_mismatch", m.as_str()));
    }
    Ok(())
}

/// The units whose status is open, in order.
pub open spec fn open_units(us: Seq<AutonomousUnitRecord>) -> Seq<AutonomousUnitRecord>
    decreases us.len(),
{
    if us.len() == 0 {
        seq![]
    } else {
        let r = open_units(us.drop_last());
        if status_is_open(us.last().status) {
            r.push(us.last())
        } else {
            r
        }
    }
}

/// The attempts whose status is open, in order.
pub open spec fn open_attempts(us: Seq<AutonomousUnitAttemptRecord>) -> Seq<AutonomousUnitAttemptRecord>
    decreases us.len(),
{
    if us.len() == 0 {
        seq![]
    } else {
        let r = open_attempts(us.drop_last());
        if status_is_open(us.last().status) {
            r.push(us.last())
        } else {
            r
        }
    }
}

pub open spec fn open_conflict_message(what: Seq<char>, run_id: Seq<char>, n: nat, database_path: Seq<char>) -> Seq<
    char,
> {
    "Cadence refused to persist autonomous "@ + what + " rollover because run `"@ + run_id + "` already has "@
        + decimal(n) + " open durable "@ + what + " rows in "@ + database_path + "."@
}

fn conflict_message(what: &str, run_id: &str, n: usize, database_path: &str) -> (m: String)
    ensures
        m@ == open_conflict_message(what@, run_id@, n as nat, database_path@),
{
    let count = decimal_string(n as u64);
    let head = cat5("Cadence refused to persist autonomous ", what, " rollover because run `", run_id, "` already has ");
    let mid = cat5(head.as_str(), count.as_str(), " open durable ", what, " rows in ");
    cat3(mid.as_str(), database_path, ".")
}

/// The one open unit of a run's units, if any; an error where more than
/// one is open.
pub fn select_open_unit(units: Vec<AutonomousUnitRecord>, run_id: &str, database_path: &str) -> (r: CommandResult<
    Option<AutonomousUnitRecord>,
>)
    ensures
        ({
            let open = open_units(units@);
            if open.len() > 1 {
                r matches Err(e) && system_fault_is(
                    e,
                    "autonomous_unit_conflict"@,
                    open_conflict_message("unit"@, run_id@, open.len(), database_path@),
                )
            } else if open.len() == 1 {
                r == Ok::<Option<AutonomousUnitRecord>, CommandError>(Some(open[0]))
            } else {
                r == Ok::<Option<AutonomousUnitRecord>, CommandError>(None)
            }
        }),
{
    let ghost src = units@;
    let n = units.len();
    let mut rest = units;
    let mut open: Vec<AutonomousUnitRecord> = Vec::new();
    let mut i: usize = 0;
    while i < n
        invariant
            n == src.len(),
            i <= n,
            rest@ == src.subrange(i as int, n as int),
            open@ == open_units(src.subrange(0, i as int)),
        decreases n - i,
    {
        let u = rest.remove(0);
        proof {
            assert(src.subrange(0, i + 1).drop_last() =~= src.subrange(0, i as int));
            assert(u == src[i as int]);
        }
        if autonomous_unit_status_is_open(&u.status) {
            open.push(u);
        }
        i = i + 1;
    }
    assert(src.subrange(0, n as int) =~= src);
    if open.len() > 1 {
        let m = conflict_message("unit", run_id, open.len(), database_path);
        return Err(CommandError::system_fault("autonomous_unit_conflict", m.as_str()));
    }
    Ok(open.pop())
}

/// The one open attempt of a run's attempts, if any; an error where more
/// than one is open.
pub fn select_open_attempt(attempts: Vec<AutonomousUnitAttemptRecord>, run_id: &str, database_path: &str) -> (r:
    CommandResult<Option<AutonomousUnitAttemptRecord>>)
    ensures
        ({
            let open = open_attempts(attempts@);
            if open.len() > 1 {
                r matches Err(e) && system_fault_is(
                    e,
                    "autonomous_unit_attempt_conflict"@,
                    open_conflict_message("attempt"@, run_id@, open.len(), database_path@),
                )
            } else if open.len() == 1 {
                r == Ok::<Option<AutonomousUnitAttemptRecord>, CommandError>(Some(open[0]))
            } else {
                r == Ok::<Option<AutonomousUnitAttemptRecord>, CommandError>(None)
            }
        }),
{
    let ghost src = attempts@;
    let n = attempts.len();
    let mut rest = attempts;
    let mut open: Vec<AutonomousUnitAttemptRecord> = Vec::new();
    let mut i: usize = 0;
    while i < n
        invariant
            n == src.len(),
            i <= n,
            rest@ == src.subrange(i as int, n as int),
            open@ == open_attempts(src.subrange(0, i as int)),
        decreases n - i,
    {
        let a = rest.remove(0);
        proof {
            assert(src.subrange(0, i + 1).drop_last() =~= src.subrange(0, i as int));
            assert(a == src[i as int]);
        }
        if autonomous_unit_status_is_open(&a.status) {
            open.push(a);
        }
        i = i + 1;
    }
    assert(src.subrange(0, n as int) =~= src);
    if open.len() > 1 {
        let m = conflict_message("attempt", run_id, open.len(), database_path);
        return Err(CommandError::system_fault("autonomous_unit_attempt_conflict", m.as_str()));
    }
    Ok(open.pop())
}

pub open spec fn boundary_drift_message(what: Seq<char>, existing: Seq<char>, incoming: Seq<char>, boundary: Seq<char>) -> Seq<
    char,
> {
    "Cadence refused to roll durable autonomous "@ + what + " `"@ + existing + "` to `"@ + incoming
        + "` because the existing "@ + what + " is still attached to boundary `"@ + boundary + "`."@
}

fn boundary_message(what: &str, existing: &str, incoming: &str, boundary: &str) -> (m: String)
    ensures
        m@ == boundary_drift_message(what@, existing@, incoming@, boundary@),
{
    let head = cat5("Cadence refused to roll durable autonomous ", what, " `", existing, "` to `");
    let mid = cat5(head.as_str(), incoming, "` because the existing ", what, " is still attached to boundary `");
    cat3(mid.as_str(), boundary, "`.")
}

/// Whether the open unit is superseded by the incoming one and closed, and
/// with what status: a different unit is closed as its run's status says,
/// unless it is still attached to a boundary.
pub fn plan_unit_rollover(
    existing: Option<&AutonomousUnitRecord>,
    incoming: &AutonomousUnitRecord,
    run_status: &AutonomousRunStatus,
) -> (r: CommandResult<Option<AutonomousUnitStatus>>)
    ensures
        match existing {
            None => r == Ok::<Option<AutonomousUnitStatus>, CommandError>(None),
            Some(u) => if u.unit_id@ == incoming.unit_id@ {
                r == Ok::<Option<AutonomousUnitStatus>, CommandError>(None)
            } else {
                match u.boundary_id {
                    Some(b) => r matches Err(e) && user_fixable_is(
                        e,
                        "autonomous_unit_boundary_drift"@,
                        boundary_drift_message("unit"@, u.unit_id@, incoming.unit_id@, b@),
                    ),
                    None => r == Ok::<Option<AutonomousUnitStatus>, CommandError>(Some(rollover_status(*run_status))),
                }
            },
        },
{
    let u = match existing {
        None => return Ok(None),
        Some(u) => u,
    };
    if str_eq(u.unit_id.as_str(), incoming.unit_id.as_str()) {
        return Ok(None);
    }
    match &u.boundary_id {
        Some(b) => {
            let m = boundary_message("unit", u.unit_id.as_str(), incoming.unit_id.as_str(), b.as_str());
            Err(CommandError::user_fixable("autonomous_unit_boundary_drift", m.as_str()))
        },
        None => Ok(Some(rollover_autonomous_unit_status(run_status))),
    }
}

/// Whether the open attempt is superseded by the incoming one and closed,
/// and with what status; nothing closes where either is absent.
pub fn plan_attempt_rollover(
    existing: Option<&AutonomousUnitAttemptRecord>,
    incoming: Option<&AutonomousUnitAttemptRecord>,
    run_status: &AutonomousRunStatus,
) -> (r: CommandResult<Option<AutonomousUnitStatus>>)
    ensures
        match (existing, incoming) {
            (Some(a), Some(n)) => if a.attempt_id@ == n.attempt_id@ {
                r == Ok::<Option<AutonomousUnitStatus>, CommandError>(None)
            } else {
                match a.boundary_id {
                    Some(b) => r matches Err(e) && user_fixable_is(
                        e,
                        "autonomous_unit_attempt_boundary_drift"@,
                        boundary_drift_message("attempt"@, a.attempt_id@, n.attempt_id@, b@),
                    ),
                    None => r == Ok::<Option<AutonomousUnitStatus>, CommandError>(Some(rollover_status(*run_status))),
                }
            },
            _ => r == Ok::<Option<AutonomousUnitStatus>, CommandError>(None),
        },
{
    let a = match existing {
        None => return Ok(None),
        Some(a) => a,
    };
    let n = match incoming {
        None => return Ok(None),
        Some(n) => n,
    };
    if str_eq(a.attempt_id.as_str(), n.attempt_id.as_str()) {
        return Ok(None);
    }
    match &a.boundary_id {
        Some(b) => {
            let m = boundary_message("attempt", a.attempt_id.as_str(), n.attempt_id.as_str(), b.as_str());
            Err(CommandError::user_fixable("autonomous_unit_attempt_boundary_drift", m.as_str()))
        },
        None => Ok(Some(rollover_autonomous_unit_status(run_status))),
    }
}

/// The moment superseded rows are closed at: the incoming attempt's start,
/// else the incoming unit's start, else the run's update time.
pub open spec fn rollover_moment(payload: AutonomousRunUpsertRecord) -> Seq<char> {
    match payload.attempt {
        Some(a) => a.started_at@,
        None => match payload.unit {
            Some(u) => u.started_at@,
            None => payload.run.updated_at@,
        },
    }
}

pub fn rollover_timestamp(payload: &AutonomousRunUpsertRecord) -> (r: &str)
    ensures
        r@ == rollover_moment(*payload),
{
    match &payload.attempt {
        Some(a) => a.started_at.as_str(),
        None => match &payload.unit {
            Some(u) => u.started_at.as_str(),
            None => payload.run.updated_at.as_str(),
        },
    }
}

/// A unit that is being worked on, or waits on work: active, blocked or
/// paused.
pub open spec fn in_flight(s: AutonomousUnitStatus) -> bool {
    s is Active || s is Blocked || s is Paused
}

/// The position of the first in-flight entry of `h`.
pub open spec fn first_in_flight(h: Seq<AutonomousUnitHistoryRecord>) -> Option<int>
    decreases h.len(),
{
    if h.len() == 0 {
        None
    } else {
        match first_in_flight(h.drop_last()) {
            Some(i) => Some(i),
            None => if in_flight(h.last().unit.status) {
                Some(h.len() - 1)
            } else {
                None
            },
        }
    }
}

/// The history entry a run's snapshot shows as its current unit: the first
/// in-flight one, else the first one; none for an empty history.
pub open spec fn current_entry(h: Seq<AutonomousUnitHistoryRecord>) -> Option<int> {
    match first_in_flight(h) {
        Some(i) => Some(i),
        None => if h.len() > 0 {
            Some(0)
        } else {
            None
        },
    }
}

fn find_in_flight(history: &Vec<AutonomousUnitHistoryRecord>) -> (r: Option<usize>)
    ensures
        match first_in_flight(history@) {
            Some(i) => r == Some(i as usize),
            None => r is None,
        },
{
    let mut i: usize = 0;
    while i < history.len()
        invariant
            i <= history.len(),
            first_in_flight(history@.subrange(0, i as int)) is None,
        decreases history.len() - i,
    {
        proof {
            assert(history@.subrange(0, i + 1).drop_last() =~= history@.subrange(0, i as int));
        }
        let st = history[i].unit.status;
        if matches!(st, AutonomousUnitStatus::Active | AutonomousUnitStatus::Blocked | AutonomousUnitStatus::Paused) {
            proof {
                lemma_first_in_flight_prefix(history@, i as int + 1);
            }
            return Some(i);
        }
        i = i + 1;
    }
    proof {
        assert(history@.subrange(0, history@.len() as int) =~= history@);
    }
    None
}

proof fn lemma_first_in_flight_range(h: Seq<AutonomousUnitHistoryRecord>)
    ensures
        first_in_flight(h) matches Some(i) ==> 0 <= i < h.len(),
    decreases h.len(),
{
    if h.len() > 0 {
        lemma_first_in_flight_range(h.drop_last());
    }
}

proof fn lemma_first_in_flight_prefix(h: Seq<AutonomousUnitHistoryRecord>, n: int)
    requires
        0 < n <= h.len(),
        first_in_flight(h.subrange(0, n)) is Some,
    ensures
        first_in_flight(h) == first_in_flight(h.subrange(0, n)),
    decreases h.len(),
{
    if n < h.len() {
        assert(h.drop_last().subrange(0, n) =~= h.subrange(0, n));
        lemma_first_in_flight_prefix(h.drop_last(), n);
    } else {
        assert(h.subrange(0, n) =~= h);
    }
}

/// The first entry of `h` for unit `unit_id`, whose latest attempt the
/// snapshot shows.
pub open spec fn first_entry_of(h: Seq<AutonomousUnitHistoryRecord>, unit_id: Seq<char>, i: int) -> bool {
    &&& 0 <= i < h.len()
    &&& h[i].unit.unit_id@ == unit_id
    &&& forall|j: int| 0 <= j < i ==> (#[trigger] h[j]).unit.unit_id@ != unit_id
}

pub open spec fn sequence_mismatch_message(active: u32, unit_id: Seq<char>, sequence: u32) -> Seq<char> {
    "Autonomous run active_unit_sequence "@ + decimal(active as nat) + " does not match durable unit `"@ + unit_id
        + "` sequence "@ + decimal(sequence as nat) + "."@
}

/// Which history entries a run's snapshot shows: the position of its
/// current unit and the position whose latest attempt is its attempt (the
/// first entry of that unit); an error where the run's active unit sequence
/// names another unit.
pub fn select_snapshot_entries(run: &AutonomousRunRecord, history: &Vec<AutonomousUnitHistoryRecord>) -> (r: Result<
    Option<(usize, usize)>,
    String,
>)
    ensures
        match current_entry(history@) {
            None => r == Ok::<Option<(usize, usize)>, String>(None),
            Some(i) => {
                let u = history@[i].unit;
                match run.active_unit_sequence {
                    Some(a) => if a != u.sequence {
                        r matches Err(m) && m@ == sequence_mismatch_message(a, u.unit_id@, u.sequence)
                    } else {
                        r matches Ok(Some((ci, ai))) && ci == i && first_entry_of(history@, u.unit_id@, ai as int)
                    },
                    None => r matches Ok(Some((ci, ai))) && ci == i && first_entry_of(history@, u.unit_id@, ai as int),
                }
            },
        },
{
    proof {
        lemma_first_in_flight_range(history@);
        assert(history@.len() == history.len());
    }
    let ci: usize = match find_in_flight(history) {
        Some(k) => {
            assert(first_in_flight(history@) == Some(k as int));
            k
        },
        None => {
            assert(first_in_flight(history@) is None);
            if history.len() == 0 {
                return Ok(None);
            }
            0
        },
    };
    assert(current_entry(history@) == Some(ci as int));
    let u = &history[ci].unit;
    assert(*u == history@[ci as int].unit);
    if let Some(a) = run.active_unit_sequence {
        if a != u.sequence {
            let head = cat3("Autonomous run active_unit_sequence ", decimal_string(a as u64).as_str(), " does not match durable unit `");
            let m = cat5(head.as_str(), u.unit_id.as_str(), "` sequence ", decimal_string(u.sequence as u64).as_str(), ".");
            assert(m@ =~= sequence_mismatch_message(a, u.unit_id@, u.sequence));
            return Err(m);
        }
    }
    let mut j: usize = 0;
    while j < ci && !str_eq(history[j].unit.unit_id.as_str(), u.unit_id.as_str())
        invariant
            j <= ci < history.len(),
            u == &history@[ci as int].unit,
            forall|k: int| 0 <= k < j ==> (#[trigger] history@[k]).unit.unit_id@ != u.unit_id@,
        decreases ci - j,
    {
        j = j + 1;
    }
    Ok(Some((ci, j)))
}

} // verus!
