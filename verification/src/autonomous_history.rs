//! The per-unit history of an autonomous run, rebuilt from its durable unit,
//! attempt and artifact rows, and the consistency rules those rows obey.

use vstd::prelude::*;
use crate::autonomous::{
    AutonomousRunStatus, AutonomousUnitArtifactRecord, AutonomousUnitAttemptRecord,
    AutonomousUnitHistoryRecord, AutonomousUnitRecord, AutonomousUnitStatus,
    AutonomousWorkflowLinkageRecord, AutonomousRunRecord,
};
use crate::autonomous_rules::same_linkage;
use crate::text::{
    cat3, cat5, chars_of, decimal, decimal_string, owned_text, str_eq, text_less, text_less_exec,
    lemma_text_less_irreflexive,
};

verus! {

/// Pending, active, blocked and paused rows are open: work may still happen
/// on them.
pub open spec fn status_is_open(s: AutonomousUnitStatus) -> bool {
    s is Pending || s is Active || s is Blocked || s is Paused
}

pub fn autonomous_unit_status_is_open(status: &AutonomousUnitStatus) -> (r: bool)
    ensures
        r == status_is_open(*status),
{
    matches!(
        status,
        AutonomousUnitStatus::Pending | AutonomousUnitStatus::Active | AutonomousUnitStatus::Blocked
            | AutonomousUnitStatus::Paused
    )
}

/// The status an open unit is closed with when its run ends in `s`.
pub open spec fn rollover_status(s: AutonomousRunStatus) -> AutonomousUnitStatus {
    match s {
        AutonomousRunStatus::Cancelled => AutonomousUnitStatus::Cancelled,
        AutonomousRunStatus::Failed | AutonomousRunStatus::Crashed => AutonomousUnitStatus::Failed,
        _ => AutonomousUnitStatus::Completed,
    }
}

pub fn rollover_autonomous_unit_status(run_status: &AutonomousRunStatus) -> (r: AutonomousUnitStatus)
    ensures
        r == rollover_status(*run_status),
{
    match run_status {
        AutonomousRunStatus::Cancelled => AutonomousUnitStatus::Cancelled,
        AutonomousRunStatus::Failed | AutonomousRunStatus::Crashed => AutonomousUnitStatus::Failed,
        _ => AutonomousUnitStatus::Completed,
    }
}

/// A unit closed by rollover is never left open.
pub proof fn law_rollover_closes_units(s: AutonomousRunStatus)
    ensures
        !status_is_open(rollover_status(s)),
{
}

// ------------------------------------------------------------------ counts

/// How many units are active (`open == false`) or open (`open == true`).
pub open spec fn unit_count(units: Seq<AutonomousUnitRecord>, open: bool) -> nat
    decreases units.len(),
{
    if units.len() == 0 {
        0
    } else {
        let s = units.last().status;
        unit_count(units.drop_last(), open) + if (open && status_is_open(s)) || (!open && s is Active) {
            1nat
        } else {
            0nat
        }
    }
}

/// How many attempts are active (`open == false`) or open (`open == true`).
pub open spec fn attempt_count(attempts: Seq<AutonomousUnitAttemptRecord>, open: bool) -> nat
    decreases attempts.len(),
{
    if attempts.len() == 0 {
        0
    } else {
        let s = attempts.last().status;
        attempt_count(attempts.drop_last(), open) + if (open && status_is_open(s)) || (!open
            && s is Active) {
            1nat
        } else {
            0nat
        }
    }
}

fn count_units(units: &Vec<AutonomousUnitRecord>, open: bool) -> (n: usize)
    ensures
        n == unit_count(units@, open),
{
    let mut n: usize = 0;
    let mut i: usize = 0;
    while i < units.len()
        invariant
            i <= units.len(),
            n == unit_count(units@.subrange(0, i as int), open),
            n <= i,
        decreases units.len() - i,
    {
        proof {
            assert(units@.subrange(0, i + 1).drop_last() =~= units@.subrange(0, i as int));
        }
        let s = &units[i].status;
        if (open && autonomous_unit_status_is_open(s)) || (!open && matches!(s, AutonomousUnitStatus::Active)) {
            n = n + 1;
        }
        i = i + 1;
    }
    assert(units@.subrange(0, units@.len() as int) =~= units@);
    n
}

fn count_attempts(attempts: &Vec<AutonomousUnitAttemptRecord>, open: bool) -> (n: usize)
    ensures
        n == attempt_count(attempts@, open),
{
    let mut n: usize = 0;
    let mut i: usize = 0;
    while i < attempts.len()
        invariant
            i <= attempts.len(),
            n == attempt_count(attempts@.subrange(0, i as int), open),
            n <= i,
        decreases attempts.len() - i,
    {
        proof {
            assert(attempts@.subrange(0, i + 1).drop_last() =~= attempts@.subrange(0, i as int));
        }
        let s = &attempts[i].status;
        if (open && autonomous_unit_status_is_open(s)) || (!open && matches!(s, AutonomousUnitStatus::Active)) {
            n = n + 1;
        }
        i = i + 1;
    }
    assert(attempts@.subrange(0, attempts@.len() as int) =~= attempts@);
    n
}

} // verus!

verus! {

// ----------------------------------------------------------- latest attempts

/// `a` sorts after `b`: a higher attempt number, then a later update time,
/// then a greater attempt id.
pub open spec fn attempt_after(a: AutonomousUnitAttemptRecord, b: AutonomousUnitAttemptRecord) -> bool {
    ||| a.attempt_number > b.attempt_number
    ||| (a.attempt_number == b.attempt_number && text_less(b.updated_at@, a.updated_at@))
    ||| (a.attempt_number == b.attempt_number && b.updated_at@ == a.updated_at@ && text_less(
        b.attempt_id@,
        a.attempt_id@,
    ))
}

/// The latest of `s`: the first attempt after which no other sorts.
pub open spec fn latest_attempt(s: Seq<AutonomousUnitAttemptRecord>) -> Option<AutonomousUnitAttemptRecord>
    decreases s.len(),
{
    if s.len() == 0 {
        None
    } else {
        match latest_attempt(s.drop_last()) {
            None => Some(s.last()),
            Some(b) => if attempt_after(s.last(), b) {
                Some(s.last())
            } else {
                Some(b)
            },
        }
    }
}

/// The attempts of `s` that belong to unit `id` (`keep`), or the others.
pub open spec fn attempts_for_unit(s: Seq<AutonomousUnitAttemptRecord>, id: Seq<char>, keep: bool) -> Seq<
    AutonomousUnitAttemptRecord,
>
    decreases s.len(),
{
    if s.len() == 0 {
        s
    } else {
        let r = attempts_for_unit(s.drop_last(), id, keep);
        if (s.last().unit_id@ == id) == keep {
            r.push(s.last())
        } else {
            r
        }
    }
}

/// The artifacts of `s` recorded by attempt `id` (`keep`), or the others.
pub open spec fn artifacts_for_attempt(s: Seq<AutonomousUnitArtifactRecord>, id: Seq<char>, keep: bool) -> Seq<
    AutonomousUnitArtifactRecord,
>
    decreases s.len(),
{
    if s.len() == 0 {
        s
    } else {
        let r = artifacts_for_attempt(s.drop_last(), id, keep);
        if (s.last().attempt_id@ == id) == keep {
            r.push(s.last())
        } else {
            r
        }
    }
}

fn attempt_after_exec(a: &AutonomousUnitAttemptRecord, b: &AutonomousUnitAttemptRecord) -> (r: bool)
    ensures
        r == attempt_after(*a, *b),
{
    if a.attempt_number != b.attempt_number {
        return a.attempt_number > b.attempt_number;
    }
    if !str_eq(a.updated_at.as_str(), b.updated_at.as_str()) {
        return text_less_exec(b.updated_at.as_str(), a.updated_at.as_str());
    }
    proof {
        lemma_text_less_irreflexive(a.updated_at@);
    }
    text_less_exec(b.attempt_id.as_str(), a.attempt_id.as_str())
}

fn pick_latest(v: Vec<AutonomousUnitAttemptRecord>) -> (r: Option<AutonomousUnitAttemptRecord>)
    ensures
        r == latest_attempt(v@),
{
    let ghost all = v@;
    let n = v.len();
    let mut rest = v;
    let mut best: Option<AutonomousUnitAttemptRecord> = None;
    let mut i: usize = 0;
    while i < n
        invariant
            n == all.len(),
            i <= n,
            rest@ == all.subrange(i as int, n as int),
            best == latest_attempt(all.subrange(0, i as int)),
        decreases n - i,
    {
        let a = rest.remove(0);
        proof {
            assert(all.subrange(0, i + 1).drop_last() =~= all.subrange(0, i as int));
            assert(a == all[i as int]);
        }
        best = match best {
            None => Some(a),
            Some(b) => if attempt_after_exec(&a, &b) {
                Some(a)
            } else {
                Some(b)
            },
        };
        i = i + 1;
    }
    assert(all.subrange(0, n as int) =~= all);
    best
}

fn split_attempts(v: Vec<AutonomousUnitAttemptRecord>, id: &str) -> (r: (
    Vec<AutonomousUnitAttemptRecord>,
    Vec<AutonomousUnitAttemptRecord>,
))
    ensures
        r.0@ == attempts_for_unit(v@, id@, true),
        r.1@ == attempts_for_unit(v@, id@, false),
{
    let ghost all = v@;
    let n = v.len();
    let mut rest = v;
    let mut mine: Vec<AutonomousUnitAttemptRecord> = Vec::new();
    let mut others: Vec<AutonomousUnitAttemptRecord> = Vec::new();
    let mut i: usize = 0;
    while i < n
        invariant
            n == all.len(),
            i <= n,
            rest@ == all.subrange(i as int, n as int),
            mine@ == attempts_for_unit(all.subrange(0, i as int), id@, true),
            others@ == attempts_for_unit(all.subrange(0, i as int), id@, false),
        decreases n - i,
    {
        let a = rest.remove(0);
        proof {
            assert(all.subrange(0, i + 1).drop_last() =~= all.subrange(0, i as int));
            assert(a == all[i as int]);
        }
        if str_eq(a.unit_id.as_str(), id) {
            mine.push(a);
        } else {
            others.push(a);
        }
        i = i + 1;
    }
    assert(all.subrange(0, n as int) =~= all);
    (mine, others)
}

fn split_artifacts(v: Vec<AutonomousUnitArtifactRecord>, id: &str) -> (r: (
    Vec<AutonomousUnitArtifactRecord>,
    Vec<AutonomousUnitArtifactRecord>,
))
    ensures
        r.0@ == artifacts_for_attempt(v@, id@, true),
        r.1@ == artifacts_for_attempt(v@, id@, false),
{
    let ghost all = v@;
    let n = v.len();
    let mut rest = v;
    let mut mine: Vec<AutonomousUnitArtifactRecord> = Vec::new();
    let mut others: Vec<AutonomousUnitArtifactRecord> = Vec::new();
    let mut i: usize = 0;
    while i < n
        invariant
            n == all.len(),
            i <= n,
            rest@ == all.subrange(i as int, n as int),
            mine@ == artifacts_for_attempt(all.subrange(0, i as int), id@, true),
            others@ == artifacts_for_attempt(all.subrange(0, i as int), id@, false),
        decreases n - i,
    {
        let a = rest.remove(0);
        proof {
            assert(all.subrange(0, i + 1).drop_last() =~= all.subrange(0, i as int));
            assert(a == all[i as int]);
        }
        if str_eq(a.attempt_id.as_str(), id) {
            mine.push(a);
        } else {
            others.push(a);
        }
        i = i + 1;
    }
    assert(all.subrange(0, n as int) =~= all);
    (mine, others)
}

} // verus!

verus! {

// ---------------------------------------------------------------- histories

/// A unit, its latest attempt and that attempt's artifacts.
pub type UnitHistory = (
    AutonomousUnitRecord,
    Option<AutonomousUnitAttemptRecord>,
    Seq<AutonomousUnitArtifactRecord>,
);

/// Why a unit and its latest attempt disagree on workflow linkage.
pub open spec fn linkage_mismatch(u: AutonomousUnitRecord, t: Option<AutonomousUnitAttemptRecord>) -> Option<
    Seq<char>,
> {
    match t {
        None => None,
        Some(t) => match (u.workflow_linkage, t.workflow_linkage) {
            (None, None) => None,
            (Some(a), Some(b)) => if same_linkage(a, b) {
                None
            } else {
                Some(
                    "Autonomous attempt `"@ + t.attempt_id@
                        + "` workflow linkage does not match parent unit `"@ + u.unit_id@
                        + "` linkage."@,
                )
            },
            (None, Some(_)) => Some(
                "Autonomous attempt `"@ + t.attempt_id@
                    + "` retained workflow linkage while parent unit `"@ + u.unit_id@
                    + "` did not."@,
            ),
            (Some(_), None) => Some(
                "Autonomous attempt `"@ + t.attempt_id@
                    + "` is missing workflow linkage while parent unit `"@ + u.unit_id@
                    + "` retained durable linkage."@,
            ),
        },
    }
}

/// `d` followed by the histories of `r`, or the error of `r`.
pub open spec fn after(d: Seq<UnitHistory>, r: Result<Seq<UnitHistory>, Seq<char>>) -> Result<
    Seq<UnitHistory>,
    Seq<char>,
> {
    match r {
        Ok(h) => Ok(d + h),
        Err(m) => Err(m),
    }
}

/// Unit by unit: the first unit of an id takes the attempts of that id and
/// keeps the latest; that attempt takes the artifacts recorded under its id
/// that no earlier unit took.
pub open spec fn histories(
    units: Seq<AutonomousUnitRecord>,
    atts: Seq<AutonomousUnitAttemptRecord>,
    arts: Seq<AutonomousUnitArtifactRecord>,
) -> Result<Seq<UnitHistory>, Seq<char>>
    decreases units.len(),
{
    if units.len() == 0 {
        Ok(seq![])
    } else {
        let u = units[0];
        let latest = latest_attempt(attempts_for_unit(atts, u.unit_id@, true));
        match linkage_mismatch(u, latest) {
            Some(m) => Err(m),
            None => {
                let mine = match latest {
                    Some(t) => artifacts_for_attempt(arts, t.attempt_id@, true),
                    None => seq![],
                };
                let rest = match latest {
                    Some(t) => artifacts_for_attempt(arts, t.attempt_id@, false),
                    None => arts,
                };
                after(
                    seq![(u, latest, mine)],
                    histories(units.drop_first(), attempts_for_unit(atts, u.unit_id@, false), rest),
                )
            },
        }
    }
}

/// Some unit has id `id`.
pub open spec fn unit_known(units: Seq<AutonomousUnitRecord>, id: Seq<char>) -> bool {
    exists|i: int| 0 <= i < units.len() && units[i].unit_id@ == id
}

/// Some attempt of unit `unit_id` has id `attempt_id`.
pub open spec fn attempt_known(
    atts: Seq<AutonomousUnitAttemptRecord>,
    unit_id: Seq<char>,
    attempt_id: Seq<char>,
) -> bool {
    exists|i: int| 0 <= i < atts.len() && atts[i].unit_id@ == unit_id && atts[i].attempt_id@ == attempt_id
}

/// The first attempt, in order, whose unit is missing.
pub open spec fn orphan_attempt(
    units: Seq<AutonomousUnitRecord>,
    atts: Seq<AutonomousUnitAttemptRecord>,
    run_id: Seq<char>,
) -> Option<Seq<char>>
    decreases atts.len(),
{
    if atts.len() == 0 {
        None
    } else if !unit_known(units, atts[0].unit_id@) {
        Some(
            "Autonomous attempt `"@ + atts[0].attempt_id@ + "` points at missing durable unit `"@
                + atts[0].unit_id@ + "` for run `"@ + run_id + "`."@,
        )
    } else {
        orphan_attempt(units, atts.drop_first(), run_id)
    }
}

/// The first artifact, in order, whose unit or attempt is missing.
pub open spec fn orphan_artifact(
    units: Seq<AutonomousUnitRecord>,
    atts: Seq<AutonomousUnitAttemptRecord>,
    arts: Seq<AutonomousUnitArtifactRecord>,
    run_id: Seq<char>,
) -> Option<Seq<char>>
    decreases arts.len(),
{
    if arts.len() == 0 {
        None
    } else if !unit_known(units, arts[0].unit_id@) {
        Some(
            "Autonomous artifact `"@ + arts[0].artifact_id@
                + "` points at missing durable unit `"@ + arts[0].unit_id@ + "` for run `"@ + run_id
                + "`."@,
        )
    } else if !attempt_known(atts, arts[0].unit_id@, arts[0].attempt_id@) {
        Some(
            "Autonomous artifact `"@ + arts[0].artifact_id@
                + "` points at missing durable attempt `"@ + arts[0].attempt_id@ + "` for unit `"@
                + arts[0].unit_id@ + "`."@,
        )
    } else {
        orphan_artifact(units, atts, arts.drop_first(), run_id)
    }
}

/// The history of a run's rows, or the message of the first inconsistency.
pub open spec fn unit_history(
    run_id: Seq<char>,
    units: Seq<AutonomousUnitRecord>,
    atts: Seq<AutonomousUnitAttemptRecord>,
    arts: Seq<AutonomousUnitArtifactRecord>,
) -> Result<Seq<UnitHistory>, Seq<char>> {
    let head = "Autonomous run `"@ + run_id + "` has "@;
    if units.len() == 0 {
        Err("Autonomous run `"@ + run_id + "` has no durable unit ledger rows."@)
    } else if unit_count(units, false) > 1 {
        Err(head + decimal(unit_count(units, false)) + " active unit rows; expected at most one."@)
    } else if unit_count(units, true) > 1 {
        Err(
            head + decimal(unit_count(units, true))
                + " open unit rows; expected at most one active, blocked, paused, or pending row."@,
        )
    } else if attempt_count(atts, false) > 1 {
        Err(head + decimal(attempt_count(atts, false)) + " active attempt rows; expected at most one."@)
    } else if attempt_count(atts, true) > 1 {
        Err(
            head + decimal(attempt_count(atts, true))
                + " open attempt rows; expected at most one active, blocked, paused, or pending row."@,
        )
    } else if orphan_attempt(units, atts, run_id) is Some {
        Err(orphan_attempt(units, atts, run_id)->0)
    } else if orphan_artifact(units, atts, arts, run_id) is Some {
        Err(orphan_artifact(units, atts, arts, run_id)->0)
    } else {
        histories(units, atts, arts)
    }
}

/// The records of `v` are the histories `h`.
pub open spec fn history_is(v: Seq<AutonomousUnitHistoryRecord>, h: Seq<UnitHistory>) -> bool {
    &&& v.len() == h.len()
    &&& forall|i: int| 0 <= i < v.len() ==> {
        &&& (#[trigger] v[i]).unit == h[i].0
        &&& v[i].latest_attempt == h[i].1
        &&& v[i].artifacts@ == h[i].2
    }
}

fn unit_known_exec(units: &Vec<AutonomousUnitRecord>, id: &str) -> (r: bool)
    ensures
        r == unit_known(units@, id@),
{
    let mut i: usize = 0;
    while i < units.len()
        invariant
            i <= units.len(),
            forall|k: int| 0 <= k < i ==> units@[k].unit_id@ != id@,
        decreases units.len() - i,
    {
        if str_eq(units[i].unit_id.as_str(), id) {
            return true;
        }
        i = i + 1;
    }
    false
}

fn attempt_known_exec(atts: &Vec<AutonomousUnitAttemptRecord>, unit_id: &str, attempt_id: &str) -> (r:
    bool)
    ensures
        r == attempt_known(atts@, unit_id@, attempt_id@),
{
    let mut i: usize = 0;
    while i < atts.len()
        invariant
            i <= atts.len(),
            forall|k: int| 0 <= k < i ==> !(atts@[k].unit_id@ == unit_id@ && atts@[k].attempt_id@ == attempt_id@),
        decreases atts.len() - i,
    {
        if str_eq(atts[i].unit_id.as_str(), unit_id) && str_eq(atts[i].attempt_id.as_str(), attempt_id) {
            return true;
        }
        i = i + 1;
    }
    false
}

fn find_orphan_attempt(
    units: &Vec<AutonomousUnitRecord>,
    atts: &Vec<AutonomousUnitAttemptRecord>,
    run_id: &str,
) -> (r: Option<String>)
    ensures
        owned_text(r) == orphan_attempt(units@, atts@, run_id@),
{
    let n = atts.len();
    let mut i: usize = 0;
    proof {
        assert(atts@.subrange(0, n as int) =~= atts@);
    }
    while i < n
        invariant
            n == atts.len(),
            i <= n,
            orphan_attempt(units@, atts@, run_id@) == orphan_attempt(
                units@,
                atts@.subrange(i as int, n as int),
                run_id@,
            ),
        decreases n - i,
    {
        proof {
            assert(atts@.subrange(i as int, n as int).drop_first() =~= atts@.subrange(i + 1, n as int));
        }
        let t = &atts[i];
        if !unit_known_exec(units, t.unit_id.as_str()) {
            let head = cat3("Autonomous attempt `", t.attempt_id.as_str(), "` points at missing durable unit `");
            let m = cat5(head.as_str(), t.unit_id.as_str(), "` for run `", run_id, "`.");
            return Some(m);
        }
        i = i + 1;
    }
    None
}

fn find_orphan_artifact(
    units: &Vec<AutonomousUnitRecord>,
    atts: &Vec<AutonomousUnitAttemptRecord>,
    arts: &Vec<AutonomousUnitArtifactRecord>,
    run_id: &str,
) -> (r: Option<String>)
    ensures
        owned_text(r) == orphan_artifact(units@, atts@, arts@, run_id@),
{
    let n = arts.len();
    let mut i: usize = 0;
    proof {
        assert(arts@.subrange(0, n as int) =~= arts@);
    }
    while i < n
        invariant
            n == arts.len(),
            i <= n,
            orphan_artifact(units@, atts@, arts@, run_id@) == orphan_artifact(
                units@,
                atts@,
                arts@.subrange(i as int, n as int),
                run_id@,
            ),
        decreases n - i,
    {
        proof {
            assert(arts@.subrange(i as int, n as int).drop_first() =~= arts@.subrange(i + 1, n as int));
        }
        let a = &arts[i];
        if !unit_known_exec(units, a.unit_id.as_str()) {
            let head = cat3("Autonomous artifact `", a.artifact_id.as_str(), "` points at missing durable unit `");
            let m = cat5(head.as_str(), a.unit_id.as_str(), "` for run `", run_id, "`.");
            return Some(m);
        }
        if !attempt_known_exec(atts, a.unit_id.as_str(), a.attempt_id.as_str()) {
            let head = cat3(
                "Autonomous artifact `",
                a.artifact_id.as_str(),
                "` points at missing durable attempt `",
            );
            let m = cat5(head.as_str(), a.attempt_id.as_str(), "` for unit `", a.unit_id.as_str(), "`.");
            return Some(m);
        }
        i = i + 1;
    }
    None
}

fn check_linkage(u: &AutonomousUnitRecord, t: &Option<AutonomousUnitAttemptRecord>) -> (r: Option<String>)
    ensures
        owned_text(r) == linkage_mismatch(*u, *t),
{
    match t {
        None => None,
        Some(t) => match (&u.workflow_linkage, &t.workflow_linkage) {
            (None, None) => None,
            (Some(a), Some(b)) => {
                if same_linkage_exec(a, b) {
                    None
                } else {
                    let head = cat3(
                        "Autonomous attempt `",
                        t.attempt_id.as_str(),
                        "` workflow linkage does not match parent unit `",
                    );
                    Some(cat3(head.as_str(), u.unit_id.as_str(), "` linkage."))
                }
            },
            (None, Some(_)) => {
                let head = cat3(
                    "Autonomous attempt `",
                    t.attempt_id.as_str(),
                    "` retained workflow linkage while parent unit `",
                );
                Some(cat3(head.as_str(), u.unit_id.as_str(), "` did not."))
            },
            (Some(_), None) => {
                let head = cat3(
                    "Autonomous attempt `",
                    t.attempt_id.as_str(),
                    "` is missing workflow linkage while parent unit `",
                );
                Some(cat3(head.as_str(), u.unit_id.as_str(), "` retained durable linkage."))
            },
        },
    }
}

fn same_linkage_exec(a: &AutonomousWorkflowLinkageRecord, b: &AutonomousWorkflowLinkageRecord) -> (r: bool)
    ensures
        r == same_linkage(*a, *b),
{
    let causal = match (&a.causal_transition_id, &b.causal_transition_id) {
        (Some(x), Some(y)) => str_eq(x.as_str(), y.as_str()),
        (None, None) => true,
        _ => false,
    };
    str_eq(a.workflow_node_id.as_str(), b.workflow_node_id.as_str()) && str_eq(
        a.transition_id.as_str(),
        b.transition_id.as_str(),
    ) && causal && str_eq(a.handoff_transition_id.as_str(), b.handoff_transition_id.as_str())
        && str_eq(a.handoff_package_hash.as_str(), b.handoff_package_hash.as_str())
}

} // verus!

verus! {

/// The history record of `h`.
pub open spec fn record_is(v: AutonomousUnitHistoryRecord, h: UnitHistory) -> bool {
    &&& v.unit == h.0
    &&& v.latest_attempt == h.1
    &&& v.artifacts@ == h.2
}

fn count_message(run_id: &str, count: usize, tail: &str) -> (m: String)
    ensures
        m@ == "Autonomous run `"@ + run_id@ + "` has "@ + decimal(count as nat) + tail@,
{
    let n = decimal_string(count as u64);
    cat5("Autonomous run `", run_id, "` has ", n.as_str(), tail)
}

/// Groups a run's unit, attempt and artifact rows into one history per
/// unit, or names the first inconsistency among them.
pub fn build_autonomous_unit_history(
    run: &AutonomousRunRecord,
    units: Vec<AutonomousUnitRecord>,
    attempts: Vec<AutonomousUnitAttemptRecord>,
    artifacts: Vec<AutonomousUnitArtifactRecord>,
) -> (r: Result<Vec<AutonomousUnitHistoryRecord>, String>)
    ensures
        match (r, unit_history(run.run_id@, units@, attempts@, artifacts@)) {
            (Ok(v), Ok(h)) => history_is(v@, h),
            (Err(e), Err(m)) => e@ == m,
            _ => false,
        },
{
    let run_id = run.run_id.as_str();
    if units.len() == 0 {
        return Err(cat3("Autonomous run `", run_id, "` has no durable unit ledger rows."));
    }
    let active_units = count_units(&units, false);
    if active_units > 1 {
        return Err(count_message(run_id, active_units, " active unit rows; expected at most one."));
    }
    let open_units = count_units(&units, true);
    if open_units > 1 {
        return Err(
            count_message(
                run_id,
                open_units,
                " open unit rows; expected at most one active, blocked, paused, or pending row.",
            ),
        );
    }
    let active_attempts = count_attempts(&attempts, false);
    if active_attempts > 1 {
        return Err(count_message(run_id, active_attempts, " active attempt rows; expected at most one."));
    }
    let open_attempts = count_attempts(&attempts, true);
    if open_attempts > 1 {
        return Err(
            count_message(
                run_id,
                open_attempts,
                " open attempt rows; expected at most one active, blocked, paused, or pending row.",
            ),
        );
    }
    if let Some(m) = find_orphan_attempt(&units, &attempts, run_id) {
        return Err(m);
    }
    if let Some(m) = find_orphan_artifact(&units, &attempts, &artifacts, run_id) {
        return Err(m);
    }
    let ghost all_units = units@;
    let ghost goal = histories(units@, attempts@, artifacts@);
    assert(unit_history(run.run_id@, units@, attempts@, artifacts@) == goal);
    let n = units.len();
    let mut units_rest = units;
    let mut atts_rest = attempts;
    let mut arts_rest = artifacts;
    let mut out: Vec<AutonomousUnitHistoryRecord> = Vec::new();
    let ghost mut done: Seq<UnitHistory> = seq![];
    let mut i: usize = 0;
    proof {
        assert(all_units.subrange(0, n as int) =~= all_units);
        assert(done + goal->Ok_0 =~= goal->Ok_0) by {
        }
    }
    while i < n
        invariant
            n == all_units.len(),
            i <= n,
            unit_history(run.run_id@, units@, attempts@, artifacts@) == goal,
            units_rest@ == all_units.subrange(i as int, n as int),
            goal == after(done, histories(units_rest@, atts_rest@, arts_rest@)),
            out@.len() == done.len(),
            forall|k: int| 0 <= k < done.len() ==> record_is(#[trigger] out@[k], done[k]),
        decreases n - i,
    {
        let u = units_rest.remove(0);
        proof {
            assert(all_units.subrange(i as int, n as int).drop_first() =~= all_units.subrange(i + 1, n as int));
        }
        let ghost old_atts = atts_rest@;
        let ghost old_arts = arts_rest@;
        let (mine, others) = split_attempts(atts_rest, u.unit_id.as_str());
        atts_rest = others;
        let latest = pick_latest(mine);
        if let Some(m) = check_linkage(&u, &latest) {
            return Err(m);
        }
        let unit_artifacts = match &latest {
            Some(t) => {
                let (taken, left) = split_artifacts(arts_rest, t.attempt_id.as_str());
                arts_rest = left;
                taken
            },
            None => Vec::new(),
        };
        let ghost entry: UnitHistory = (u, latest, unit_artifacts@);
        proof {
            if latest is None {
                assert(unit_artifacts@ =~= Seq::<AutonomousUnitArtifactRecord>::empty());
            }
            match histories(units_rest@, atts_rest@, arts_rest@) {
                Ok(h) => {
                    assert(done + (seq![entry] + h) =~= done.push(entry) + h);
                },
                Err(_) => {},
            }
            done = done.push(entry);
        }
        out.push(AutonomousUnitHistoryRecord { unit: u, latest_attempt: latest, artifacts: unit_artifacts });
        i = i + 1;
    }
    proof {
        assert(units_rest@.len() == 0);
        assert(done + seq![] =~= done);
    }
    Ok(out)
}

} // verus!
