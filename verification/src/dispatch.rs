//! Automatic continuation after a workflow node completes: which outgoing
//! edge, if exactly one, may be taken without an operator, and which are
//! held back by unresolved gates or the plan-mode requirement.

use vstd::prelude::*;
use crate::error::{CommandError, CommandResult, Fault, fault, first, sf, uf};
use crate::sorting::{insert_sorted, lemma_insert_sorted_at, sort_by};
use crate::text::{
    cat2, cat3, cat5, chars_of, clone_text_opt, contains, contains_chars, lower, lower_chars, own,
    normalized_text, owned_text, str_eq, string_of, text_less, text_less_exec, trim, trim_string,
};
use crate::workflow::{
    has_node, PhaseStep, WorkflowGateMetadataRecord, WorkflowGateState, WorkflowGraphEdgeRecord,
    WorkflowGraphNodeRecord,
};

verus! {

pub const PLAN_MODE_REQUIRED_GATE_KEY: &'static str = "plan_mode_required";
pub const PLAN_MODE_REQUIRED_ACTION_TYPE: &'static str = "approve_plan_mode";
pub const PLAN_MODE_REQUIRED_TITLE: &'static str = "Approve implementation continuation";
pub const PLAN_MODE_REQUIRED_DETAIL: &'static str = "Plan mode requires explicit approval before implementation can continue.";

pub fn is_plan_mode_required_gate_key(gate_key: &str) -> (r: bool)
    ensures
        r == (trim(gate_key@) == "plan_mode_required"@),
{
    let t = trim_string(gate_key);
    str_eq(t.as_str(), PLAN_MODE_REQUIRED_GATE_KEY)
}

/// A node id trimmed, lower-cased, with `_` read as `-`.
pub open spec fn normalized_node_id(id: Seq<char>) -> Seq<char> {
    lower(trim(id)).map_values(|c: char| if c == '_' { '-' } else { c })
}

/// The node ids of the planning lifecycle.
#[verifier::opaque]
pub open spec fn planning_id(id: Seq<char>) -> bool {
    let n = normalized_node_id(id);
    ||| n == "discussion"@ || n == "discuss"@ || n == "plan-discussion"@
    ||| n == "planning-discussion"@ || n == "workflow-discussion"@ || n == "lifecycle-discussion"@
    ||| n == "research"@ || n == "plan-research"@ || n == "planning-research"@
    ||| n == "workflow-research"@ || n == "lifecycle-research"@
    ||| n == "requirements"@ || n == "requirement"@ || n == "plan-requirements"@
    ||| n == "planning-requirements"@ || n == "workflow-requirements"@ || n == "lifecycle-requirements"@
    ||| n == "roadmap"@ || n == "plan-roadmap"@ || n == "planning-roadmap"@
    ||| n == "workflow-roadmap"@ || n == "lifecycle-roadmap"@
}

/// A node that executes: at the execute step, or named for implementing or
/// executing.
pub open spec fn implementation_node(n: WorkflowGraphNodeRecord) -> bool {
    n.current_step == Some(PhaseStep::Execute) || contains(normalized_node_id(n.node_id@), "implement"@)
        || contains(normalized_node_id(n.node_id@), "execute"@)
}

fn normalize_node_id(id: &str) -> (v: Vec<char>)
    ensures
        v@ == normalized_node_id(id@),
{
    let t = trim_string(id);
    let c = chars_of(t.as_str());
    let l = lower_chars(&c);
    let mut out: Vec<char> = Vec::new();
    let mut i: usize = 0;
    while i < l.len()
        invariant
            i <= l.len(),
            out@ == l@.subrange(0, i as int).map_values(|c: char| if c == '_' { '-' } else { c }),
        decreases l.len() - i,
    {
        let ch = l[i];
        out.push(if ch == '_' { '-' } else { ch });
        i = i + 1;
        assert(out@ =~= l@.subrange(0, i as int).map_values(|c: char| if c == '_' { '-' } else { c }));
    }
    assert(l@.subrange(0, l@.len() as int) =~= l@);
    out
}

pub fn is_planning_lifecycle_node_id(node_id: &str) -> (r: bool)
    ensures
        r == planning_id(node_id@),
{
    reveal(planning_id);
    let v = normalize_node_id(node_id);
    let n = string_of(&v);
    let s = n.as_str();
    str_eq(s, "discussion") || str_eq(s, "discuss") || str_eq(s, "plan-discussion")
        || str_eq(s, "planning-discussion") || str_eq(s, "workflow-discussion") || str_eq(s, "lifecycle-discussion")
        || str_eq(s, "research") || str_eq(s, "plan-research") || str_eq(s, "planning-research")
        || str_eq(s, "workflow-research") || str_eq(s, "lifecycle-research")
        || str_eq(s, "requirements") || str_eq(s, "requirement") || str_eq(s, "plan-requirements")
        || str_eq(s, "planning-requirements") || str_eq(s, "workflow-requirements") || str_eq(s, "lifecycle-requirements")
        || str_eq(s, "roadmap") || str_eq(s, "plan-roadmap") || str_eq(s, "planning-roadmap")
        || str_eq(s, "workflow-roadmap") || str_eq(s, "lifecycle-roadmap")
}

pub fn is_implementation_node(node: &WorkflowGraphNodeRecord) -> (r: bool)
    ensures
        r == implementation_node(*node),
{
    if matches!(node.current_step, Some(PhaseStep::Execute)) {
        return true;
    }
    let n = normalize_node_id(node.node_id.as_str());
    let a = chars_of("implement");
    let b = chars_of("execute");
    contains_chars(&n, &a) || contains_chars(&n, &b)
}

/// The index of the first node with id `id`.
pub open spec fn node_index(nodes: Seq<WorkflowGraphNodeRecord>, id: Seq<char>) -> int {
    choose|i: int| 0 <= i < nodes.len() && nodes[i].node_id@ == id && forall|j: int| 0 <= j < i
        ==> #[trigger] nodes[j].node_id@ != id
}

/// An edge from a planning node into an implementation node outside the
/// planning lifecycle.
#[verifier::opaque]
pub open spec fn plan_mode_continuation(nodes: Seq<WorkflowGraphNodeRecord>, from: Seq<char>, to: Seq<char>) -> bool {
    &&& has_node(nodes, from)
    &&& has_node(nodes, to)
    &&& planning_id(from)
    &&& !planning_id(to)
    &&& implementation_node(nodes[node_index(nodes, to)])
}

fn find_node(nodes: &Vec<WorkflowGraphNodeRecord>, id: &str) -> (r: Option<usize>)
    ensures
        r is Some <==> has_node(nodes@, id@),
        r matches Some(i) ==> i == node_index(nodes@, id@) && i < nodes@.len() && nodes@[i as int].node_id@ == id@,
{
    let mut i: usize = 0;
    while i < nodes.len()
        invariant
            i <= nodes.len(),
            forall|j: int| 0 <= j < i ==> #[trigger] nodes@[j].node_id@ != id@,
        decreases nodes.len() - i,
    {
        if str_eq(nodes[i].node_id.as_str(), id) {
            proof {
                let c = node_index(nodes@, id@);
                assert(0 <= i < nodes@.len() && nodes@[i as int].node_id@ == id@);
                if c < i {
                } else if c > i {
                    assert(nodes@[i as int].node_id@ != id@);
                }
            }
            return Some(i);
        }
        i = i + 1;
    }
    None
}

pub fn is_plan_mode_required_implementation_continuation(
    nodes: &Vec<WorkflowGraphNodeRecord>,
    edge: &WorkflowGraphEdgeRecord,
) -> (r: bool)
    ensures
        r == plan_mode_continuation(nodes@, edge.from_node_id@, edge.to_node_id@),
{
    reveal(plan_mode_continuation);
    let from = match find_node(nodes, edge.from_node_id.as_str()) {
        Some(i) => i,
        None => {
            return false;
        },
    };
    let to = match find_node(nodes, edge.to_node_id.as_str()) {
        Some(i) => i,
        None => {
            return false;
        },
    };
    is_planning_lifecycle_node_id(nodes[from].node_id.as_str()) && !is_planning_lifecycle_node_id(
        nodes[to].node_id.as_str(),
    ) && is_implementation_node(&nodes[to])
}

} // verus!

verus! {

/// Whether plan mode must approve a continuation into implementation.
#[derive(Debug, Clone, Copy, PartialEq, Eq, Structural)]
pub enum WorkflowAutomaticDispatchPlanModeRequirement {
    Disabled,
    Required,
    Unknown,
}

/// An edge that may be taken automatically.
#[derive(Debug, Clone)]
pub struct WorkflowAutomaticDispatchCandidate {
    pub from_node_id: String,
    pub to_node_id: String,
    pub transition_kind: String,
    pub gate_requirement: Option<String>,
}

/// A gate that holds an edge back.
#[derive(Debug, Clone)]
pub struct WorkflowAutomaticDispatchUnresolvedGateCandidate {
    pub gate_node_id: String,
    pub gate_key: String,
    pub gate_state: WorkflowGateState,
    pub action_type: Option<String>,
    pub title: Option<String>,
    pub detail: Option<String>,
}

/// An edge held back, with the gates that hold it.
#[derive(Debug, Clone)]
pub struct WorkflowAutomaticDispatchUnresolvedContinuationCandidate {
    pub from_node_id: String,
    pub to_node_id: String,
    pub transition_kind: String,
    pub gate_requirement: Option<String>,
    pub unresolved_gates: Vec<WorkflowAutomaticDispatchUnresolvedGateCandidate>,
}

/// What automatic continuation from a completed node resolves to.
#[derive(Debug, Clone)]
pub enum WorkflowAutomaticDispatchCandidateResolution {
    NoContinuation,
    Candidate(WorkflowAutomaticDispatchCandidate),
    Unresolved {
        completed_node_id: String,
        blocked_candidates: Vec<WorkflowAutomaticDispatchUnresolvedContinuationCandidate>,
    },
}

/// An edge as plain values: from, to, kind, required gate.
pub type EdgeView = (Seq<char>, Seq<char>, Seq<char>, Option<Seq<char>>);

/// A gate candidate as plain values.
pub type GateView = (
    Seq<char>,
    Seq<char>,
    WorkflowGateState,
    Option<Seq<char>>,
    Option<Seq<char>>,
    Option<Seq<char>>,
);

/// A held-back edge and its gates.
pub type BlockedView = (EdgeView, Seq<GateView>);

pub open spec fn edge_view(e: WorkflowGraphEdgeRecord) -> EdgeView {
    (e.from_node_id@, e.to_node_id@, e.transition_kind@, owned_text(e.gate_requirement))
}

pub open spec fn edge_views(es: Seq<WorkflowGraphEdgeRecord>) -> Seq<EdgeView> {
    es.map_values(|e: WorkflowGraphEdgeRecord| edge_view(e))
}

pub open spec fn candidate_view(c: WorkflowAutomaticDispatchCandidate) -> EdgeView {
    (c.from_node_id@, c.to_node_id@, c.transition_kind@, owned_text(c.gate_requirement))
}

pub open spec fn gate_candidate_view(g: WorkflowAutomaticDispatchUnresolvedGateCandidate) -> GateView {
    (
        g.gate_node_id@,
        g.gate_key@,
        g.gate_state,
        owned_text(g.action_type),
        owned_text(g.title),
        owned_text(g.detail),
    )
}

pub open spec fn gate_candidate_views(gs: Seq<WorkflowAutomaticDispatchUnresolvedGateCandidate>) -> Seq<GateView> {
    gs.map_values(|g: WorkflowAutomaticDispatchUnresolvedGateCandidate| gate_candidate_view(g))
}

pub open spec fn blocked_view(b: WorkflowAutomaticDispatchUnresolvedContinuationCandidate) -> BlockedView {
    (
        (b.from_node_id@, b.to_node_id@, b.transition_kind@, owned_text(b.gate_requirement)),
        gate_candidate_views(b.unresolved_gates@),
    )
}

pub open spec fn blocked_views(bs: Seq<WorkflowAutomaticDispatchUnresolvedContinuationCandidate>) -> Seq<BlockedView> {
    bs.map_values(|b: WorkflowAutomaticDispatchUnresolvedContinuationCandidate| blocked_view(b))
}

pub open spec fn candidate_views(cs: Seq<WorkflowAutomaticDispatchCandidate>) -> Seq<EdgeView> {
    cs.map_values(|c: WorkflowAutomaticDispatchCandidate| candidate_view(c))
}

/// `None` first, then texts in `str` order.
pub open spec fn opt_text_less(a: Option<Seq<char>>, b: Option<Seq<char>>) -> bool {
    match (a, b) {
        (None, Some(_)) => true,
        (Some(x), Some(y)) => text_less(x, y),
        _ => false,
    }
}

/// Edges ordered by target, then kind, then required gate.
pub open spec fn edge_less() -> spec_fn(EdgeView, EdgeView) -> bool {
    |a: EdgeView, b: EdgeView|
        text_less(a.1, b.1) || (a.1 == b.1 && text_less(a.2, b.2)) || (a.1 == b.1 && a.2 == b.2
            && opt_text_less(a.3, b.3))
}

/// The edges of `es` leaving `from`, in order.
pub open spec fn outgoing(es: Seq<WorkflowGraphEdgeRecord>, from: Seq<char>) -> Seq<WorkflowGraphEdgeRecord>
    decreases es.len(),
{
    if es.len() == 0 {
        seq![]
    } else if es.last().from_node_id@ == from {
        outgoing(es.drop_last(), from).push(es.last())
    } else {
        outgoing(es.drop_last(), from)
    }
}

pub fn opt_text_before(a: &Option<String>, b: &Option<String>) -> (r: bool)
    ensures
        r == opt_text_less(owned_text(*a), owned_text(*b)),
{
    match (a, b) {
        (None, Some(_)) => true,
        (Some(x), Some(y)) => text_less_exec(x.as_str(), y.as_str()),
        _ => false,
    }
}

fn edge_before(a: &WorkflowGraphEdgeRecord, b: &WorkflowGraphEdgeRecord) -> (r: bool)
    ensures
        r == (edge_less())(edge_view(*a), edge_view(*b)),
{
    if !str_eq(a.to_node_id.as_str(), b.to_node_id.as_str()) {
        return text_less_exec(a.to_node_id.as_str(), b.to_node_id.as_str());
    }
    proof {
        crate::text::lemma_text_less_irreflexive(a.to_node_id@);
    }
    if !str_eq(a.transition_kind.as_str(), b.transition_kind.as_str()) {
        return text_less_exec(a.transition_kind.as_str(), b.transition_kind.as_str());
    }
    proof {
        crate::text::lemma_text_less_irreflexive(a.transition_kind@);
    }
    opt_text_before(&a.gate_requirement, &b.gate_requirement)
}

/// The edges leaving `from`, by moving them out of `edges`.
fn take_outgoing(edges: Vec<WorkflowGraphEdgeRecord>, from: &str) -> (r: Vec<WorkflowGraphEdgeRecord>)
    ensures
        r@ == outgoing(edges@, from@),
{
    let ghost all = edges@;
    let n = edges.len();
    let mut rest = edges;
    let mut out: Vec<WorkflowGraphEdgeRecord> = Vec::new();
    let mut i: usize = 0;
    while i < n
        invariant
            n == all.len(),
            i <= n,
            rest@ == all.subrange(i as int, n as int),
            out@ == outgoing(all.subrange(0, i as int), from@),
        decreases n - i,
    {
        let e = rest.remove(0);
        proof {
            assert(all.subrange(0, i + 1).drop_last() =~= all.subrange(0, i as int));
            assert(e == all[i as int]);
        }
        if str_eq(e.from_node_id.as_str(), from) {
            out.push(e);
        }
        i = i + 1;
    }
    assert(all.subrange(0, n as int) =~= all);
    out
}

fn sort_edges(v: Vec<WorkflowGraphEdgeRecord>) -> (out: Vec<WorkflowGraphEdgeRecord>)
    ensures
        edge_views(out@) == sort_by(edge_views(v@), edge_less()),
{
    let ghost all = edge_views(v@);
    let ghost src = v@;
    let n = v.len();
    let mut rest = v;
    let mut out: Vec<WorkflowGraphEdgeRecord> = Vec::new();
    let mut i: usize = 0;
    while i < n
        invariant
            n == src.len(),
            all == edge_views(src),
            i <= n,
            rest@ == src.subrange(i as int, n as int),
            edge_views(out@) == sort_by(all.subrange(0, i as int), edge_less()),
        decreases n - i,
    {
        let x = rest.remove(0);
        proof {
            assert(all.subrange(0, i + 1).drop_last() =~= all.subrange(0, i as int));
            assert(x == src[i as int]);
        }
        let mut p: usize = 0;
        while p < out.len() && !edge_before(&x, &out[p])
            invariant
                p <= out.len(),
                forall|j: int| 0 <= j < p ==> !(edge_less())(edge_view(x), #[trigger] edge_views(out@)[j]),
            decreases out.len() - p,
        {
            p = p + 1;
        }
        let ghost before = out@;
        proof {
            lemma_insert_sorted_at(edge_views(out@), edge_view(x), edge_less(), p as int);
        }
        out.insert(p, x);
        assert(edge_views(out@) =~= edge_views(before).insert(p as int, edge_view(x)));
        i = i + 1;
    }
    proof {
        assert(all.subrange(0, n as int) =~= all);
    }
    out
}

} // verus!

verus! {

/// Some gate on node `to` has key `key`.
pub open spec fn target_has_gate(gates: Seq<WorkflowGateMetadataRecord>, to: Seq<char>, key: Seq<char>) -> bool {
    exists|i: int| 0 <= i < gates.len() && gates[i].node_id@ == to && gates[i].gate_key@ == key
}

pub open spec fn gate_view(g: WorkflowGateMetadataRecord) -> GateView {
    (g.node_id@, g.gate_key@, g.gate_state, owned_text(g.action_type), owned_text(g.title), owned_text(g.detail))
}

/// The pending or blocked gates on node `to`, in order.
pub open spec fn unresolved_for(gates: Seq<WorkflowGateMetadataRecord>, to: Seq<char>) -> Seq<GateView>
    decreases gates.len(),
{
    if gates.len() == 0 {
        seq![]
    } else {
        let g = gates.last();
        unresolved_for(gates.drop_last(), to) + if g.node_id@ == to && (g.gate_state is Pending
            || g.gate_state is Blocked) {
            seq![gate_view(g)]
        } else {
            seq![]
        }
    }
}

/// The approval check that plan mode puts on an implementation node.
pub open spec fn plan_mode_gate(to: Seq<char>) -> GateView {
    (
        to,
        "plan_mode_required"@,
        WorkflowGateState::Pending,
        Some("approve_plan_mode"@),
        Some("Approve implementation continuation"@),
        Some("Plan mode requires explicit approval before implementation can continue."@),
    )
}

pub open spec fn illegal_edge_fault(e: EdgeView) -> Option<Fault> {
    uf(
        "workflow_transition_illegal_edge"@,
        "Cadence cannot automatically dispatch `"@ + e.0 + "` -> `"@ + e.1 + "` ("@ + e.2
            + ") because target node `"@ + e.1 + "` does not exist."@,
    )
}

pub open spec fn gate_mapping_fault(e: EdgeView, g: Seq<char>) -> Option<Fault> {
    sf(
        "workflow_transition_auto_dispatch_gate_mapping_invalid"@,
        "Cadence found invalid automatic-dispatch gate mapping for `"@ + e.0 + "` -> `"@ + e.1 + "` ("@
            + e.2 + ") because required gate `"@ + g + "` is missing on target node `"@ + e.1
            + "`."@,
    )
}

/// The legal and held-back edges so far.
pub type Sorting = (Seq<EdgeView>, Seq<BlockedView>);

/// An edge whose gates do not hold it back is legal; otherwise it is held
/// back with them.
pub open spec fn gated_outcome(gates: Seq<WorkflowGateMetadataRecord>, e: EdgeView, s: Sorting) -> Sorting {
    let ug = unresolved_for(gates, e.1);
    if ug.len() == 0 {
        (s.0.push(e), s.1)
    } else {
        (s.0, s.1.push((e, ug)))
    }
}

/// What one outgoing edge adds, or the fault it raises.
#[verifier::opaque]
pub open spec fn edge_outcome(
    nodes: Seq<WorkflowGraphNodeRecord>,
    gates: Seq<WorkflowGateMetadataRecord>,
    req: WorkflowAutomaticDispatchPlanModeRequirement,
    e: EdgeView,
    s: Sorting,
) -> Result<Sorting, Option<Fault>> {
    if !has_node(nodes, e.1) {
        Err(illegal_edge_fault(e))
    } else {
        let pm = plan_mode_continuation(nodes, e.0, e.1);
        let pm_blocked = ((e.0, e.1, e.2, Some("plan_mode_required"@)), seq![plan_mode_gate(e.1)]);
        if req is Unknown && pm {
            Ok((s.0, s.1.push(pm_blocked)))
        } else {
            let requires_pm = req is Required && pm;
            match e.3 {
                Some(g) => if !target_has_gate(gates, e.1, g) {
                    if requires_pm {
                        Ok((s.0, s.1.push(((e.0, e.1, e.2, Some(g)), seq![]))))
                    } else {
                        Err(gate_mapping_fault(e, g))
                    }
                } else {
                    Ok(gated_outcome(gates, e, s))
                },
                None => if requires_pm {
                    Ok((s.0, s.1.push(pm_blocked)))
                } else {
                    Ok(gated_outcome(gates, e, s))
                },
            }
        }
    }
}

/// The outgoing edges, in order, sorted into legal and held back.
pub open spec fn sort_out(
    nodes: Seq<WorkflowGraphNodeRecord>,
    gates: Seq<WorkflowGateMetadataRecord>,
    req: WorkflowAutomaticDispatchPlanModeRequirement,
    es: Seq<EdgeView>,
) -> Result<Sorting, Option<Fault>>
    decreases es.len(),
{
    if es.len() == 0 {
        Ok((seq![], seq![]))
    } else {
        match sort_out(nodes, gates, req, es.drop_last()) {
            Err(f) => Err(f),
            Ok(s) => edge_outcome(nodes, gates, req, es.last(), s),
        }
    }
}

fn target_has_gate_exec(gates: &Vec<WorkflowGateMetadataRecord>, to: &str, key: &str) -> (r: bool)
    ensures
        r == target_has_gate(gates@, to@, key@),
{
    let mut i: usize = 0;
    while i < gates.len()
        invariant
            i <= gates.len(),
            forall|k: int| 0 <= k < i ==> !(gates@[k].node_id@ == to@ && gates@[k].gate_key@ == key@),
        decreases gates.len() - i,
    {
        if str_eq(gates[i].node_id.as_str(), to) && str_eq(gates[i].gate_key.as_str(), key) {
            return true;
        }
        i = i + 1;
    }
    false
}

fn unresolved_gates_for(gates: &Vec<WorkflowGateMetadataRecord>, to: &str) -> (r: Vec<
    WorkflowAutomaticDispatchUnresolvedGateCandidate,
>)
    ensures
        gate_candidate_views(r@) == unresolved_for(gates@, to@),
{
    let mut out: Vec<WorkflowAutomaticDispatchUnresolvedGateCandidate> = Vec::new();
    let mut i: usize = 0;
    while i < gates.len()
        invariant
            i <= gates.len(),
            gate_candidate_views(out@) == unresolved_for(gates@.subrange(0, i as int), to@),
        decreases gates.len() - i,
    {
        proof {
            assert(gates@.subrange(0, i + 1).drop_last() =~= gates@.subrange(0, i as int));
        }
        let g = &gates[i];
        let ghost before = out@;
        if str_eq(g.node_id.as_str(), to) && matches!(
            g.gate_state,
            WorkflowGateState::Pending | WorkflowGateState::Blocked
        ) {
            let c = WorkflowAutomaticDispatchUnresolvedGateCandidate {
                gate_node_id: g.node_id.clone(),
                gate_key: g.gate_key.clone(),
                gate_state: g.gate_state,
                action_type: clone_text_opt(&g.action_type),
                title: clone_text_opt(&g.title),
                detail: clone_text_opt(&g.detail),
            };
            out.push(c);
            assert(gate_candidate_views(out@) =~= gate_candidate_views(before) + seq![gate_view(*g)]);
        } else {
            assert(gate_candidate_views(out@) =~= gate_candidate_views(before) + Seq::<GateView>::empty());
        }
        i = i + 1;
    }
    assert(gates@.subrange(0, gates@.len() as int) =~= gates@);
    out
}

fn plan_mode_required_unresolved_gate_candidate(gate_node_id: &str) -> (g:
    WorkflowAutomaticDispatchUnresolvedGateCandidate)
    ensures
        gate_candidate_view(g) == plan_mode_gate(gate_node_id@),
{
    WorkflowAutomaticDispatchUnresolvedGateCandidate {
        gate_node_id: own(gate_node_id),
        gate_key: own(PLAN_MODE_REQUIRED_GATE_KEY),
        gate_state: WorkflowGateState::Pending,
        action_type: Some(own(PLAN_MODE_REQUIRED_ACTION_TYPE)),
        title: Some(own(PLAN_MODE_REQUIRED_TITLE)),
        detail: Some(own(PLAN_MODE_REQUIRED_DETAIL)),
    }
}

fn blocked_candidate(
    e: &WorkflowGraphEdgeRecord,
    gate_requirement: Option<String>,
    unresolved_gates: Vec<WorkflowAutomaticDispatchUnresolvedGateCandidate>,
) -> (b: WorkflowAutomaticDispatchUnresolvedContinuationCandidate)
    ensures
        blocked_view(b) == ((e.from_node_id@, e.to_node_id@, e.transition_kind@, owned_text(gate_requirement)), gate_candidate_views(unresolved_gates@)),
{
    WorkflowAutomaticDispatchUnresolvedContinuationCandidate {
        from_node_id: e.from_node_id.clone(),
        to_node_id: e.to_node_id.clone(),
        transition_kind: e.transition_kind.clone(),
        gate_requirement,
        unresolved_gates,
    }
}

} // verus!

verus! {

/// The sorting the vectors hold.
pub open spec fn sorting_of(
    legal: Seq<WorkflowAutomaticDispatchCandidate>,
    blocked: Seq<WorkflowAutomaticDispatchUnresolvedContinuationCandidate>,
) -> Sorting {
    (candidate_views(legal), blocked_views(blocked))
}

fn push_gated(
    gates: &Vec<WorkflowGateMetadataRecord>,
    e: &WorkflowGraphEdgeRecord,
    legal: &mut Vec<WorkflowAutomaticDispatchCandidate>,
    blocked: &mut Vec<WorkflowAutomaticDispatchUnresolvedContinuationCandidate>,
)
    ensures
        sorting_of(final(legal)@, final(blocked)@) == gated_outcome(
            gates@,
            edge_view(*e),
            sorting_of(old(legal)@, old(blocked)@),
        ),
{
    let ghost l0 = legal@;
    let ghost b0 = blocked@;
    let unresolved = unresolved_gates_for(gates, e.to_node_id.as_str());
    if unresolved.len() == 0 {
        let c = WorkflowAutomaticDispatchCandidate {
            from_node_id: e.from_node_id.clone(),
            to_node_id: e.to_node_id.clone(),
            transition_kind: e.transition_kind.clone(),
            gate_requirement: clone_text_opt(&e.gate_requirement),
        };
        legal.push(c);
        assert(candidate_views(legal@) =~= candidate_views(l0).push(edge_view(*e)));
    } else {
        let b = blocked_candidate(e, clone_text_opt(&e.gate_requirement), unresolved);
        blocked.push(b);
        assert(blocked_views(blocked@) =~= blocked_views(b0).push(blocked_view(b)));
    }
}

#[verifier::rlimit(40)]
fn dispatch_edge(
    nodes: &Vec<WorkflowGraphNodeRecord>,
    gates: &Vec<WorkflowGateMetadataRecord>,
    req: WorkflowAutomaticDispatchPlanModeRequirement,
    e: &WorkflowGraphEdgeRecord,
    legal: &mut Vec<WorkflowAutomaticDispatchCandidate>,
    blocked: &mut Vec<WorkflowAutomaticDispatchUnresolvedContinuationCandidate>,
) -> (r: CommandResult<()>)
    ensures
        match edge_outcome(nodes@, gates@, req, edge_view(*e), sorting_of(old(legal)@, old(blocked)@)) {
            Ok(s) => r is Ok && sorting_of(final(legal)@, final(blocked)@) == s,
            Err(f) => fault(r) == f && f is Some,
        },
{
    reveal(edge_outcome);
    let ghost l0 = legal@;
    let ghost b0 = blocked@;
    if find_node(nodes, e.to_node_id.as_str()).is_none() {
        let head = cat5(
            "Cadence cannot automatically dispatch `",
            e.from_node_id.as_str(),
            "` -> `",
            e.to_node_id.as_str(),
            "` (",
        );
        let m = cat5(head.as_str(), e.transition_kind.as_str(), ") because target node `", e.to_node_id.as_str(), "` does not exist.");
        return Err(CommandError::user_fixable("workflow_transition_illegal_edge", m.as_str()));
    }
    let pm = is_plan_mode_required_implementation_continuation(nodes, e);
    if req == WorkflowAutomaticDispatchPlanModeRequirement::Unknown && pm {
        let g = plan_mode_required_unresolved_gate_candidate(e.to_node_id.as_str());
        let gs = vec![g];
        assert(gate_candidate_views(gs@) =~= seq![plan_mode_gate(e.to_node_id@)]);
        let b = blocked_candidate(e, Some(own(PLAN_MODE_REQUIRED_GATE_KEY)), gs);
        blocked.push(b);
        assert(blocked_views(blocked@) =~= blocked_views(b0).push(blocked_view(b)));
        return Ok(());
    }
    let requires_pm = req == WorkflowAutomaticDispatchPlanModeRequirement::Required && pm;
    match &e.gate_requirement {
        Some(g) => {
            if !target_has_gate_exec(gates, e.to_node_id.as_str(), g.as_str()) {
                if requires_pm {
                    let gs: Vec<WorkflowAutomaticDispatchUnresolvedGateCandidate> = Vec::new();
                    assert(gate_candidate_views(gs@) =~= Seq::<GateView>::empty());
                    let b = blocked_candidate(e, Some(g.clone()), gs);
                    blocked.push(b);
                    assert(blocked_views(blocked@) =~= blocked_views(b0).push(blocked_view(b)));
                    return Ok(());
                }
                let head = cat5(
                    "Cadence found invalid automatic-dispatch gate mapping for `",
                    e.from_node_id.as_str(),
                    "` -> `",
                    e.to_node_id.as_str(),
                    "` (",
                );
                let mid = cat5(head.as_str(), e.transition_kind.as_str(), ") because required gate `", g.as_str(), "` is missing on target node `");
                let m = cat3(mid.as_str(), e.to_node_id.as_str(), "`.");
                return Err(
                    CommandError::system_fault(
                        "workflow_transition_auto_dispatch_gate_mapping_invalid",
                        m.as_str(),
                    ),
                );
            }
        },
        None => {
            if requires_pm {
                let g = plan_mode_required_unresolved_gate_candidate(e.to_node_id.as_str());
                let gs = vec![g];
                assert(gate_candidate_views(gs@) =~= seq![plan_mode_gate(e.to_node_id@)]);
                let b = blocked_candidate(e, Some(own(PLAN_MODE_REQUIRED_GATE_KEY)), gs);
                blocked.push(b);
                assert(blocked_views(blocked@) =~= blocked_views(b0).push(blocked_view(b)));
                return Ok(());
            }
        },
    }
    push_gated(gates, e, legal, blocked);
    Ok(())
}

} // verus!

verus! {

/// `from->to:kind` for each legal edge, joined by `, `.
pub open spec fn options_text(ls: Seq<EdgeView>) -> Seq<char> {
    crate::lines::join(Seq::new(ls.len(), |i: int| ls[i].0 + "->"@ + ls[i].1 + ":"@ + ls[i].2), ", "@)
}

pub open spec fn source_missing_fault(c: Seq<char>) -> Option<Fault> {
    uf(
        "workflow_transition_auto_dispatch_source_missing"@,
        "Cadence cannot resolve automatic continuation from `"@ + c
            + "` because the workflow node is missing."@,
    )
}

pub open spec fn ambiguous_fault(c: Seq<char>, ls: Seq<EdgeView>) -> Option<Fault> {
    uf(
        "workflow_transition_ambiguous_next_step"@,
        "Cadence cannot auto-dispatch from `"@ + c + "` because multiple legal continuation edges exist ("@
            + options_text(ls) + ")."@,
    )
}

/// The outgoing edges of `c`, sorted by target, kind and gate.
pub open spec fn sorted_outgoing(edges: Seq<WorkflowGraphEdgeRecord>, c: Seq<char>) -> Seq<EdgeView> {
    sort_by(edge_views(outgoing(edges, c)), edge_less())
}

/// What automatic continuation from `c` resolves to, as `r` holds it.
pub open spec fn dispatch_resolution_is(
    r: CommandResult<WorkflowAutomaticDispatchCandidateResolution>,
    nodes: Seq<WorkflowGraphNodeRecord>,
    edges: Seq<WorkflowGraphEdgeRecord>,
    gates: Seq<WorkflowGateMetadataRecord>,
    c: Seq<char>,
    req: WorkflowAutomaticDispatchPlanModeRequirement,
) -> bool {
    if !has_node(nodes, c) {
        fault(r) == source_missing_fault(c)
    } else if sorted_outgoing(edges, c).len() == 0 {
        r matches Ok(WorkflowAutomaticDispatchCandidateResolution::NoContinuation)
    } else {
        match sort_out(nodes, gates, req, sorted_outgoing(edges, c)) {
            Err(f) => fault(r) == f,
            Ok(s) => finished_is(r, s, c),
        }
    }
}

fn options_of(legal: &Vec<WorkflowAutomaticDispatchCandidate>) -> (s: String)
    ensures
        s@ == options_text(candidate_views(legal@)),
{
    let ghost ls = candidate_views(legal@);
    let mut parts: Vec<Vec<char>> = Vec::new();
    let mut i: usize = 0;
    while i < legal.len()
        invariant
            i <= legal.len(),
            ls == candidate_views(legal@),
            crate::lines::texts(parts@) == Seq::new(i as nat, |k: int| ls[k].0 + "->"@ + ls[k].1 + ":"@ + ls[k].2),
        decreases legal.len() - i,
    {
        let c = &legal[i];
        let a = cat5(c.from_node_id.as_str(), "->", c.to_node_id.as_str(), ":", c.transition_kind.as_str());
        let ghost before = parts@;
        let v = chars_of(a.as_str());
        parts.push(v);
        proof {
            assert(crate::lines::texts(before).len() == before.len());
            assert(parts@ == before.push(v));
            assert forall|k: int| 0 <= k < i implies crate::lines::texts(parts@)[k] == ls[k].0 + "->"@ + ls[k].1 + ":"@ + ls[k].2 by {
                assert(parts@[k] == before[k]);
                assert(crate::lines::texts(before)[k] == ls[k].0 + "->"@ + ls[k].1 + ":"@ + ls[k].2);
            }
        }
        assert(crate::lines::texts(parts@) =~= Seq::new((i + 1) as nat, |k: int| ls[k].0 + "->"@ + ls[k].1 + ":"@ + ls[k].2));
        i = i + 1;
    }
    proof {
        assert(crate::lines::texts(parts@).subrange(0, parts@.len() as int) =~= crate::lines::texts(parts@));
    }
    let comma = join_with(&parts, 0);
    comma
}

/// The texts of `v` from `i` on, joined by `, `.
fn join_with(v: &Vec<Vec<char>>, i: usize) -> (s: String)
    requires
        i <= v.len(),
    ensures
        s@ == crate::lines::join(crate::lines::texts(v@).subrange(i as int, v@.len() as int), ", "@),
    decreases v.len() - i,
{
    let ghost t = crate::lines::texts(v@).subrange(i as int, v@.len() as int);
    if i == v.len() {
        assert(t.len() == 0);
        String::new()
    } else {
        let first_text = string_of(&v[i]);
        assert(t[0] == v@[i as int]@);
        if i + 1 == v.len() {
            first_text
        } else {
            let rest = join_with(v, i + 1);
            assert(t.drop_first() =~= crate::lines::texts(v@).subrange(i + 1, v@.len() as int));
            cat3(first_text.as_str(), ", ", rest.as_str())
        }
    }
}

/// Resolves automatic continuation from `completed_node_id` over the
/// project's graph nodes, edges and gates.
#[verifier::rlimit(40)]
pub fn resolve_automatic_dispatch_candidate(
    nodes: &Vec<WorkflowGraphNodeRecord>,
    edges: Vec<WorkflowGraphEdgeRecord>,
    gates: &Vec<WorkflowGateMetadataRecord>,
    completed_node_id: &str,
    plan_mode_requirement: WorkflowAutomaticDispatchPlanModeRequirement,
) -> (r: CommandResult<WorkflowAutomaticDispatchCandidateResolution>)
    ensures
        dispatch_resolution_is(r, nodes@, edges@, gates@, completed_node_id@, plan_mode_requirement),
{
    if find_node(nodes, completed_node_id).is_none() {
        let m = cat3(
            "Cadence cannot resolve automatic continuation from `",
            completed_node_id,
            "` because the workflow node is missing.",
        );
        return Err(
            CommandError::user_fixable("workflow_transition_auto_dispatch_source_missing", m.as_str()),
        );
    }
    let ghost goal = sorted_outgoing(edges@, completed_node_id@);
    let out = take_outgoing(edges, completed_node_id);
    let sorted = sort_edges(out);
    if sorted.len() == 0 {
        return Ok(WorkflowAutomaticDispatchCandidateResolution::NoContinuation);
    }
    let mut legal: Vec<WorkflowAutomaticDispatchCandidate> = Vec::new();
    let mut blocked: Vec<WorkflowAutomaticDispatchUnresolvedContinuationCandidate> = Vec::new();
    let mut i: usize = 0;
    proof {
        assert(goal.subrange(0, 0) =~= Seq::<EdgeView>::empty());
        assert(sorting_of(legal@, blocked@) =~= (Seq::<EdgeView>::empty(), Seq::<BlockedView>::empty()));
    }
    while i < sorted.len()
        invariant
            i <= sorted.len(),
            has_node(nodes@, completed_node_id@),
            goal == sorted_outgoing(edges@, completed_node_id@),
            goal == edge_views(sorted@),
            goal.len() == sorted@.len(),
            sort_out(nodes@, gates@, plan_mode_requirement, goal.subrange(0, i as int)) == Ok::<Sorting, Option<Fault>>(
                sorting_of(legal@, blocked@),
            ),
        decreases sorted.len() - i,
    {
        proof {
            assert(goal.subrange(0, i + 1).drop_last() =~= goal.subrange(0, i as int));
            assert(goal[i as int] == edge_view(sorted@[i as int]));
        }
        let r = dispatch_edge(nodes, gates, plan_mode_requirement, &sorted[i], &mut legal, &mut blocked);
        if let Err(e) = r {
            proof {
                assert(sort_out(nodes@, gates@, plan_mode_requirement, goal.subrange(0, i + 1)) is Err);
                crate::dispatch::lemma_sort_out_err_sticks(nodes@, gates@, plan_mode_requirement, goal, i as int + 1);
            }
            return Err(e);
        }
        i = i + 1;
    }
    proof {
        assert(goal.subrange(0, sorted@.len() as int) =~= goal);
    }
    finish_resolution(legal, blocked, completed_node_id)
}

/// The resolution of the sorted-out edges.
pub open spec fn finished_is(
    r: CommandResult<WorkflowAutomaticDispatchCandidateResolution>,
    s: Sorting,
    c: Seq<char>,
) -> bool {
    if s.0.len() == 0 && s.1.len() == 0 {
        r matches Ok(WorkflowAutomaticDispatchCandidateResolution::NoContinuation)
    } else if s.0.len() == 0 {
        r matches Ok(
            WorkflowAutomaticDispatchCandidateResolution::Unresolved {
                completed_node_id,
                blocked_candidates,
            },
        ) && completed_node_id@ == c && blocked_views(blocked_candidates@) == s.1
    } else if s.0.len() == 1 {
        r matches Ok(WorkflowAutomaticDispatchCandidateResolution::Candidate(k)) && candidate_view(k)
            == s.0[0]
    } else {
        fault(r) == ambiguous_fault(c, s.0)
    }
}

fn finish_resolution(
    legal: Vec<WorkflowAutomaticDispatchCandidate>,
    blocked: Vec<WorkflowAutomaticDispatchUnresolvedContinuationCandidate>,
    completed_node_id: &str,
) -> (r: CommandResult<WorkflowAutomaticDispatchCandidateResolution>)
    ensures
        finished_is(r, sorting_of(legal@, blocked@), completed_node_id@),
{
    let mut legal = legal;
    if legal.len() == 0 {
        if blocked.len() == 0 {
            return Ok(WorkflowAutomaticDispatchCandidateResolution::NoContinuation);
        }
        return Ok(
            WorkflowAutomaticDispatchCandidateResolution::Unresolved {
                completed_node_id: own(completed_node_id),
                blocked_candidates: blocked,
            },
        );
    }
    if legal.len() == 1 {
        let c = legal.remove(0);
        return Ok(WorkflowAutomaticDispatchCandidateResolution::Candidate(c));
    }
    let options = options_of(&legal);
    let m = cat5(
        "Cadence cannot auto-dispatch from `",
        completed_node_id,
        "` because multiple legal continuation edges exist (",
        options.as_str(),
        ").",
    );
    Err(CommandError::user_fixable("workflow_transition_ambiguous_next_step", m.as_str()))
}

/// Once the edges up to `i` raise a fault, every longer prefix raises it.
pub proof fn lemma_sort_out_err_sticks(
    nodes: Seq<WorkflowGraphNodeRecord>,
    gates: Seq<WorkflowGateMetadataRecord>,
    req: WorkflowAutomaticDispatchPlanModeRequirement,
    es: Seq<EdgeView>,
    i: int,
)
    requires
        0 <= i <= es.len(),
        sort_out(nodes, gates, req, es.subrange(0, i)) is Err,
    ensures
        sort_out(nodes, gates, req, es) == sort_out(nodes, gates, req, es.subrange(0, i)),
    decreases es.len() - i,
{
    if i == es.len() {
        assert(es.subrange(0, i) =~= es);
    } else {
        assert(es.subrange(0, i + 1).drop_last() =~= es.subrange(0, i));
        lemma_sort_out_err_sticks(nodes, gates, req, es, i + 1);
    }
}

} // verus!

verus! {

/// `node:key:state` for a gate.
pub open spec fn gate_summary(g: GateView) -> Seq<char> {
    g.0 + ":"@ + g.1 + ":"@ + crate::workflow::gate_state_text(g.2)
}

/// `from->to:kind[ gate=g] [gates]` for a held-back edge.
pub open spec fn blocked_summary(b: BlockedView) -> Seq<char> {
    let e = b.0;
    e.0 + "->"@ + e.1 + ":"@ + e.2 + match e.3 {
        Some(g) => " gate="@ + g,
        None => seq![],
    } + " ["@ + crate::lines::join(Seq::new(b.1.len(), |i: int| gate_summary(b.1[i])), "|"@) + "]"@
}

/// Every held-back edge summarized, joined by `, `.
pub open spec fn blocked_summaries(bs: Seq<BlockedView>) -> Seq<char> {
    crate::lines::join(Seq::new(bs.len(), |i: int| blocked_summary(bs[i])), ", "@)
}

/// The texts of `v` from `i` on, joined by `sep`.
pub fn join_texts(v: &Vec<String>, i: usize, sep: &str) -> (s: String)
    requires
        i <= v.len(),
    ensures
        s@ == crate::lines::join(crate::sorting::string_views(v@).subrange(i as int, v@.len() as int), sep@),
    decreases v.len() - i,
{
    let ghost t = crate::sorting::string_views(v@).subrange(i as int, v@.len() as int);
    if i == v.len() {
        assert(t.len() == 0);
        String::new()
    } else {
        assert(t[0] == v@[i as int]@);
        if i + 1 == v.len() {
            own(v[i].as_str())
        } else {
            let rest = join_texts(v, i + 1, sep);
            assert(t.drop_first() =~= crate::sorting::string_views(v@).subrange(i + 1, v@.len() as int));
            cat3(v[i].as_str(), sep, rest.as_str())
        }
    }
}

fn summarize_gates(gs: &Vec<WorkflowAutomaticDispatchUnresolvedGateCandidate>) -> (s: String)
    ensures
        s@ == crate::lines::join(
            Seq::new(gate_candidate_views(gs@).len(), |i: int| gate_summary(gate_candidate_views(gs@)[i])),
            "|"@,
        ),
{
    let ghost want = Seq::new(gs@.len(), |i: int| gate_summary(gate_candidate_views(gs@)[i]));
    assert(gate_candidate_views(gs@).len() == gs@.len());
    let mut parts: Vec<String> = Vec::new();
    let mut i: usize = 0;
    while i < gs.len()
        invariant
            i <= gs.len(),
            want == Seq::new(gs@.len(), |i: int| gate_summary(gate_candidate_views(gs@)[i])),
            crate::sorting::string_views(parts@) == want.subrange(0, i as int),
        decreases gs.len() - i,
    {
        let g = &gs[i];
        let p = cat5(g.gate_node_id.as_str(), ":", g.gate_key.as_str(), ":", crate::workflow::workflow_gate_state_sql_value(&g.gate_state));
        let ghost before = parts@;
        parts.push(p);
        proof {
            assert(crate::sorting::string_views(before).len() == before.len());
            assert(parts@ == before.push(p));
            assert(gate_candidate_views(gs@)[i as int] == gate_candidate_view(gs@[i as int]));
            assert(crate::sorting::string_views(parts@)[i as int] == want[i as int]);
            assert forall|k: int| 0 <= k < i implies crate::sorting::string_views(parts@)[k] == want[k] by {
                assert(parts@[k] == before[k]);
                assert(crate::sorting::string_views(before)[k] == want[k]);
            }
        }
        assert(crate::sorting::string_views(parts@) =~= want.subrange(0, i + 1));
        i = i + 1;
    }
    assert(want.subrange(0, gs@.len() as int) =~= want);
    assert(crate::sorting::string_views(parts@).subrange(0, parts@.len() as int) =~= crate::sorting::string_views(parts@));
    join_texts(&parts, 0, "|")
}

fn summarize_blocked(b: &WorkflowAutomaticDispatchUnresolvedContinuationCandidate) -> (s: String)
    ensures
        s@ == blocked_summary(blocked_view(*b)),
{
    let gates = summarize_gates(&b.unresolved_gates);
    let head = cat5(b.from_node_id.as_str(), "->", b.to_node_id.as_str(), ":", b.transition_kind.as_str());
    let with_gate = match &b.gate_requirement {
        Some(g) => cat3(head.as_str(), " gate=", g.as_str()),
        None => {
            let h = own(head.as_str());
            assert(h@ =~= head@ + Seq::<char>::empty());
            h
        },
    };
    let body = cat3(with_gate.as_str(), " [", gates.as_str());
    cat2(body.as_str(), "]")
}

/// One summary per held-back edge, joined by `, `.
pub fn format_unresolved_dispatch_candidate_summary(
    blocked_candidates: &Vec<WorkflowAutomaticDispatchUnresolvedContinuationCandidate>,
) -> (s: String)
    ensures
        s@ == blocked_summaries(blocked_views(blocked_candidates@)),
{
    let ghost want = Seq::new(blocked_candidates@.len(), |i: int| blocked_summary(blocked_views(blocked_candidates@)[i]));
    let mut parts: Vec<String> = Vec::new();
    let mut i: usize = 0;
    while i < blocked_candidates.len()
        invariant
            i <= blocked_candidates.len(),
            want == Seq::new(blocked_candidates@.len(), |i: int| blocked_summary(blocked_views(blocked_candidates@)[i])),
            crate::sorting::string_views(parts@) == want.subrange(0, i as int),
        decreases blocked_candidates.len() - i,
    {
        let p = summarize_blocked(&blocked_candidates[i]);
        let ghost before = parts@;
        parts.push(p);
        proof {
            assert(crate::sorting::string_views(before).len() == before.len());
            assert(parts@ == before.push(p));
            assert(blocked_views(blocked_candidates@)[i as int] == blocked_view(blocked_candidates@[i as int]));
            assert(crate::sorting::string_views(parts@)[i as int] == want[i as int]);
            assert forall|k: int| 0 <= k < i implies crate::sorting::string_views(parts@)[k] == want[k] by {
                assert(parts@[k] == before[k]);
                assert(crate::sorting::string_views(before)[k] == want[k]);
            }
        }
        assert(crate::sorting::string_views(parts@) =~= want.subrange(0, i + 1));
        i = i + 1;
    }
    assert(want.subrange(0, blocked_candidates@.len() as int) =~= want);
    assert(crate::sorting::string_views(parts@).subrange(0, parts@.len() as int) =~= crate::sorting::string_views(parts@));
    assert(blocked_views(blocked_candidates@).len() == blocked_candidates@.len());
    assert(want =~= Seq::new(blocked_views(blocked_candidates@).len(), |i: int| blocked_summary(blocked_views(blocked_candidates@)[i])));
    join_texts(&parts, 0, ", ")
}

} // verus!

verus! {

// ------------------------------------------------------------ gate-unmet approval

/// The approval to persist for a continuation that unresolved gates hold.
#[derive(Debug, Clone)]
pub struct AutoDispatchApprovalRequest {
    pub gate_link: crate::workflow::OperatorApprovalGateLinkInput,
    pub action_type: String,
    pub title: String,
    pub detail: String,
}

/// The unresolved gates with key `k`, in order.
pub open spec fn gates_with_key(gs: Seq<WorkflowAutomaticDispatchUnresolvedGateCandidate>, k: Seq<char>) -> Seq<
    WorkflowAutomaticDispatchUnresolvedGateCandidate,
>
    decreases gs.len(),
{
    if gs.len() == 0 {
        seq![]
    } else if gs.last().gate_key@ == k {
        gates_with_key(gs.drop_last(), k).push(gs.last())
    } else {
        gates_with_key(gs.drop_last(), k)
    }
}

/// The gates that may answer a continuation: those with its required key,
/// or all of them where it requires none.
pub open spec fn answering_gates(c: WorkflowAutomaticDispatchUnresolvedContinuationCandidate) -> Seq<
    WorkflowAutomaticDispatchUnresolvedGateCandidate,
> {
    match c.gate_requirement {
        Some(k) => gates_with_key(c.unresolved_gates@, k@),
        None => c.unresolved_gates@,
    }
}

pub open spec fn gate_unmet(message: Seq<char>) -> Option<Fault> {
    uf("workflow_transition_gate_unmet"@, message)
}

pub open spec fn continuation_head(c: WorkflowAutomaticDispatchUnresolvedContinuationCandidate) -> Seq<char> {
    "Cadence skipped automatic dispatch for `"@ + c.from_node_id@ + "` -> `"@ + c.to_node_id@ + "` ("@
        + c.transition_kind@ + ")"@
}

pub open spec fn non_actionable(
    c: WorkflowAutomaticDispatchUnresolvedContinuationCandidate,
    g: WorkflowAutomaticDispatchUnresolvedGateCandidate,
    field: Seq<char>,
) -> Option<Fault> {
    gate_unmet(
        continuation_head(c) + " because unresolved gate `"@ + g.gate_key@ + "` is non-actionable (missing `"@ + field
            + "`)."@,
    )
}

/// Why no approval can be persisted for the held-back continuations `bs`,
/// or `None` where one can.
pub open spec fn approval_fault(bs: Seq<WorkflowAutomaticDispatchUnresolvedContinuationCandidate>) -> Option<Fault> {
    if bs.len() == 0 {
        gate_unmet(
            "Cadence skipped automatic dispatch because no unresolved continuation candidates were available for persistence."@,
        )
    } else if bs.len() > 1 {
        gate_unmet(
            "Cadence skipped automatic dispatch because unresolved continuation metadata was ambiguous ("@
                + blocked_summaries(blocked_views(bs)) + ")."@,
        )
    } else {
        let c = bs[0];
        let gs = answering_gates(c);
        if gs.len() == 0 {
            gate_unmet(continuation_head(c) + " because required gate linkage could not be resolved from unresolved metadata."@)
        } else if gs.len() > 1 {
            gate_unmet(
                continuation_head(c)
                    + " because unresolved gate metadata was ambiguous for deterministic approval persistence."@,
            )
        } else {
            let g = gs[0];
            if g.gate_node_id@ != c.to_node_id@ {
                sf(
                    "runtime_action_request_invalid"@,
                    "Cadence could not persist gate-unmet auto-dispatch approval because gate node `"@ + g.gate_node_id@
                        + "` did not match continuation target `"@ + c.to_node_id@ + "`."@,
                )
            } else if normalized_text(owned_text(g.action_type)) is None {
                non_actionable(c, g, "action_type"@)
            } else if normalized_text(owned_text(g.title)) is None {
                non_actionable(c, g, "title"@)
            } else if normalized_text(owned_text(g.detail)) is None {
                non_actionable(c, g, "detail"@)
            } else {
                None
            }
        }
    }
}

/// How many gates have key `k`, and the position of the first of them.
fn keyed_gates(gs: &Vec<WorkflowAutomaticDispatchUnresolvedGateCandidate>, k: &str) -> (r: (usize, usize))
    ensures
        r.0 == gates_with_key(gs@, k@).len(),
        r.0 > 0 ==> r.1 < gs@.len() && gates_with_key(gs@, k@)[0] == gs@[r.1 as int],
{
    let mut count: usize = 0;
    let mut first_at: usize = 0;
    let mut i: usize = 0;
    while i < gs.len()
        invariant
            i <= gs.len(),
            count == gates_with_key(gs@.subrange(0, i as int), k@).len(),
            count <= i,
            count > 0 ==> first_at < i && gates_with_key(gs@.subrange(0, i as int), k@)[0] == gs@[first_at as int],
        decreases gs.len() - i,
    {
        let ghost prev = gates_with_key(gs@.subrange(0, i as int), k@);
        proof {
            assert(gs@.subrange(0, i + 1).drop_last() =~= gs@.subrange(0, i as int));
        }
        if str_eq(gs[i].gate_key.as_str(), k) {
            if count == 0 {
                first_at = i;
            }
            count = count + 1;
            assert(gates_with_key(gs@.subrange(0, i + 1), k@) == prev.push(gs@[i as int]));
        } else {
            assert(gates_with_key(gs@.subrange(0, i + 1), k@) == prev);
        }
        i = i + 1;
    }
    assert(gs@.subrange(0, gs@.len() as int) =~= gs@);
    (count, first_at)
}

/// The approval that records a held-back continuation for the operator:
/// there must be exactly one continuation, exactly one gate answering it on
/// its target, and that gate must say what to do (action type, title and
/// detail, trimmed).
pub fn select_unresolved_dispatch_approval(
    blocked_candidates: &Vec<WorkflowAutomaticDispatchUnresolvedContinuationCandidate>,
) -> (r: CommandResult<AutoDispatchApprovalRequest>)
    ensures
        fault(r) == approval_fault(blocked_candidates@),
        r matches Ok(a) ==> {
            let c = blocked_candidates@[0];
            let g = answering_gates(c)[0];
            &&& a.gate_link.gate_node_id@ == g.gate_node_id@
            &&& a.gate_link.gate_key@ == g.gate_key@
            &&& a.gate_link.transition_from_node_id@ == c.from_node_id@
            &&& a.gate_link.transition_to_node_id@ == c.to_node_id@
            &&& a.gate_link.transition_kind@ == c.transition_kind@
            &&& Some(a.action_type@) == normalized_text(owned_text(g.action_type))
            &&& Some(a.title@) == normalized_text(owned_text(g.title))
            &&& Some(a.detail@) == normalized_text(owned_text(g.detail))
        },
{
    if blocked_candidates.len() == 0 {
        return Err(CommandError::user_fixable(
            "workflow_transition_gate_unmet",
            "Cadence skipped automatic dispatch because no unresolved continuation candidates were available for persistence.",
        ));
    }
    if blocked_candidates.len() > 1 {
        let summary = format_unresolved_dispatch_candidate_summary(blocked_candidates);
        let m = cat3(
            "Cadence skipped automatic dispatch because unresolved continuation metadata was ambiguous (",
            summary.as_str(),
            ").",
        );
        return Err(CommandError::user_fixable("workflow_transition_gate_unmet", m.as_str()));
    }
    let c = &blocked_candidates[0];
    let (count, first_gate): (usize, usize) = match &c.gate_requirement {
        Some(k) => {
            keyed_gates(&c.unresolved_gates, k.as_str())
        },
        None => (c.unresolved_gates.len(), 0),
    };
    let head = cat5(
        "Cadence skipped automatic dispatch for `",
        c.from_node_id.as_str(),
        "` -> `",
        c.to_node_id.as_str(),
        "` (",
    );
    let head = cat3(head.as_str(), c.transition_kind.as_str(), ")");
    if count == 0 {
        let m = cat2(head.as_str(), " because required gate linkage could not be resolved from unresolved metadata.");
        return Err(CommandError::user_fixable("workflow_transition_gate_unmet", m.as_str()));
    }
    if count > 1 {
        let m = cat2(
            head.as_str(),
            " because unresolved gate metadata was ambiguous for deterministic approval persistence.",
        );
        return Err(CommandError::user_fixable("workflow_transition_gate_unmet", m.as_str()));
    }
    let g = &c.unresolved_gates[first_gate];
    assert(*g == answering_gates(*c)[0]);
    if !str_eq(g.gate_node_id.as_str(), c.to_node_id.as_str()) {
        let m = cat5(
            "Cadence could not persist gate-unmet auto-dispatch approval because gate node `",
            g.gate_node_id.as_str(),
            "` did not match continuation target `",
            c.to_node_id.as_str(),
            "`.",
        );
        return Err(CommandError::system_fault("runtime_action_request_invalid", m.as_str()));
    }
    let missing = cat3(head.as_str(), " because unresolved gate `", g.gate_key.as_str());
    let action_type = match crate::text::trimmed_present(crate::text::opt_str(&g.action_type)) {
        Some(v) => v,
        None => {
            let tail = cat3("` is non-actionable (missing `", "action_type", "`).");
            let m = cat2(missing.as_str(), tail.as_str());
            return Err(CommandError::user_fixable("workflow_transition_gate_unmet", m.as_str()));
        },
    };
    let title = match crate::text::trimmed_present(crate::text::opt_str(&g.title)) {
        Some(v) => v,
        None => {
            let tail = cat3("` is non-actionable (missing `", "title", "`).");
            let m = cat2(missing.as_str(), tail.as_str());
            return Err(CommandError::user_fixable("workflow_transition_gate_unmet", m.as_str()));
        },
    };
    let detail = match crate::text::trimmed_present(crate::text::opt_str(&g.detail)) {
        Some(v) => v,
        None => {
            let tail = cat3("` is non-actionable (missing `", "detail", "`).");
            let m = cat2(missing.as_str(), tail.as_str());
            return Err(CommandError::user_fixable("workflow_transition_gate_unmet", m.as_str()));
        },
    };
    Ok(AutoDispatchApprovalRequest {
        gate_link: crate::workflow::OperatorApprovalGateLinkInput {
            gate_node_id: own(g.gate_node_id.as_str()),
            gate_key: own(g.gate_key.as_str()),
            transition_from_node_id: own(c.from_node_id.as_str()),
            transition_to_node_id: own(c.to_node_id.as_str()),
            transition_kind: own(c.transition_kind.as_str()),
        },
        action_type,
        title,
        detail,
    })
}

} // verus!

verus! {

/// The session and flow an automatic-dispatch approval is filed under: the
/// runtime session's (trimmed, non-blank) ids where it has either, else a
/// session and flow named after the project and the transition.
pub open spec fn operator_scope(
    project_id: Seq<char>,
    transition_id: Seq<char>,
    runtime_flow_id: Option<Seq<char>>,
    runtime_session_id: Option<Seq<char>>,
) -> (Seq<char>, Option<Seq<char>>) {
    let flow = normalized_text(runtime_flow_id);
    let session = normalized_text(runtime_session_id);
    let fallback = "workflow-auto-dispatch:"@ + project_id;
    if flow is Some || session is Some {
        (
            match session {
                Some(s) => s,
                None => fallback,
            },
            flow,
        )
    } else {
        (fallback, Some(fallback + ":"@ + transition_id))
    }
}

pub fn derive_auto_dispatch_operator_scope(
    project_id: &str,
    transition_id: &str,
    runtime_flow_id: Option<&str>,
    runtime_session_id: Option<&str>,
) -> (r: CommandResult<(String, Option<String>)>)
    ensures
        ({
            let (s, f) = operator_scope(
                project_id@,
                transition_id@,
                crate::text::borrowed_text(runtime_flow_id),
                crate::text::borrowed_text(runtime_session_id),
            );
            let code = "runtime_action_request_invalid"@;
            &&& fault(r) == first(
                crate::error::nonempty(s, "session_id"@, code),
                match f {
                    Some(t) => crate::error::nonempty(t, "flow_id"@, code),
                    None => None,
                },
            )
            &&& r matches Ok(v) ==> v.0@ == s && owned_text(v.1) == f
        }),
{
    let flow = crate::text::trimmed_present(runtime_flow_id);
    let session = crate::text::trimmed_present(runtime_session_id);
    let fallback = cat2("workflow-auto-dispatch:", project_id);
    let (session_id, flow_id) = if flow.is_some() || session.is_some() {
        (
            match session {
                Some(s) => s,
                None => fallback,
            },
            flow,
        )
    } else {
        let f = cat3(fallback.as_str(), ":", transition_id);
        (fallback, Some(f))
    };
    let r = crate::error::validate_non_empty_text(session_id.as_str(), "session_id", "runtime_action_request_invalid");
    if let Err(e) = r {
        return Err(e);
    }
    if let Some(f) = &flow_id {
        let r = crate::error::validate_non_empty_text(f.as_str(), "flow_id", "runtime_action_request_invalid");
        if let Err(e) = r {
            return Err(e);
        }
    }
    Ok((session_id, flow_id))
}

} // verus!
