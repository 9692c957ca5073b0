//! Assembling a workflow handoff package for a transition: which records go
//! into it, in what order, and the redaction rule every text in it meets.

use vstd::prelude::*;
use crate::error::{
    CommandError, CommandErrorClass, CommandResult, Fault, error_is, fault, first, sf, uf,
};
use crate::redaction::{find_prohibited_workflow_handoff_content, prohibited_hint};
use crate::text::{cat2, cat3, cat5, chars_of, own, owned_text, starts_with, starts_with_chars, str_eq};
use crate::workflow::{
    PhaseStatus, PhaseStep, WorkflowGateMetadataRecord, WorkflowGraphNodeRecord, WorkflowTransitionEventRecord,
    WorkflowHandoffPackageUpsertRecord, gate_decision_text, gate_state_text, json_object_text, read_json_object,
    workflow_gate_state_sql_value, workflow_transition_gate_decision_sql_value,
};
use crate::dispatch::{opt_text_before, opt_text_less};
use crate::sorting::{lemma_insert_sorted_at, sort_by};
use crate::text::{lemma_text_less_irreflexive, text_less, text_less_exec};

verus! {

pub const WORKFLOW_HANDOFF_PACKAGE_SCHEMA_VERSION: u32 = 1;

// ------------------------------------------------------------ redaction

/// The fault of a handoff text `value` at `field` that holds secret-bearing
/// content.
pub open spec fn redaction_fault(value: Seq<char>, field: Seq<char>) -> Option<Fault> {
    match prohibited_hint(value) {
        Some(h) => uf(
            "workflow_handoff_redaction_failed"@,
            "Cadence refused to assemble workflow handoff package because `"@ + field + "` contained "@
                + h + ". Remove secret-bearing transcript/tool/auth content before retrying."@,
        ),
        None => None,
    }
}

pub open spec fn redaction_fault_opt(value: Option<Seq<char>>, field: Seq<char>) -> Option<Fault> {
    match value {
        Some(v) => redaction_fault(v, field),
        None => None,
    }
}

/// Refuses `value` where it holds secret-bearing content.
pub fn ensure_workflow_handoff_safe_text(value: &str, field: &str) -> (r: CommandResult<()>)
    ensures
        fault(r) == redaction_fault(value@, field@),
{
    match find_prohibited_workflow_handoff_content(value) {
        Some(hint) => {
            let head = cat5(
                "Cadence refused to assemble workflow handoff package because `",
                field,
                "` contained ",
                hint,
                ". Remove secret-bearing transcript/tool/auth content before retrying.",
            );
            Err(CommandError::user_fixable("workflow_handoff_redaction_failed", head.as_str()))
        },
        None => Ok(()),
    }
}

/// Refuses a present `value` that holds secret-bearing content.
pub fn ensure_workflow_handoff_optional_text(value: Option<&str>, field: &str) -> (r: CommandResult<()>)
    ensures
        fault(r) == redaction_fault_opt(crate::text::borrowed_text(value), field@),
{
    match value {
        Some(v) => ensure_workflow_handoff_safe_text(v, field),
        None => Ok(()),
    }
}

// ------------------------------------------------------------ dependencies

pub open spec fn dependency_message(dependency: Seq<char>, error: CommandError) -> Seq<char> {
    "Cadence could not assemble workflow handoff package because "@ + dependency
        + " could not be loaded: "@ + error.message@
}

/// A failure to load what a package is built from, under the build's own
/// `code`: user-fixable and policy failures stay user-fixable, the others
/// keep their class.
pub fn map_workflow_handoff_build_dependency_error(code: &str, dependency: &str, error: CommandError) -> (e:
    CommandError)
    ensures
        e.code@ == code@,
        e.message@ == dependency_message(dependency@, error),
        e.class == match error.class {
            CommandErrorClass::UserFixable | CommandErrorClass::PolicyDenied => CommandErrorClass::UserFixable,
            CommandErrorClass::Retryable => CommandErrorClass::Retryable,
            CommandErrorClass::SystemFault => CommandErrorClass::SystemFault,
        },
        e.retryable == (error.class == CommandErrorClass::Retryable),
{
    let head = cat3("Cadence could not assemble workflow handoff package because ", dependency, " could not be loaded: ");
    let message = cat2(head.as_str(), error.message.as_str());
    match error.class {
        CommandErrorClass::UserFixable | CommandErrorClass::PolicyDenied => CommandError::user_fixable(
            code,
            message.as_str(),
        ),
        CommandErrorClass::Retryable => CommandError::retryable(code, message.as_str()),
        CommandErrorClass::SystemFault => CommandError::system_fault(code, message.as_str()),
    }
}

// ------------------------------------------------------------ trigger

/// The fault of the transition a package is built for: an automatic
/// transition must name its cause, and its texts must be safe.
pub open spec fn trigger_fault(t: WorkflowTransitionEventRecord) -> Option<Fault> {
    if starts_with(t.transition_id@, "auto:"@) && t.causal_transition_id is None {
        sf(
            "workflow_handoff_build_causal_missing"@,
            "Cadence cannot assemble workflow handoff package `"@ + t.transition_id@
                + "` because automatic transitions must retain causal transition linkage."@,
        )
    } else {
        first(
            redaction_fault(t.transition_id@, "triggerTransition.transitionId"@),
            first(
                redaction_fault_opt(owned_text(t.causal_transition_id), "triggerTransition.causalTransitionId"@),
                first(
                    redaction_fault(t.from_node_id@, "triggerTransition.fromNodeId"@),
                    first(
                        redaction_fault(t.to_node_id@, "triggerTransition.toNodeId"@),
                        redaction_fault(t.transition_kind@, "triggerTransition.transitionKind"@),
                    ),
                ),
            ),
        )
    }
}

pub fn validate_workflow_handoff_trigger(t: &WorkflowTransitionEventRecord) -> (r: CommandResult<()>)
    ensures
        fault(r) == trigger_fault(*t),
{
    let id = chars_of(t.transition_id.as_str());
    let auto = chars_of("auto:");
    proof {
        reveal_strlit("auto:");
    }
    if starts_with_chars(&id, &auto) && t.causal_transition_id.is_none() {
        let m = cat3(
            "Cadence cannot assemble workflow handoff package `",
            t.transition_id.as_str(),
            "` because automatic transitions must retain causal transition linkage.",
        );
        return Err(CommandError::system_fault("workflow_handoff_build_causal_missing", m.as_str()));
    }
    let r = ensure_workflow_handoff_safe_text(t.transition_id.as_str(), "triggerTransition.transitionId");
    if r.is_err() {
        return r;
    }
    let r = ensure_workflow_handoff_optional_text(
        crate::text::opt_str(&t.causal_transition_id),
        "triggerTransition.causalTransitionId",
    );
    if r.is_err() {
        return r;
    }
    let r = ensure_workflow_handoff_safe_text(t.from_node_id.as_str(), "triggerTransition.fromNodeId");
    if r.is_err() {
        return r;
    }
    let r = ensure_workflow_handoff_safe_text(t.to_node_id.as_str(), "triggerTransition.toNodeId");
    if r.is_err() {
        return r;
    }
    ensure_workflow_handoff_safe_text(t.transition_kind.as_str(), "triggerTransition.transitionKind")
}

} // verus!

verus! {

// ------------------------------------------------------------ destination

/// The index of the first node with id `id`.
pub open spec fn first_node_with_id(nodes: Seq<WorkflowGraphNodeRecord>, id: Seq<char>) -> Option<int> {
    if exists|i: int| 0 <= i < nodes.len() && #[trigger] nodes[i].node_id@ == id {
        Some(choose|i: int| 0 <= i < nodes.len() && #[trigger] nodes[i].node_id@ == id
            && forall|j: int| 0 <= j < i ==> #[trigger] nodes[j].node_id@ != id)
    } else {
        None
    }
}

pub open spec fn target_missing_fault(t: WorkflowTransitionEventRecord) -> Option<Fault> {
    uf(
        "workflow_handoff_build_target_missing"@,
        "Cadence cannot assemble workflow handoff package `"@ + t.transition_id@ + "` because destination node `"@
            + t.to_node_id@ + "` metadata is missing."@,
    )
}

pub open spec fn destination_text_fault(n: WorkflowGraphNodeRecord) -> Option<Fault> {
    first(
        redaction_fault(n.node_id@, "destinationState.nodeId"@),
        first(
            redaction_fault(n.name@, "destinationState.name"@),
            redaction_fault(n.description@, "destinationState.description"@),
        ),
    )
}

/// The node a transition lands on: the first with its target id, with safe
/// texts.
pub fn find_destination_node(nodes: Vec<WorkflowGraphNodeRecord>, t: &WorkflowTransitionEventRecord) -> (r:
    CommandResult<WorkflowGraphNodeRecord>)
    ensures
        match first_node_with_id(nodes@, t.to_node_id@) {
            None => fault(r) == target_missing_fault(*t),
            Some(i) => match destination_text_fault(nodes@[i]) {
                Some(f) => fault(r) == Some(f),
                None => r == Ok::<WorkflowGraphNodeRecord, CommandError>(nodes@[i]),
            },
        },
{
    let ghost all = nodes@;
    let n = nodes.len();
    let mut rest = nodes;
    let mut i: usize = 0;
    while i < n
        invariant
            n == all.len(),
            all == nodes@,
            i <= n,
            rest@ == all.subrange(i as int, n as int),
            forall|j: int| 0 <= j < i ==> #[trigger] all[j].node_id@ != t.to_node_id@,
        decreases n - i,
    {
        let node = rest.remove(0);
        assert(node == all[i as int]);
        if str_eq(node.node_id.as_str(), t.to_node_id.as_str()) {
            proof {
                let k = first_node_with_id(all, t.to_node_id@)->0;
                assert(first_node_with_id(all, t.to_node_id@) is Some);
                if k < i {
                } else if k > i {
                    assert(all[i as int].node_id@ == t.to_node_id@);
                }
                assert(first_node_with_id(all, t.to_node_id@) == Some(i as int));
            }
            if let Err(e) = ensure_workflow_handoff_safe_text(node.node_id.as_str(), "destinationState.nodeId") {
                assert(destination_text_fault(node) == redaction_fault(node.node_id@, "destinationState.nodeId"@));
                return Err(e);
            }
            assert(redaction_fault(node.node_id@, "destinationState.nodeId"@) is None);
            if let Err(e) = ensure_workflow_handoff_safe_text(node.name.as_str(), "destinationState.name") {
                assert(destination_text_fault(node) == redaction_fault(node.name@, "destinationState.name"@));
                return Err(e);
            }
            if let Err(e) = ensure_workflow_handoff_safe_text(node.description.as_str(), "destinationState.description") {
                assert(destination_text_fault(node) == redaction_fault(node.description@, "destinationState.description"@));
                return Err(e);
            }
            return Ok(node);
        }
        i = i + 1;
    }
    let m = cat5(
        "Cadence cannot assemble workflow handoff package `",
        t.transition_id.as_str(),
        "` because destination node `",
        t.to_node_id.as_str(),
        "` metadata is missing.",
    );
    Err(CommandError::user_fixable("workflow_handoff_build_target_missing", m.as_str()))
}

} // verus!

verus! {

// ------------------------------------------------------------ destination gates

/// A gate of the destination node as a package carries it.
#[derive(Debug, Clone)]
pub struct WorkflowHandoffDestinationGatePayload {
    pub gate_key: String,
    pub gate_state: String,
    pub action_type: Option<String>,
    pub detail_present: bool,
    pub decision_context_present: bool,
}

/// Key, state text, action type, whether detail and decision context exist.
pub type GatePayloadView = (Seq<char>, Seq<char>, Option<Seq<char>>, bool, bool);

pub open spec fn gate_payload_view(g: WorkflowHandoffDestinationGatePayload) -> GatePayloadView {
    (g.gate_key@, g.gate_state@, owned_text(g.action_type), g.detail_present, g.decision_context_present)
}

pub open spec fn gate_payload_views(gs: Seq<WorkflowHandoffDestinationGatePayload>) -> Seq<GatePayloadView> {
    gs.map_values(|g: WorkflowHandoffDestinationGatePayload| gate_payload_view(g))
}

pub open spec fn gate_payload_of(g: WorkflowGateMetadataRecord) -> GatePayloadView {
    (g.gate_key@, gate_state_text(g.gate_state), owned_text(g.action_type), g.detail is Some, g.decision_context is Some)
}

/// The gates of `gs` on node `node`, in order.
pub open spec fn gates_on(gs: Seq<WorkflowGateMetadataRecord>, node: Seq<char>) -> Seq<WorkflowGateMetadataRecord>
    decreases gs.len(),
{
    if gs.len() == 0 {
        seq![]
    } else if gs.last().node_id@ == node {
        gates_on(gs.drop_last(), node).push(gs.last())
    } else {
        gates_on(gs.drop_last(), node)
    }
}

pub open spec fn gate_text_fault(g: WorkflowGateMetadataRecord) -> Option<Fault> {
    first(
        redaction_fault(g.gate_key@, "destinationState.gates[].gateKey"@),
        redaction_fault_opt(owned_text(g.action_type), "destinationState.gates[].actionType"@),
    )
}

/// The first text fault among `gs`, in order.
pub open spec fn gates_fault(gs: Seq<WorkflowGateMetadataRecord>) -> Option<Fault>
    decreases gs.len(),
{
    if gs.len() == 0 {
        None
    } else {
        first(gates_fault(gs.drop_last()), gate_text_fault(gs.last()))
    }
}

/// Gates ordered by key, then state text, then action type.
pub open spec fn gate_payload_less() -> spec_fn(GatePayloadView, GatePayloadView) -> bool {
    |a: GatePayloadView, b: GatePayloadView|
        text_less(a.0, b.0) || (a.0 == b.0 && text_less(a.1, b.1)) || (a.0 == b.0 && a.1 == b.1
            && opt_text_less(a.2, b.2))
}

/// The destination gates a package carries: those on `node`, sorted.
pub open spec fn destination_gates(gs: Seq<WorkflowGateMetadataRecord>, node: Seq<char>) -> Seq<GatePayloadView> {
    sort_by(gates_on(gs, node).map_values(|g: WorkflowGateMetadataRecord| gate_payload_of(g)), gate_payload_less())
}

fn gate_payload_before(a: &WorkflowHandoffDestinationGatePayload, b: &WorkflowHandoffDestinationGatePayload) -> (r: bool)
    ensures
        r == (gate_payload_less())(gate_payload_view(*a), gate_payload_view(*b)),
{
    if !str_eq(a.gate_key.as_str(), b.gate_key.as_str()) {
        return text_less_exec(a.gate_key.as_str(), b.gate_key.as_str());
    }
    proof {
        lemma_text_less_irreflexive(a.gate_key@);
    }
    if !str_eq(a.gate_state.as_str(), b.gate_state.as_str()) {
        return text_less_exec(a.gate_state.as_str(), b.gate_state.as_str());
    }
    proof {
        lemma_text_less_irreflexive(a.gate_state@);
    }
    opt_text_before(&a.action_type, &b.action_type)
}

fn sort_gate_payloads(v: Vec<WorkflowHandoffDestinationGatePayload>) -> (out: Vec<WorkflowHandoffDestinationGatePayload>)
    ensures
        gate_payload_views(out@) == sort_by(gate_payload_views(v@), gate_payload_less()),
{
    let ghost all = gate_payload_views(v@);
    let ghost src = v@;
    let n = v.len();
    let mut rest = v;
    let mut out: Vec<WorkflowHandoffDestinationGatePayload> = Vec::new();
    let mut i: usize = 0;
    while i < n
        invariant
            n == src.len(),
            all == gate_payload_views(src),
            i <= n,
            rest@ == src.subrange(i as int, n as int),
            gate_payload_views(out@) == sort_by(all.subrange(0, i as int), gate_payload_less()),
        decreases n - i,
    {
        let x = rest.remove(0);
        proof {
            assert(all.subrange(0, i + 1).drop_last() =~= all.subrange(0, i as int));
            assert(x == src[i as int]);
        }
        let mut p: usize = 0;
        while p < out.len() && !gate_payload_before(&x, &out[p])
            invariant
                p <= out.len(),
                forall|j: int| 0 <= j < p ==> !(gate_payload_less())(gate_payload_view(x), #[trigger] gate_payload_views(out@)[j]),
            decreases out.len() - p,
        {
            p = p + 1;
        }
        let ghost before = out@;
        proof {
            lemma_insert_sorted_at(gate_payload_views(out@), gate_payload_view(x), gate_payload_less(), p as int);
        }
        out.insert(p, x);
        assert(gate_payload_views(out@) =~= gate_payload_views(before).insert(p as int, gate_payload_view(x)));
        i = i + 1;
    }
    proof {
        assert(all.subrange(0, n as int) =~= all);
    }
    out
}

/// The gates on the destination node as a package carries them, sorted; or
/// the first gate whose texts are not safe.
pub fn collect_destination_gates(gates: Vec<WorkflowGateMetadataRecord>, node_id: &str) -> (r: CommandResult<
    Vec<WorkflowHandoffDestinationGatePayload>,
>)
    ensures
        match gates_fault(gates_on(gates@, node_id@)) {
            Some(f) => fault(r) == Some(f),
            None => r matches Ok(v) && gate_payload_views(v@) == destination_gates(gates@, node_id@),
        },
{
    let ghost all = gates@;
    let n = gates.len();
    let mut rest = gates;
    let mut out: Vec<WorkflowHandoffDestinationGatePayload> = Vec::new();
    let mut i: usize = 0;
    while i < n
        invariant
            n == all.len(),
            all == gates@,
            i <= n,
            rest@ == all.subrange(i as int, n as int),
            gates_fault(gates_on(all.subrange(0, i as int), node_id@)) is None,
            gate_payload_views(out@) == gates_on(all.subrange(0, i as int), node_id@).map_values(
                |g: WorkflowGateMetadataRecord| gate_payload_of(g),
            ),
        decreases n - i,
    {
        let g = rest.remove(0);
        proof {
            assert(all.subrange(0, i + 1).drop_last() =~= all.subrange(0, i as int));
            assert(g == all[i as int]);
        }
        let ghost prefix = gates_on(all.subrange(0, i as int), node_id@);
        if str_eq(g.node_id.as_str(), node_id) {
            assert(gates_on(all.subrange(0, i + 1), node_id@) == prefix.push(g));
            assert(prefix.push(g).drop_last() =~= prefix);
            if let Err(e) = ensure_workflow_handoff_safe_text(g.gate_key.as_str(), "destinationState.gates[].gateKey") {
                proof {
                    lemma_gates_fault_extends(all, node_id@, i as int + 1);
                }
                return Err(e);
            }
            if let Err(e) = ensure_workflow_handoff_optional_text(
                crate::text::opt_str(&g.action_type),
                "destinationState.gates[].actionType",
            ) {
                proof {
                    lemma_gates_fault_extends(all, node_id@, i as int + 1);
                }
                return Err(e);
            }
            let ghost before = out@;
            let p = WorkflowHandoffDestinationGatePayload {
                gate_key: g.gate_key.clone(),
                gate_state: own(workflow_gate_state_sql_value(&g.gate_state)),
                action_type: crate::text::clone_text_opt(&g.action_type),
                detail_present: g.detail.is_some(),
                decision_context_present: g.decision_context.is_some(),
            };
            out.push(p);
            proof {
                assert(gate_payload_views(out@) =~= gate_payload_views(before).push(gate_payload_view(p)));
                assert(prefix.push(g).map_values(|g: WorkflowGateMetadataRecord| gate_payload_of(g))
                    =~= prefix.map_values(|g: WorkflowGateMetadataRecord| gate_payload_of(g)).push(gate_payload_of(g)));
            }
        } else {
            assert(gates_on(all.subrange(0, i + 1), node_id@) == prefix);
        }
        i = i + 1;
    }
    proof {
        assert(all.subrange(0, n as int) =~= all);
    }
    Ok(sort_gate_payloads(out))
}

/// Where a prefix of the gates on `node` has a fault, every longer prefix
/// has the same first fault.
proof fn lemma_gates_fault_extends(all: Seq<WorkflowGateMetadataRecord>, node: Seq<char>, k: int)
    requires
        0 <= k <= all.len(),
        gates_fault(gates_on(all.subrange(0, k), node)) is Some,
    ensures
        gates_fault(gates_on(all, node)) == gates_fault(gates_on(all.subrange(0, k), node)),
    decreases all.len() - k,
{
    if k < all.len() {
        let s = all.subrange(0, k + 1);
        assert(s.drop_last() =~= all.subrange(0, k));
        let q = gates_on(all.subrange(0, k), node);
        if s.last().node_id@ == node {
            assert(gates_on(s, node) == q.push(s.last()));
            assert(q.push(s.last()).drop_last() =~= q);
        } else {
            assert(gates_on(s, node) == q);
        }
        lemma_gates_fault_extends(all, node, k + 1);
    } else {
        assert(all.subrange(0, k) =~= all);
    }
}

/// How many of `ps` are pending or blocked.
pub open spec fn pending_count(ps: Seq<GatePayloadView>) -> nat
    decreases ps.len(),
{
    if ps.len() == 0 {
        0
    } else {
        pending_count(ps.drop_last()) + if ps.last().1 == "pending"@ || ps.last().1 == "blocked"@ {
            1nat
        } else {
            0nat
        }
    }
}

/// How many gates are pending or blocked, as the package's `u32` count.
pub fn count_pending_gates(gates: &Vec<WorkflowHandoffDestinationGatePayload>) -> (n: u32)
    ensures
        n == pending_count(gate_payload_views(gates@)) as u32,
{
    let mut n: usize = 0;
    let mut i: usize = 0;
    while i < gates.len()
        invariant
            i <= gates.len(),
            n == pending_count(gate_payload_views(gates@.subrange(0, i as int))),
            n <= i,
        decreases gates.len() - i,
    {
        proof {
            assert(gate_payload_views(gates@.subrange(0, i + 1)).drop_last() =~= gate_payload_views(
                gates@.subrange(0, i as int),
            ));
            reveal_strlit("pending");
            reveal_strlit("blocked");
        }
        if str_eq(gates[i].gate_state.as_str(), "pending") || str_eq(gates[i].gate_state.as_str(), "blocked") {
            n = n + 1;
        }
        i = i + 1;
    }
    assert(gates@.subrange(0, gates@.len() as int) =~= gates@);
    n as u32
}

} // verus!

verus! {

// ------------------------------------------------------------ lifecycle

/// The planning stages in their canonical order.
#[derive(Debug, Clone, Copy, PartialEq, Eq, Structural)]
pub enum PlanningLifecycleStageKindDto {
    Discussion,
    Research,
    Requirements,
    Roadmap,
}

/// A stage of the planning lifecycle and the node that carries it.
#[derive(Debug, Clone)]
pub struct PlanningLifecycleStageDto {
    pub stage: PlanningLifecycleStageKindDto,
    pub node_id: String,
}

pub open spec fn stage_index(k: PlanningLifecycleStageKindDto) -> nat {
    match k {
        PlanningLifecycleStageKindDto::Discussion => 0,
        PlanningLifecycleStageKindDto::Research => 1,
        PlanningLifecycleStageKindDto::Requirements => 2,
        PlanningLifecycleStageKindDto::Roadmap => 3,
    }
}

pub fn workflow_handoff_lifecycle_stage_index(k: PlanningLifecycleStageKindDto) -> (i: usize)
    ensures
        i == stage_index(k),
{
    match k {
        PlanningLifecycleStageKindDto::Discussion => 0,
        PlanningLifecycleStageKindDto::Research => 1,
        PlanningLifecycleStageKindDto::Requirements => 2,
        PlanningLifecycleStageKindDto::Roadmap => 3,
    }
}

pub open spec fn stage_label(k: PlanningLifecycleStageKindDto) -> Seq<char> {
    match k {
        PlanningLifecycleStageKindDto::Discussion => "discussion"@,
        PlanningLifecycleStageKindDto::Research => "research"@,
        PlanningLifecycleStageKindDto::Requirements => "requirements"@,
        PlanningLifecycleStageKindDto::Roadmap => "roadmap"@,
    }
}

/// The name a message gives a stage.
pub fn planning_lifecycle_stage_label(k: &PlanningLifecycleStageKindDto) -> (s: &'static str)
    ensures
        s@ == stage_label(*k),
{
    match k {
        PlanningLifecycleStageKindDto::Discussion => "discussion",
        PlanningLifecycleStageKindDto::Research => "research",
        PlanningLifecycleStageKindDto::Requirements => "requirements",
        PlanningLifecycleStageKindDto::Roadmap => "roadmap",
    }
}

pub open spec fn lifecycle_invalid(message: Seq<char>) -> Option<Fault> {
    uf("workflow_handoff_build_lifecycle_invalid"@, message)
}

/// The fault of stage `s` after the stages `prev`: a stage kind seen
/// before, or one that comes before its predecessor.
pub open spec fn stage_order_fault(prev: Seq<PlanningLifecycleStageDto>, s: PlanningLifecycleStageDto, tid: Seq<
    char,
>) -> Option<Fault> {
    if exists|j: int| 0 <= j < prev.len() && stage_index(#[trigger] prev[j].stage) == stage_index(s.stage) {
        lifecycle_invalid(
            "Cadence cannot assemble workflow handoff package `"@ + tid + "` because lifecycle stage `"@
                + stage_label(s.stage) + "` appears more than once."@,
        )
    } else if prev.len() > 0 && stage_index(s.stage) < stage_index(prev.last().stage) {
        lifecycle_invalid(
            "Cadence cannot assemble workflow handoff package `"@ + tid
                + "` because lifecycle stages are not in canonical order."@,
        )
    } else {
        None
    }
}

/// The first stage that repeats a kind or breaks the canonical order.
pub open spec fn lifecycle_fault(stages: Seq<PlanningLifecycleStageDto>, tid: Seq<char>) -> Option<Fault>
    decreases stages.len(),
{
    if stages.len() == 0 {
        None
    } else {
        first(lifecycle_fault(stages.drop_last(), tid), stage_order_fault(stages.drop_last(), stages.last(), tid))
    }
}

/// Each stage kind appears at most once, in canonical order.
pub fn validate_workflow_handoff_lifecycle_projection(stages: &Vec<PlanningLifecycleStageDto>, transition_id: &str) -> (r:
    CommandResult<()>)
    ensures
        fault(r) == lifecycle_fault(stages@, transition_id@),
{
    let mut seen: Vec<bool> = vec![false, false, false, false];
    let mut previous: Option<usize> = None;
    let mut i: usize = 0;
    while i < stages.len()
        invariant
            i <= stages.len(),
            seen@.len() == 4,
            forall|k: int| 0 <= k < 4 ==> (#[trigger] seen@[k] <==> exists|j: int| 0 <= j < i && stage_index(
                #[trigger] stages@[j].stage,
            ) == k),
            previous == if i == 0 { None::<usize> } else { Some(stage_index(stages@[i - 1].stage) as usize) },
            lifecycle_fault(stages@.subrange(0, i as int), transition_id@) is None,
        decreases stages.len() - i,
    {
        let s = &stages[i];
        let idx = workflow_handoff_lifecycle_stage_index(s.stage);
        let ghost prev = stages@.subrange(0, i as int);
        proof {
            assert(stages@.subrange(0, i + 1).drop_last() =~= prev);
            assert(stages@.subrange(0, i + 1).last() == stages@[i as int]);
            assert forall|j: int| 0 <= j < prev.len() implies #[trigger] prev[j] == stages@[j] by {}
        }
        if seen[idx] {
            let m = cat5(
                "Cadence cannot assemble workflow handoff package `",
                transition_id,
                "` because lifecycle stage `",
                planning_lifecycle_stage_label(&s.stage),
                "` appears more than once.",
            );
            proof {
                let j = choose|j: int| 0 <= j < i && stage_index(#[trigger] stages@[j].stage) == idx;
                assert(prev[j] == stages@[j]);
                lemma_lifecycle_fault_extends(stages@, transition_id@, i as int + 1);
            }
            return Err(CommandError::user_fixable("workflow_handoff_build_lifecycle_invalid", m.as_str()));
        }
        proof {
            assert forall|j: int| 0 <= j < prev.len() implies stage_index(#[trigger] prev[j].stage) != stage_index(
                stages@[i as int].stage,
            ) by {
                assert(prev[j] == stages@[j]);
            }
        }
        if let Some(p) = previous {
            if idx < p {
                let m = cat3(
                    "Cadence cannot assemble workflow handoff package `",
                    transition_id,
                    "` because lifecycle stages are not in canonical order.",
                );
                proof {
                    lemma_lifecycle_fault_extends(stages@, transition_id@, i as int + 1);
                }
                return Err(CommandError::user_fixable("workflow_handoff_build_lifecycle_invalid", m.as_str()));
            }
        }
        seen.set(idx, true);
        previous = Some(idx);
        proof {
            assert forall|k: int| 0 <= k < 4 implies (#[trigger] seen@[k] <==> exists|j: int| 0 <= j < i + 1
                && stage_index(#[trigger] stages@[j].stage) == k) by {
                if k == idx {
                    assert(stage_index(stages@[i as int].stage) == k);
                }
            }
        }
        i = i + 1;
    }
    assert(stages@.subrange(0, stages@.len() as int) =~= stages@);
    Ok(())
}

proof fn lemma_lifecycle_fault_extends(all: Seq<PlanningLifecycleStageDto>, tid: Seq<char>, k: int)
    requires
        0 <= k <= all.len(),
        lifecycle_fault(all.subrange(0, k), tid) is Some,
    ensures
        lifecycle_fault(all, tid) == lifecycle_fault(all.subrange(0, k), tid),
    decreases all.len() - k,
{
    if k < all.len() {
        assert(all.subrange(0, k + 1).drop_last() =~= all.subrange(0, k));
        lemma_lifecycle_fault_extends(all, tid, k + 1);
    } else {
        assert(all.subrange(0, k) =~= all);
    }
}

pub open spec fn stage_text_fault(stages: Seq<PlanningLifecycleStageDto>) -> Option<Fault>
    decreases stages.len(),
{
    if stages.len() == 0 {
        None
    } else {
        first(
            stage_text_fault(stages.drop_last()),
            redaction_fault(stages.last().node_id@, "lifecycleProjection.stages[].nodeId"@),
        )
    }
}

/// Every stage's node id is safe to carry.
pub fn ensure_lifecycle_stage_texts(stages: &Vec<PlanningLifecycleStageDto>) -> (r: CommandResult<()>)
    ensures
        fault(r) == stage_text_fault(stages@),
{
    let mut i: usize = 0;
    while i < stages.len()
        invariant
            i <= stages.len(),
            stage_text_fault(stages@.subrange(0, i as int)) is None,
        decreases stages.len() - i,
    {
        proof {
            assert(stages@.subrange(0, i + 1).drop_last() =~= stages@.subrange(0, i as int));
        }
        if let Err(e) = ensure_workflow_handoff_safe_text(stages[i].node_id.as_str(), "lifecycleProjection.stages[].nodeId") {
            proof {
                lemma_stage_text_fault_extends(stages@, i as int + 1);
            }
            return Err(e);
        }
        i = i + 1;
    }
    assert(stages@.subrange(0, stages@.len() as int) =~= stages@);
    Ok(())
}

proof fn lemma_stage_text_fault_extends(all: Seq<PlanningLifecycleStageDto>, k: int)
    requires
        0 <= k <= all.len(),
        stage_text_fault(all.subrange(0, k)) is Some,
    ensures
        stage_text_fault(all) == stage_text_fault(all.subrange(0, k)),
    decreases all.len() - k,
{
    if k < all.len() {
        assert(all.subrange(0, k + 1).drop_last() =~= all.subrange(0, k));
        lemma_stage_text_fault_extends(all, k + 1);
    } else {
        assert(all.subrange(0, k) =~= all);
    }
}

} // verus!

verus! {

// ------------------------------------------------------------ operator continuity

#[derive(Debug, Clone, Copy, PartialEq, Eq, Structural)]
pub enum OperatorApprovalStatus {
    Pending,
    Approved,
    Rejected,
}

/// An operator approval as the package reads it.
#[derive(Debug, Clone)]
pub struct OperatorApprovalDto {
    pub action_id: String,
    pub action_type: String,
    pub status: OperatorApprovalStatus,
    pub gate_node_id: Option<String>,
    pub gate_key: Option<String>,
    pub transition_from_node_id: Option<String>,
    pub transition_to_node_id: Option<String>,
    pub transition_kind: Option<String>,
    pub created_at: String,
    pub updated_at: String,
}

/// A pending approval of a gate on the transition's target.
#[derive(Debug, Clone)]
pub struct WorkflowHandoffPendingGateActionPayload {
    pub action_id: String,
    pub action_type: String,
    pub gate_node_id: String,
    pub gate_key: String,
    pub transition_from_node_id: String,
    pub transition_to_node_id: String,
    pub transition_kind: String,
    pub created_at: String,
    pub updated_at: String,
}

pub type ActionView = (Seq<char>, Seq<char>, Seq<char>, Seq<char>, Seq<char>, Seq<char>, Seq<char>, Seq<char>, Seq<char>);

pub open spec fn action_view(a: WorkflowHandoffPendingGateActionPayload) -> ActionView {
    (
        a.action_id@,
        a.action_type@,
        a.gate_node_id@,
        a.gate_key@,
        a.transition_from_node_id@,
        a.transition_to_node_id@,
        a.transition_kind@,
        a.created_at@,
        a.updated_at@,
    )
}

pub open spec fn action_views(s: Seq<WorkflowHandoffPendingGateActionPayload>) -> Seq<ActionView> {
    s.map_values(|a: WorkflowHandoffPendingGateActionPayload| action_view(a))
}

/// A pending approval with a full gate link whose transition goes to `to`.
pub open spec fn carried_approval(a: OperatorApprovalDto, to: Seq<char>) -> bool {
    &&& a.status == OperatorApprovalStatus::Pending
    &&& a.gate_node_id is Some
    &&& a.gate_key is Some
    &&& a.transition_from_node_id is Some
    &&& a.transition_kind is Some
    &&& a.transition_to_node_id matches Some(t) && t@ == to
}

pub open spec fn approval_action(a: OperatorApprovalDto) -> ActionView {
    (
        a.action_id@,
        a.action_type@,
        a.gate_node_id->0@,
        a.gate_key->0@,
        a.transition_from_node_id->0@,
        a.transition_to_node_id->0@,
        a.transition_kind->0@,
        a.created_at@,
        a.updated_at@,
    )
}

/// The approvals a package carries, in order.
pub open spec fn carried_approvals(s: Seq<OperatorApprovalDto>, to: Seq<char>) -> Seq<OperatorApprovalDto>
    decreases s.len(),
{
    if s.len() == 0 {
        seq![]
    } else if carried_approval(s.last(), to) {
        carried_approvals(s.drop_last(), to).push(s.last())
    } else {
        carried_approvals(s.drop_last(), to)
    }
}

pub open spec fn action_text_fault(a: ActionView) -> Option<Fault> {
    first(
        redaction_fault(a.0, "operatorContinuity.pendingGateActions[].actionId"@),
        first(
            redaction_fault(a.1, "operatorContinuity.pendingGateActions[].actionType"@),
            first(
                redaction_fault(a.2, "operatorContinuity.pendingGateActions[].gateNodeId"@),
                first(
                    redaction_fault(a.3, "operatorContinuity.pendingGateActions[].gateKey"@),
                    first(
                        redaction_fault(a.4, "operatorContinuity.pendingGateActions[].transitionFromNodeId"@),
                        first(
                            redaction_fault(a.5, "operatorContinuity.pendingGateActions[].transitionToNodeId"@),
                            redaction_fault(a.6, "operatorContinuity.pendingGateActions[].transitionKind"@),
                        ),
                    ),
                ),
            ),
        ),
    )
}

pub open spec fn actions_fault(s: Seq<OperatorApprovalDto>) -> Option<Fault>
    decreases s.len(),
{
    if s.len() == 0 {
        None
    } else {
        first(actions_fault(s.drop_last()), action_text_fault(approval_action(s.last())))
    }
}

/// Actions ordered by id, then source node, target node and kind.
pub open spec fn action_less() -> spec_fn(ActionView, ActionView) -> bool {
    |a: ActionView, b: ActionView|
        text_less(a.0, b.0) || (a.0 == b.0 && text_less(a.4, b.4)) || (a.0 == b.0 && a.4 == b.4 && text_less(
            a.5,
            b.5,
        )) || (a.0 == b.0 && a.4 == b.4 && a.5 == b.5 && text_less(a.6, b.6))
}

/// The pending gate actions a package carries for a transition to `to`.
pub open spec fn pending_gate_actions(s: Seq<OperatorApprovalDto>, to: Seq<char>) -> Seq<ActionView> {
    sort_by(carried_approvals(s, to).map_values(|a: OperatorApprovalDto| approval_action(a)), action_less())
}

fn action_before(a: &WorkflowHandoffPendingGateActionPayload, b: &WorkflowHandoffPendingGateActionPayload) -> (r: bool)
    ensures
        r == (action_less())(action_view(*a), action_view(*b)),
{
    if !str_eq(a.action_id.as_str(), b.action_id.as_str()) {
        return text_less_exec(a.action_id.as_str(), b.action_id.as_str());
    }
    proof {
        lemma_text_less_irreflexive(a.action_id@);
    }
    if !str_eq(a.transition_from_node_id.as_str(), b.transition_from_node_id.as_str()) {
        return text_less_exec(a.transition_from_node_id.as_str(), b.transition_from_node_id.as_str());
    }
    proof {
        lemma_text_less_irreflexive(a.transition_from_node_id@);
    }
    if !str_eq(a.transition_to_node_id.as_str(), b.transition_to_node_id.as_str()) {
        return text_less_exec(a.transition_to_node_id.as_str(), b.transition_to_node_id.as_str());
    }
    proof {
        lemma_text_less_irreflexive(a.transition_to_node_id@);
    }
    text_less_exec(a.transition_kind.as_str(), b.transition_kind.as_str())
}

fn sort_actions(v: Vec<WorkflowHandoffPendingGateActionPayload>) -> (out: Vec<WorkflowHandoffPendingGateActionPayload>)
    ensures
        action_views(out@) == sort_by(action_views(v@), action_less()),
{
    let ghost all = action_views(v@);
    let ghost src = v@;
    let n = v.len();
    let mut rest = v;
    let mut out: Vec<WorkflowHandoffPendingGateActionPayload> = Vec::new();
    let mut i: usize = 0;
    while i < n
        invariant
            n == src.len(),
            all == action_views(src),
            i <= n,
            rest@ == src.subrange(i as int, n as int),
            action_views(out@) == sort_by(all.subrange(0, i as int), action_less()),
        decreases n - i,
    {
        let x = rest.remove(0);
        proof {
            assert(all.subrange(0, i + 1).drop_last() =~= all.subrange(0, i as int));
            assert(x == src[i as int]);
        }
        let mut p: usize = 0;
        while p < out.len() && !action_before(&x, &out[p])
            invariant
                p <= out.len(),
                forall|j: int| 0 <= j < p ==> !(action_less())(action_view(x), #[trigger] action_views(out@)[j]),
            decreases out.len() - p,
        {
            p = p + 1;
        }
        let ghost before = out@;
        proof {
            lemma_insert_sorted_at(action_views(out@), action_view(x), action_less(), p as int);
        }
        out.insert(p, x);
        assert(action_views(out@) =~= action_views(before).insert(p as int, action_view(x)));
        i = i + 1;
    }
    proof {
        assert(all.subrange(0, n as int) =~= all);
    }
    out
}

} // verus!

verus! {

fn ensure_action_texts(a: &WorkflowHandoffPendingGateActionPayload) -> (r: CommandResult<()>)
    ensures
        fault(r) == action_text_fault(action_view(*a)),
{
    let r = ensure_workflow_handoff_safe_text(a.action_id.as_str(), "operatorContinuity.pendingGateActions[].actionId");
    if r.is_err() {
        return r;
    }
    let r = ensure_workflow_handoff_safe_text(a.action_type.as_str(), "operatorContinuity.pendingGateActions[].actionType");
    if r.is_err() {
        return r;
    }
    let r = ensure_workflow_handoff_safe_text(a.gate_node_id.as_str(), "operatorContinuity.pendingGateActions[].gateNodeId");
    if r.is_err() {
        return r;
    }
    let r = ensure_workflow_handoff_safe_text(a.gate_key.as_str(), "operatorContinuity.pendingGateActions[].gateKey");
    if r.is_err() {
        return r;
    }
    let r = ensure_workflow_handoff_safe_text(
        a.transition_from_node_id.as_str(),
        "operatorContinuity.pendingGateActions[].transitionFromNodeId",
    );
    if r.is_err() {
        return r;
    }
    let r = ensure_workflow_handoff_safe_text(
        a.transition_to_node_id.as_str(),
        "operatorContinuity.pendingGateActions[].transitionToNodeId",
    );
    if r.is_err() {
        return r;
    }
    ensure_workflow_handoff_safe_text(a.transition_kind.as_str(), "operatorContinuity.pendingGateActions[].transitionKind")
}

/// The pending approval `a` as a gate action, where it is carried.
fn approval_as_action(a: OperatorApprovalDto, to: &str) -> (r: Option<WorkflowHandoffPendingGateActionPayload>)
    ensures
        r is Some <==> carried_approval(a, to@),
        r matches Some(p) ==> action_view(p) == approval_action(a),
{
    if a.status != OperatorApprovalStatus::Pending {
        return None;
    }
    match (a.gate_node_id, a.gate_key, a.transition_from_node_id, a.transition_to_node_id, a.transition_kind) {
        (Some(gate_node_id), Some(gate_key), Some(from), Some(target), Some(kind)) => {
            if !str_eq(target.as_str(), to) {
                return None;
            }
            Some(WorkflowHandoffPendingGateActionPayload {
                action_id: a.action_id,
                action_type: a.action_type,
                gate_node_id,
                gate_key,
                transition_from_node_id: from,
                transition_to_node_id: target,
                transition_kind: kind,
                created_at: a.created_at,
                updated_at: a.updated_at,
            })
        },
        _ => None,
    }
}

/// The pending approvals of gates on the transition's target as gate
/// actions, sorted; or the first whose texts are not safe.
pub fn collect_pending_gate_actions(approvals: Vec<OperatorApprovalDto>, to_node_id: &str) -> (r: CommandResult<
    Vec<WorkflowHandoffPendingGateActionPayload>,
>)
    ensures
        match actions_fault(carried_approvals(approvals@, to_node_id@)) {
            Some(f) => fault(r) == Some(f),
            None => r matches Ok(v) && action_views(v@) == pending_gate_actions(approvals@, to_node_id@),
        },
{
    let ghost all = approvals@;
    let n = approvals.len();
    let mut rest = approvals;
    let mut out: Vec<WorkflowHandoffPendingGateActionPayload> = Vec::new();
    let mut i: usize = 0;
    while i < n
        invariant
            n == all.len(),
            all == approvals@,
            i <= n,
            rest@ == all.subrange(i as int, n as int),
            actions_fault(carried_approvals(all.subrange(0, i as int), to_node_id@)) is None,
            action_views(out@) == carried_approvals(all.subrange(0, i as int), to_node_id@).map_values(
                |a: OperatorApprovalDto| approval_action(a),
            ),
        decreases n - i,
    {
        let a = rest.remove(0);
        proof {
            assert(all.subrange(0, i + 1).drop_last() =~= all.subrange(0, i as int));
            assert(a == all[i as int]);
        }
        let ghost prefix = carried_approvals(all.subrange(0, i as int), to_node_id@);
        let ghost ga = a;
        match approval_as_action(a, to_node_id) {
            Some(p) => {
                assert(carried_approvals(all.subrange(0, i + 1), to_node_id@) == prefix.push(ga));
                assert(prefix.push(ga).drop_last() =~= prefix);
                if let Err(e) = ensure_action_texts(&p) {
                    proof {
                        lemma_actions_fault_extends(all, to_node_id@, i as int + 1);
                    }
                    return Err(e);
                }
                let ghost before = out@;
                out.push(p);
                proof {
                    assert(action_views(out@) =~= action_views(before).push(action_view(p)));
                    assert(prefix.push(ga).map_values(|a: OperatorApprovalDto| approval_action(a))
                        =~= prefix.map_values(|a: OperatorApprovalDto| approval_action(a)).push(approval_action(ga)));
                }
            },
            None => {
                assert(carried_approvals(all.subrange(0, i + 1), to_node_id@) == prefix);
            },
        }
        i = i + 1;
    }
    proof {
        assert(all.subrange(0, n as int) =~= all);
    }
    Ok(sort_actions(out))
}

proof fn lemma_actions_fault_extends(all: Seq<OperatorApprovalDto>, to: Seq<char>, k: int)
    requires
        0 <= k <= all.len(),
        actions_fault(carried_approvals(all.subrange(0, k), to)) is Some,
    ensures
        actions_fault(carried_approvals(all, to)) == actions_fault(carried_approvals(all.subrange(0, k), to)),
    decreases all.len() - k,
{
    if k < all.len() {
        let s = all.subrange(0, k + 1);
        assert(s.drop_last() =~= all.subrange(0, k));
        let q = carried_approvals(all.subrange(0, k), to);
        if carried_approval(s.last(), to) {
            assert(carried_approvals(s, to) == q.push(s.last()));
            assert(q.push(s.last()).drop_last() =~= q);
        } else {
            assert(carried_approvals(s, to) == q);
        }
        lemma_actions_fault_extends(all, to, k + 1);
    } else {
        assert(all.subrange(0, k) =~= all);
    }
}

} // verus!

verus! {

/// An entry of the operator resume history, newest first.
#[derive(Debug, Clone)]
pub struct ResumeHistoryEntryDto {
    pub source_action_id: Option<String>,
    pub status: String,
    pub created_at: String,
}

/// The resume a package reports as the latest.
#[derive(Debug, Clone)]
pub struct WorkflowHandoffLatestResumePayload {
    pub source_action_id: Option<String>,
    pub status: String,
    pub created_at: String,
}

/// Whether entry `e` resumed one of the actions with ids `ids`.
pub open spec fn resumes_one_of(e: ResumeHistoryEntryDto, ids: Seq<Seq<char>>) -> bool {
    e.source_action_id matches Some(s) && ids.contains(s@)
}

/// The entry reported as the latest resume: the newest one where no gate
/// action is pending, else the newest that resumed a pending action.
pub open spec fn latest_resume_index(h: Seq<ResumeHistoryEntryDto>, ids: Seq<Seq<char>>) -> Option<int> {
    if ids.len() == 0 {
        if h.len() > 0 {
            Some(0)
        } else {
            None
        }
    } else if exists|i: int| 0 <= i < h.len() && resumes_one_of(#[trigger] h[i], ids) {
        Some(choose|i: int| 0 <= i < h.len() && resumes_one_of(#[trigger] h[i], ids)
            && forall|j: int| 0 <= j < i ==> !resumes_one_of(#[trigger] h[j], ids))
    } else {
        None
    }
}

pub open spec fn action_ids(actions: Seq<ActionView>) -> Seq<Seq<char>> {
    actions.map_values(|a: ActionView| a.0)
}

fn is_pending_action_id(actions: &Vec<WorkflowHandoffPendingGateActionPayload>, id: &str) -> (r: bool)
    ensures
        r == action_ids(action_views(actions@)).contains(id@),
{
    let mut i: usize = 0;
    while i < actions.len()
        invariant
            i <= actions.len(),
            forall|j: int| 0 <= j < i ==> (#[trigger] actions@[j]).action_id@ != id@,
        decreases actions.len() - i,
    {
        if str_eq(actions[i].action_id.as_str(), id) {
            assert(action_ids(action_views(actions@))[i as int] == id@);
            return true;
        }
        i = i + 1;
    }
    proof {
        if action_ids(action_views(actions@)).contains(id@) {
            let j = choose|j: int| 0 <= j < actions@.len() && action_ids(action_views(actions@))[j] == id@;
            assert(actions@[j].action_id@ == id@);
        }
    }
    false
}

pub open spec fn latest_resume_fault(h: Seq<ResumeHistoryEntryDto>, ids: Seq<Seq<char>>) -> Option<Fault> {
    match latest_resume_index(h, ids) {
        Some(i) => redaction_fault_opt(
            owned_text(h[i].source_action_id),
            "operatorContinuity.latestResume.sourceActionId"@,
        ),
        None => None,
    }
}

fn latest_resume_position(history: &Vec<ResumeHistoryEntryDto>, actions: &Vec<WorkflowHandoffPendingGateActionPayload>) -> (r:
    Option<usize>)
    ensures
        match r {
            Some(i) => i < history.len() && latest_resume_index(history@, action_ids(action_views(actions@))) == Some(
                i as int,
            ),
            None => latest_resume_index(history@, action_ids(action_views(actions@))) is None,
        },
{
    let ghost ids = action_ids(action_views(actions@));
    if actions.len() == 0 {
        assert(ids.len() == 0);
        if history.len() > 0 {
            return Some(0);
        }
        return None;
    }
    let mut i: usize = 0;
    while i < history.len()
        invariant
            ids == action_ids(action_views(actions@)),
            ids.len() > 0,
            i <= history.len(),
            forall|j: int| 0 <= j < i ==> !resumes_one_of(#[trigger] history@[j], ids),
        decreases history.len() - i,
    {
        let hit = match &history[i].source_action_id {
            Some(s) => is_pending_action_id(actions, s.as_str()),
            None => false,
        };
        if hit {
            proof {
                let k = latest_resume_index(history@, ids)->0;
                assert(resumes_one_of(history@[i as int], ids));
                assert(latest_resume_index(history@, ids) == Some(i as int));
            }
            return Some(i);
        }
        i = i + 1;
    }
    proof {
        if latest_resume_index(history@, ids) is Some {
            let k = latest_resume_index(history@, ids)->0;
            assert(resumes_one_of(history@[k], ids));
        }
    }
    None
}

/// The latest resume for the pending `actions`, with a safe source id.
pub fn select_latest_resume(history: &Vec<ResumeHistoryEntryDto>, actions: &Vec<WorkflowHandoffPendingGateActionPayload>) -> (r:
    CommandResult<Option<WorkflowHandoffLatestResumePayload>>)
    ensures
        ({
            let ids = action_ids(action_views(actions@));
            match latest_resume_fault(history@, ids) {
                Some(f) => fault(r) == Some(f),
                None => r matches Ok(o) && match latest_resume_index(history@, ids) {
                    None => o is None,
                    Some(i) => o matches Some(p) && owned_text(p.source_action_id) == owned_text(
                        history@[i].source_action_id,
                    ) && p.status@ == history@[i].status@ && p.created_at@ == history@[i].created_at@,
                },
            }
        }),
{
    match latest_resume_position(history, actions) {
        None => Ok(None),
        Some(i) => {
            let e = &history[i];
            if let Err(err) = ensure_workflow_handoff_optional_text(
                crate::text::opt_str(&e.source_action_id),
                "operatorContinuity.latestResume.sourceActionId",
            ) {
                return Err(err);
            }
            Ok(Some(WorkflowHandoffLatestResumePayload {
                source_action_id: crate::text::clone_text_opt(&e.source_action_id),
                status: own(e.status.as_str()),
                created_at: own(e.created_at.as_str()),
            }))
        },
    }
}

} // verus!

verus! {

// ------------------------------------------------------------ the package

#[derive(Debug, Clone)]
pub struct WorkflowHandoffTriggerTransitionPayload {
    pub transition_id: String,
    pub causal_transition_id: Option<String>,
    pub from_node_id: String,
    pub to_node_id: String,
    pub transition_kind: String,
    pub gate_decision: String,
    pub gate_decision_context_present: bool,
    pub occurred_at: String,
}

#[derive(Debug, Clone)]
pub struct WorkflowHandoffDestinationStatePayload {
    pub node_id: String,
    pub phase_id: u32,
    pub sort_order: u32,
    pub name: String,
    pub description: String,
    pub status: PhaseStatus,
    pub current_step: Option<PhaseStep>,
    pub task_count: u32,
    pub completed_tasks: u32,
    pub pending_gate_count: u32,
    pub gates: Vec<WorkflowHandoffDestinationGatePayload>,
}

#[derive(Debug, Clone)]
pub struct WorkflowHandoffLifecycleProjectionPayload {
    pub stages: Vec<PlanningLifecycleStageDto>,
}

#[derive(Debug, Clone)]
pub struct WorkflowHandoffOperatorContinuityPayload {
    pub pending_gate_action_count: u32,
    pub pending_gate_actions: Vec<WorkflowHandoffPendingGateActionPayload>,
    pub latest_resume: Option<WorkflowHandoffLatestResumePayload>,
}

/// What a handoff package tells the next stage about a transition.
#[derive(Debug, Clone)]
pub struct WorkflowHandoffPackagePayload {
    pub schema_version: u32,
    pub trigger_transition: WorkflowHandoffTriggerTransitionPayload,
    pub destination_state: WorkflowHandoffDestinationStatePayload,
    pub lifecycle_projection: WorkflowHandoffLifecycleProjectionPayload,
    pub operator_continuity: WorkflowHandoffOperatorContinuityPayload,
}

/// The class a load failure keeps under the build's own code.
pub open spec fn dependency_class(c: CommandErrorClass) -> CommandErrorClass {
    match c {
        CommandErrorClass::UserFixable | CommandErrorClass::PolicyDenied => CommandErrorClass::UserFixable,
        CommandErrorClass::Retryable => CommandErrorClass::Retryable,
        CommandErrorClass::SystemFault => CommandErrorClass::SystemFault,
    }
}

/// The fault of a failed load of `dependency`.
pub open spec fn dependency_fault<T>(r: Result<T, CommandError>, code: Seq<char>, dependency: Seq<char>) -> Option<
    Fault,
> {
    match r {
        Ok(_) => None,
        Err(e) => Some(
            (code, dependency_class(e.class), dependency_message(dependency, e), e.class == CommandErrorClass::Retryable),
        ),
    }
}

/// The node a package describes, where the transition's target exists.
pub open spec fn destination_of(nodes: Seq<WorkflowGraphNodeRecord>, t: WorkflowTransitionEventRecord) -> WorkflowGraphNodeRecord {
    nodes[first_node_with_id(nodes, t.to_node_id@)->0]
}

pub open spec fn destination_fault(nodes: Seq<WorkflowGraphNodeRecord>, t: WorkflowTransitionEventRecord) -> Option<Fault> {
    match first_node_with_id(nodes, t.to_node_id@) {
        None => target_missing_fault(t),
        Some(i) => destination_text_fault(nodes[i]),
    }
}

/// The first fault of assembling a package, in the order the parts are
/// loaded and checked.
pub open spec fn assembly_fault(
    t: WorkflowTransitionEventRecord,
    nodes: Result<Vec<WorkflowGraphNodeRecord>, CommandError>,
    gates: Result<Vec<WorkflowGateMetadataRecord>, CommandError>,
    stages: Result<Vec<PlanningLifecycleStageDto>, CommandError>,
    approvals: Result<Vec<OperatorApprovalDto>, CommandError>,
    history: Result<Vec<ResumeHistoryEntryDto>, CommandError>,
) -> Option<Fault> {
    let ns = nodes->Ok_0@;
    let gs = gates->Ok_0@;
    let ss = stages->Ok_0@;
    let aps = approvals->Ok_0@;
    let hs = history->Ok_0@;
    let dest = destination_of(ns, t);
    first(trigger_fault(t),
    first(dependency_fault(nodes, "workflow_handoff_build_node_state_invalid"@, "workflow node state"@),
    first(destination_fault(ns, t),
    first(dependency_fault(gates, "workflow_handoff_build_gate_state_invalid"@, "destination gate state"@),
    first(gates_fault(gates_on(gs, dest.node_id@)),
    first(dependency_fault(stages, "workflow_handoff_build_lifecycle_invalid"@, "lifecycle projection"@),
    first(lifecycle_fault(ss, t.transition_id@),
    first(stage_text_fault(ss),
    first(dependency_fault(approvals, "workflow_handoff_build_operator_state_invalid"@, "operator approvals"@),
    first(actions_fault(carried_approvals(aps, t.to_node_id@)),
    first(dependency_fault(history, "workflow_handoff_build_operator_state_invalid"@, "operator resume history"@),
    latest_resume_fault(hs, action_ids(pending_gate_actions(aps, t.to_node_id@))))))))))))))
}

/// The payload's record of the transition itself.
pub open spec fn trigger_payload_is(p: WorkflowHandoffTriggerTransitionPayload, t: WorkflowTransitionEventRecord) -> bool {
    &&& p.transition_id@ == t.transition_id@
    &&& owned_text(p.causal_transition_id) == owned_text(t.causal_transition_id)
    &&& p.from_node_id@ == t.from_node_id@
    &&& p.to_node_id@ == t.to_node_id@
    &&& p.transition_kind@ == t.transition_kind@
    &&& p.gate_decision@ == gate_decision_text(t.gate_decision)
    &&& p.gate_decision_context_present == (t.gate_decision_context is Some)
    &&& p.occurred_at@ == t.created_at@
}

/// The payload's record of the destination node and its gates.
pub open spec fn destination_payload_is(
    p: WorkflowHandoffDestinationStatePayload,
    n: WorkflowGraphNodeRecord,
    gates: Seq<WorkflowGateMetadataRecord>,
) -> bool {
    &&& p.node_id@ == n.node_id@
    &&& p.phase_id == n.phase_id
    &&& p.sort_order == n.sort_order
    &&& p.name@ == n.name@
    &&& p.description@ == n.description@
    &&& p.status == n.status
    &&& p.current_step == n.current_step
    &&& p.task_count == n.task_count
    &&& p.completed_tasks == n.completed_tasks
    &&& gate_payload_views(p.gates@) == destination_gates(gates, n.node_id@)
    &&& p.pending_gate_count == pending_count(destination_gates(gates, n.node_id@)) as u32
}

/// The payload's record of what the operator has pending and last resumed.
pub open spec fn continuity_payload_is(
    p: WorkflowHandoffOperatorContinuityPayload,
    approvals: Seq<OperatorApprovalDto>,
    history: Seq<ResumeHistoryEntryDto>,
    to: Seq<char>,
) -> bool {
    let actions = pending_gate_actions(approvals, to);
    &&& action_views(p.pending_gate_actions@) == actions
    &&& p.pending_gate_action_count == actions.len() as u32
    &&& match latest_resume_index(history, action_ids(actions)) {
        None => p.latest_resume is None,
        Some(i) => p.latest_resume matches Some(l) && owned_text(l.source_action_id) == owned_text(
            history[i].source_action_id,
        ) && l.status@ == history[i].status@ && l.created_at@ == history[i].created_at@,
    }
}

fn copy_trigger(t: &WorkflowTransitionEventRecord) -> (p: WorkflowHandoffTriggerTransitionPayload)
    ensures
        trigger_payload_is(p, *t),
{
    WorkflowHandoffTriggerTransitionPayload {
        transition_id: own(t.transition_id.as_str()),
        causal_transition_id: crate::text::clone_text_opt(&t.causal_transition_id),
        from_node_id: own(t.from_node_id.as_str()),
        to_node_id: own(t.to_node_id.as_str()),
        transition_kind: own(t.transition_kind.as_str()),
        gate_decision: own(workflow_transition_gate_decision_sql_value(&t.gate_decision)),
        gate_decision_context_present: t.gate_decision_context.is_some(),
        occurred_at: own(t.created_at.as_str()),
    }
}

/// Assembles the package for transition `t` from what was loaded for its
/// project: the graph's nodes and gates, the lifecycle stages, the operator
/// approvals and the resume history (each the load's result). Loads that
/// failed, and parts that break the package's rules, fail it in the order
/// the parts are taken.
pub fn assemble_workflow_handoff_package_payload(
    t: &WorkflowTransitionEventRecord,
    nodes: Result<Vec<WorkflowGraphNodeRecord>, CommandError>,
    gates: Result<Vec<WorkflowGateMetadataRecord>, CommandError>,
    stages: Result<Vec<PlanningLifecycleStageDto>, CommandError>,
    approvals: Result<Vec<OperatorApprovalDto>, CommandError>,
    history: Result<Vec<ResumeHistoryEntryDto>, CommandError>,
) -> (r: CommandResult<WorkflowHandoffPackagePayload>)
    ensures
        fault(r) == assembly_fault(*t, nodes, gates, stages, approvals, history),
        r matches Ok(p) ==> {
            &&& p.schema_version == WORKFLOW_HANDOFF_PACKAGE_SCHEMA_VERSION
            &&& trigger_payload_is(p.trigger_transition, *t)
            &&& destination_payload_is(p.destination_state, destination_of(nodes->Ok_0@, *t), gates->Ok_0@)
            &&& p.lifecycle_projection.stages@ == stages->Ok_0@
            &&& continuity_payload_is(p.operator_continuity, approvals->Ok_0@, history->Ok_0@, t.to_node_id@)
        },
{
    if let Err(e) = validate_workflow_handoff_trigger(t) {
        return Err(e);
    }
    let nodes = match nodes {
        Ok(v) => v,
        Err(e) => {
            return Err(map_workflow_handoff_build_dependency_error(
                "workflow_handoff_build_node_state_invalid",
                "workflow node state",
                e,
            ));
        },
    };
    let ghost ns = nodes@;
    let dest = match find_destination_node(nodes, t) {
        Ok(n) => n,
        Err(e) => {
            return Err(e);
        },
    };
    assert(dest == destination_of(ns, *t));
    let gates = match gates {
        Ok(v) => v,
        Err(e) => {
            return Err(map_workflow_handoff_build_dependency_error(
                "workflow_handoff_build_gate_state_invalid",
                "destination gate state",
                e,
            ));
        },
    };
    let ghost gs = gates@;
    let destination_gates = match collect_destination_gates(gates, dest.node_id.as_str()) {
        Ok(v) => v,
        Err(e) => {
            return Err(e);
        },
    };
    let pending_gate_count = count_pending_gates(&destination_gates);
    let stages = match stages {
        Ok(v) => v,
        Err(e) => {
            return Err(map_workflow_handoff_build_dependency_error(
                "workflow_handoff_build_lifecycle_invalid",
                "lifecycle projection",
                e,
            ));
        },
    };
    if let Err(e) = validate_workflow_handoff_lifecycle_projection(&stages, t.transition_id.as_str()) {
        return Err(e);
    }
    if let Err(e) = ensure_lifecycle_stage_texts(&stages) {
        return Err(e);
    }
    let approvals = match approvals {
        Ok(v) => v,
        Err(e) => {
            return Err(map_workflow_handoff_build_dependency_error(
                "workflow_handoff_build_operator_state_invalid",
                "operator approvals",
                e,
            ));
        },
    };
    let ghost aps = approvals@;
    let actions = match collect_pending_gate_actions(approvals, t.to_node_id.as_str()) {
        Ok(v) => v,
        Err(e) => {
            return Err(e);
        },
    };
    let history = match history {
        Ok(v) => v,
        Err(e) => {
            return Err(map_workflow_handoff_build_dependency_error(
                "workflow_handoff_build_operator_state_invalid",
                "operator resume history",
                e,
            ));
        },
    };
    let latest_resume = match select_latest_resume(&history, &actions) {
        Ok(l) => l,
        Err(e) => {
            return Err(e);
        },
    };
    let action_count = actions.len() as u32;
    Ok(WorkflowHandoffPackagePayload {
        schema_version: WORKFLOW_HANDOFF_PACKAGE_SCHEMA_VERSION,
        trigger_transition: copy_trigger(t),
        destination_state: WorkflowHandoffDestinationStatePayload {
            node_id: dest.node_id,
            phase_id: dest.phase_id,
            sort_order: dest.sort_order,
            name: dest.name,
            description: dest.description,
            status: dest.status,
            current_step: dest.current_step,
            task_count: dest.task_count,
            completed_tasks: dest.completed_tasks,
            pending_gate_count,
            gates: destination_gates,
        },
        lifecycle_projection: WorkflowHandoffLifecycleProjectionPayload { stages },
        operator_continuity: WorkflowHandoffOperatorContinuityPayload {
            pending_gate_action_count: action_count,
            pending_gate_actions: actions,
            latest_resume,
        },
    })
}

} // verus!

verus! {

/// The stored text of a package, from the payload's JSON text (or the
/// serializer's error): written back out with sorted keys, and refused
/// where it holds secret-bearing content.
pub open spec fn package_text(serialized: Result<String, String>, database_path: Seq<char>) -> Result<Seq<char>, Option<Fault>> {
    match serialized {
        Err(m) => Err(sf(
            "workflow_handoff_serialize_failed"@,
            "Cadence could not serialize workflow handoff package payload in "@ + database_path + ": "@ + m@,
        )),
        Ok(text) => {
            let j = json_object_text(text@);
            if j.0 != 2 {
                Err(sf(
                    "workflow_handoff_serialize_failed"@,
                    "Cadence could not canonicalize workflow handoff package payload in "@ + database_path + ": "@
                        + j.1,
                ))
            } else {
                match prohibited_hint(j.1) {
                    Some(h) => Err(uf(
                        "workflow_handoff_redaction_failed"@,
                        "Cadence refused to assemble workflow handoff package because serialized payload contained "@
                            + h + ". Remove secret-bearing transcript/tool/auth content before retrying."@,
                    )),
                    None => Ok(j.1),
                }
            }
        },
    }
}

/// The record that stores the package of transition `t` in project
/// `project_id`, from the payload's JSON text.
pub fn workflow_handoff_package_upsert_record(
    project_id: &str,
    t: &WorkflowTransitionEventRecord,
    serialized: Result<String, String>,
    database_path: &str,
) -> (r: CommandResult<WorkflowHandoffPackageUpsertRecord>)
    ensures
        match package_text(serialized, database_path@) {
            Err(f) => fault(r) == f,
            Ok(text) => r matches Ok(rec) && {
                &&& rec.project_id@ == project_id@
                &&& rec.handoff_transition_id@ == t.transition_id@
                &&& owned_text(rec.causal_transition_id) == owned_text(t.causal_transition_id)
                &&& rec.from_node_id@ == t.from_node_id@
                &&& rec.to_node_id@ == t.to_node_id@
                &&& rec.transition_kind@ == t.transition_kind@
                &&& rec.package_payload@ == text
                &&& rec.created_at@ == t.created_at@
            },
        },
{
    let text = match serialized {
        Err(m) => {
            let head = cat3("Cadence could not serialize workflow handoff package payload in ", database_path, ": ");
            let msg = cat2(head.as_str(), m.as_str());
            return Err(CommandError::system_fault("workflow_handoff_serialize_failed", msg.as_str()));
        },
        Ok(text) => text,
    };
    let (kind, canonical) = read_json_object(text.as_str());
    if kind != 2 {
        let head = cat3("Cadence could not canonicalize workflow handoff package payload in ", database_path, ": ");
        let msg = cat2(head.as_str(), canonical.as_str());
        return Err(CommandError::system_fault("workflow_handoff_serialize_failed", msg.as_str()));
    }
    if let Some(hint) = find_prohibited_workflow_handoff_content(canonical.as_str()) {
        let msg = cat3(
            "Cadence refused to assemble workflow handoff package because serialized payload contained ",
            hint,
            ". Remove secret-bearing transcript/tool/auth content before retrying.",
        );
        return Err(CommandError::user_fixable("workflow_handoff_redaction_failed", msg.as_str()));
    }
    Ok(WorkflowHandoffPackageUpsertRecord {
        project_id: own(project_id),
        handoff_transition_id: own(t.transition_id.as_str()),
        causal_transition_id: crate::text::clone_text_opt(&t.causal_transition_id),
        from_node_id: own(t.from_node_id.as_str()),
        to_node_id: own(t.to_node_id.as_str()),
        transition_kind: own(t.transition_kind.as_str()),
        package_payload: canonical,
        created_at: own(t.created_at.as_str()),
    })
}

} // verus!

verus! {

/// A request to assemble a package names a project and a transition.
pub fn validate_workflow_handoff_request(project_id: &str, handoff_transition_id: &str) -> (r: CommandResult<()>)
    ensures
        fault(r) == first(
            crate::error::nonempty(project_id@, "project_id"@, "workflow_handoff_request_invalid"@),
            crate::error::nonempty(handoff_transition_id@, "handoff_transition_id"@, "workflow_handoff_request_invalid"@),
        ),
{
    let r = crate::error::validate_non_empty_text(project_id, "project_id", "workflow_handoff_request_invalid");
    if r.is_err() {
        return r;
    }
    crate::error::validate_non_empty_text(handoff_transition_id, "handoff_transition_id", "workflow_handoff_request_invalid")
}

/// The error for a transition the project does not have.
pub fn workflow_handoff_transition_missing_error(handoff_transition_id: &str, project_id: &str) -> (e: CommandError)
    ensures
        crate::error::user_fixable_is(
            e,
            "workflow_handoff_build_transition_missing"@,
            "Cadence could not assemble a workflow handoff package because transition `"@ + handoff_transition_id@
                + "` is not present for project `"@ + project_id@ + "`."@,
        ),
{
    let m = cat5(
        "Cadence could not assemble a workflow handoff package because transition `",
        handoff_transition_id,
        "` is not present for project `",
        project_id,
        "`.",
    );
    CommandError::user_fixable("workflow_handoff_build_transition_missing", m.as_str())
}

} // verus!
