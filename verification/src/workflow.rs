//! Workflow graphs, transitions and handoff packages: their records and the
//! rules a payload must meet before it is persisted.

use vstd::prelude::*;
use crate::codec::{hex, sha256, sha256_hex};
use crate::error::{CommandError, CommandResult, Fault, fault, first, nonempty, sf, uf};
use crate::redaction::{find_prohibited_transition_diagnostic_content, prohibited_hint};
use crate::text::{cat3, cat5, decimal, decimal_string, owned_text, str_eq};

verus! {

/// The hash that identifies a canonical handoff payload: the lower-case hex
/// SHA-256 digest of its UTF-8 bytes.
pub open spec fn package_hash(canonical_payload: Seq<char>) -> Seq<char> {
    hex(sha256(vstd::utf8::encode_utf8(canonical_payload)))
}

/// The hash of a canonical payload; a hash computed here always passes the
/// check made of stored hashes.
pub fn compute_workflow_handoff_package_hash(canonical_payload: &str) -> (h: String)
    ensures
        h@ == package_hash(canonical_payload@),
        h@.len() == 64,
        forall|field: Seq<char>| package_hash_problem(h@, field) is None,
{
    let bytes = canonical_payload.as_bytes();
    let h = sha256_hex(bytes);
    proof {
        crate::codec::lemma_hex_lower(sha256(bytes@));
        assert forall|i: int| 0 <= i < h@.len() implies crate::text::is_hex_char(#[trigger] h@[i]) by {
            assert(crate::text::is_lower_hex_char(h@[i]));
        }
        assert forall|i: int| 0 <= i < h@.len() implies !('A' <= #[trigger] h@[i] && h@[i] <= 'Z') by {
            assert(crate::text::is_lower_hex_char(h@[i]));
        }
    }
    h
}

} // verus!

verus! {

/// The state of a gate on a workflow node.
#[derive(Debug, Clone, Copy, PartialEq, Eq, Structural)]
pub enum WorkflowGateState {
    Pending,
    Satisfied,
    Blocked,
    Skipped,
}

/// The decision on a workflow gate recorded with a transition.
#[derive(Debug, Clone, Copy, PartialEq, Eq, Structural)]
pub enum WorkflowTransitionGateDecision {
    Approved,
    Rejected,
    Blocked,
    NotApplicable,
}

#[derive(Debug, Clone, Copy, PartialEq, Eq, Structural)]
pub enum PhaseStatus {
    Complete,
    Active,
    Pending,
    Blocked,
}

#[derive(Debug, Clone, Copy, PartialEq, Eq, Structural)]
pub enum PhaseStep {
    Discuss,
    Plan,
    Execute,
    Verify,
    Ship,
}

pub open spec fn gate_state_text(s: WorkflowGateState) -> Seq<char> {
    match s {
        WorkflowGateState::Pending => "pending"@,
        WorkflowGateState::Satisfied => "satisfied"@,
        WorkflowGateState::Blocked => "blocked"@,
        WorkflowGateState::Skipped => "skipped"@,
    }
}

pub fn workflow_gate_state_sql_value(value: &WorkflowGateState) -> (s: &'static str)
    ensures
        s@ == gate_state_text(*value),
{
    match value {
        WorkflowGateState::Pending => "pending",
        WorkflowGateState::Satisfied => "satisfied",
        WorkflowGateState::Blocked => "blocked",
        WorkflowGateState::Skipped => "skipped",
    }
}

pub fn parse_workflow_gate_state(value: &str) -> (r: Result<WorkflowGateState, String>)
    ensures
        match r {
            Ok(s) => gate_state_text(s) == value@,
            Err(m) => (forall|s: WorkflowGateState| gate_state_text(s) != value@) && m@
                == "Field `gate_state` must be a known workflow gate state, found `"@ + value@ + "`."@,
        },
{
    proof {
        reveal_strlit("pending");
        reveal_strlit("satisfied");
        reveal_strlit("blocked");
        reveal_strlit("skipped");
    }
    if str_eq(value, "pending") {
        Ok(WorkflowGateState::Pending)
    } else if str_eq(value, "satisfied") {
        Ok(WorkflowGateState::Satisfied)
    } else if str_eq(value, "blocked") {
        Ok(WorkflowGateState::Blocked)
    } else if str_eq(value, "skipped") {
        Ok(WorkflowGateState::Skipped)
    } else {
        Err(cat3("Field `gate_state` must be a known workflow gate state, found `", value, "`."))
    }
}

pub open spec fn gate_decision_text(d: WorkflowTransitionGateDecision) -> Seq<char> {
    match d {
        WorkflowTransitionGateDecision::Approved => "approved"@,
        WorkflowTransitionGateDecision::Rejected => "rejected"@,
        WorkflowTransitionGateDecision::Blocked => "blocked"@,
        WorkflowTransitionGateDecision::NotApplicable => "not_applicable"@,
    }
}

pub fn workflow_transition_gate_decision_sql_value(value: &WorkflowTransitionGateDecision) -> (s:
    &'static str)
    ensures
        s@ == gate_decision_text(*value),
{
    match value {
        WorkflowTransitionGateDecision::Approved => "approved",
        WorkflowTransitionGateDecision::Rejected => "rejected",
        WorkflowTransitionGateDecision::Blocked => "blocked",
        WorkflowTransitionGateDecision::NotApplicable => "not_applicable",
    }
}

pub fn parse_workflow_transition_gate_decision(value: &str) -> (r: Result<
    WorkflowTransitionGateDecision,
    String,
>)
    ensures
        match r {
            Ok(d) => gate_decision_text(d) == value@,
            Err(m) => (forall|d: WorkflowTransitionGateDecision| gate_decision_text(d) != value@)
                && m@ == "Field `gate_decision` must be a known transition gate decision, found `"@
                + value@ + "`."@,
        },
{
    proof {
        reveal_strlit("approved");
        reveal_strlit("rejected");
        reveal_strlit("blocked");
        reveal_strlit("not_applicable");
    }
    if str_eq(value, "approved") {
        Ok(WorkflowTransitionGateDecision::Approved)
    } else if str_eq(value, "rejected") {
        Ok(WorkflowTransitionGateDecision::Rejected)
    } else if str_eq(value, "blocked") {
        Ok(WorkflowTransitionGateDecision::Blocked)
    } else if str_eq(value, "not_applicable") {
        Ok(WorkflowTransitionGateDecision::NotApplicable)
    } else {
        Err(
            cat3(
                "Field `gate_decision` must be a known transition gate decision, found `",
                value,
                "`.",
            ),
        )
    }
}

pub open spec fn phase_status_text(s: PhaseStatus) -> Seq<char> {
    match s {
        PhaseStatus::Complete => "complete"@,
        PhaseStatus::Active => "active"@,
        PhaseStatus::Pending => "pending"@,
        PhaseStatus::Blocked => "blocked"@,
    }
}

pub fn phase_status_sql_value(value: &PhaseStatus) -> (s: &'static str)
    ensures
        s@ == phase_status_text(*value),
{
    match value {
        PhaseStatus::Complete => "complete",
        PhaseStatus::Active => "active",
        PhaseStatus::Pending => "pending",
        PhaseStatus::Blocked => "blocked",
    }
}

pub open spec fn phase_step_text(s: PhaseStep) -> Seq<char> {
    match s {
        PhaseStep::Discuss => "discuss"@,
        PhaseStep::Plan => "plan"@,
        PhaseStep::Execute => "execute"@,
        PhaseStep::Verify => "verify"@,
        PhaseStep::Ship => "ship"@,
    }
}

pub fn phase_step_sql_value(value: &PhaseStep) -> (s: &'static str)
    ensures
        s@ == phase_step_text(*value),
{
    match value {
        PhaseStep::Discuss => "discuss",
        PhaseStep::Plan => "plan",
        PhaseStep::Execute => "execute",
        PhaseStep::Verify => "verify",
        PhaseStep::Ship => "ship",
    }
}

/// A node of a project's workflow graph.
#[derive(Debug, Clone)]
pub struct WorkflowGraphNodeRecord {
    pub node_id: String,
    pub phase_id: u32,
    pub sort_order: u32,
    pub name: String,
    pub description: String,
    pub status: PhaseStatus,
    pub current_step: Option<PhaseStep>,
    pub task_count: u32,
    pub completed_tasks: u32,
    pub summary: Option<String>,
}

/// An edge of a workflow graph, with a gate key its target must carry.
#[derive(Debug, Clone)]
pub struct WorkflowGraphEdgeRecord {
    pub from_node_id: String,
    pub to_node_id: String,
    pub transition_kind: String,
    pub gate_requirement: Option<String>,
}

/// A gate on a workflow node.
#[derive(Debug, Clone)]
pub struct WorkflowGateMetadataRecord {
    pub node_id: String,
    pub gate_key: String,
    pub gate_state: WorkflowGateState,
    pub action_type: Option<String>,
    pub title: Option<String>,
    pub detail: Option<String>,
    pub decision_context: Option<String>,
}

/// A whole workflow graph to store.
#[derive(Debug, Clone)]
pub struct WorkflowGraphUpsertRecord {
    pub nodes: Vec<WorkflowGraphNodeRecord>,
    pub edges: Vec<WorkflowGraphEdgeRecord>,
    pub gates: Vec<WorkflowGateMetadataRecord>,
}

/// A recorded transition between two workflow nodes.
#[derive(Debug, Clone)]
pub struct WorkflowTransitionEventRecord {
    pub id: i64,
    pub transition_id: String,
    pub causal_transition_id: Option<String>,
    pub from_node_id: String,
    pub to_node_id: String,
    pub transition_kind: String,
    pub gate_decision: WorkflowTransitionGateDecision,
    pub gate_decision_context: Option<String>,
    pub created_at: String,
}

/// A gate update applied with a transition.
#[derive(Debug, Clone)]
pub struct WorkflowGateDecisionUpdate {
    pub gate_key: String,
    pub gate_state: WorkflowGateState,
    pub decision_context: Option<String>,
}

/// A transition to apply.
#[derive(Debug, Clone)]
pub struct ApplyWorkflowTransitionRecord {
    pub transition_id: String,
    pub causal_transition_id: Option<String>,
    pub from_node_id: String,
    pub to_node_id: String,
    pub transition_kind: String,
    pub gate_decision: WorkflowTransitionGateDecision,
    pub gate_decision_context: Option<String>,
    pub gate_updates: Vec<WorkflowGateDecisionUpdate>,
    pub occurred_at: String,
}

/// A handoff package to store for a transition.
#[derive(Debug, Clone)]
pub struct WorkflowHandoffPackageUpsertRecord {
    pub project_id: String,
    pub handoff_transition_id: String,
    pub causal_transition_id: Option<String>,
    pub from_node_id: String,
    pub to_node_id: String,
    pub transition_kind: String,
    pub package_payload: String,
    pub created_at: String,
}

/// The link between an operator approval and a gate it answers.
#[derive(Debug, Clone)]
pub struct OperatorApprovalGateLinkInput {
    pub gate_node_id: String,
    pub gate_key: String,
    pub transition_from_node_id: String,
    pub transition_to_node_id: String,
    pub transition_kind: String,
}

} // verus!

verus! {

// ------------------------------------------------------------ graph payloads

pub open spec fn graph_invalid(message: Seq<char>) -> Option<Fault> {
    uf("workflow_graph_request_invalid"@, message)
}

/// Whether a node before `i` has the id of node `i`.
pub open spec fn repeats_id(nodes: Seq<WorkflowGraphNodeRecord>, i: int) -> bool {
    exists|j: int| 0 <= j < i && nodes[j].node_id@ == nodes[i].node_id@
}

/// Whether a node before `i` has the phase of node `i`.
pub open spec fn repeats_phase(nodes: Seq<WorkflowGraphNodeRecord>, i: int) -> bool {
    exists|j: int| 0 <= j < i && nodes[j].phase_id == nodes[i].phase_id
}

/// Whether a node before `i` has the sort order of node `i`.
pub open spec fn repeats_order(nodes: Seq<WorkflowGraphNodeRecord>, i: int) -> bool {
    exists|j: int| 0 <= j < i && nodes[j].sort_order == nodes[i].sort_order
}

/// The fault of node `i`, given the nodes before it.
pub open spec fn node_fault(nodes: Seq<WorkflowGraphNodeRecord>, i: int) -> Option<Fault> {
    let n = nodes[i];
    first(node_basics_fault(n),
    if repeats_id(nodes, i) {
        graph_invalid("Workflow graph contains duplicate node id `"@ + n.node_id@ + "`."@)
    } else if repeats_phase(nodes, i) {
        graph_invalid("Workflow graph contains duplicate phase id `"@ + decimal(n.phase_id as nat) + "`."@)
    } else if repeats_order(nodes, i) {
        graph_invalid(
            "Workflow graph contains duplicate sort order `"@ + decimal(n.sort_order as nat) + "`."@,
        )
    } else {
        None
    })
}

/// The fault of a node on its own: blank id or name, more tasks done than
/// there are.
pub open spec fn node_basics_fault(n: WorkflowGraphNodeRecord) -> Option<Fault> {
    first(nonempty(n.node_id@, "node_id"@, "workflow_graph_request_invalid"@),
    first(nonempty(n.name@, "name"@, "workflow_graph_request_invalid"@),
    if n.completed_tasks > n.task_count {
        graph_invalid(
            "Workflow node `"@ + n.node_id@ + "` has completed_tasks ("@ + decimal(
                n.completed_tasks as nat,
            ) + ") greater than task_count ("@ + decimal(n.task_count as nat) + ")."@,
        )
    } else {
        None
    }))
}

/// The first fault among the nodes from `i` on.
pub open spec fn nodes_fault(nodes: Seq<WorkflowGraphNodeRecord>, i: int) -> Option<Fault>
    decreases nodes.len() - i,
{
    if i < 0 || i >= nodes.len() {
        None
    } else {
        first(node_fault(nodes, i), nodes_fault(nodes, i + 1))
    }
}

/// Some node has id `id`.
pub open spec fn has_node(nodes: Seq<WorkflowGraphNodeRecord>, id: Seq<char>) -> bool {
    exists|j: int| 0 <= j < nodes.len() && nodes[j].node_id@ == id
}

pub open spec fn edges_fault(nodes: Seq<WorkflowGraphNodeRecord>, edges: Seq<WorkflowGraphEdgeRecord>) -> Option<Fault>
    decreases edges.len(),
{
    if edges.len() == 0 {
        None
    } else {
        let e = edges[0];
        first(nonempty(e.from_node_id@, "from_node_id"@, "workflow_graph_request_invalid"@),
        first(nonempty(e.to_node_id@, "to_node_id"@, "workflow_graph_request_invalid"@),
        first(nonempty(e.transition_kind@, "transition_kind"@, "workflow_graph_request_invalid"@),
        first(
            if !has_node(nodes, e.from_node_id@) || !has_node(nodes, e.to_node_id@) {
                graph_invalid(
                    "Workflow edge `"@ + e.from_node_id@ + "` -> `"@ + e.to_node_id@
                        + "` references unknown node ids."@,
                )
            } else {
                None
            },
            edges_fault(nodes, edges.drop_first()),
        ))))
    }
}

pub open spec fn gates_fault(nodes: Seq<WorkflowGraphNodeRecord>, gates: Seq<WorkflowGateMetadataRecord>) -> Option<Fault>
    decreases gates.len(),
{
    if gates.len() == 0 {
        None
    } else {
        let g = gates[0];
        first(nonempty(g.node_id@, "node_id"@, "workflow_graph_request_invalid"@),
        first(nonempty(g.gate_key@, "gate_key"@, "workflow_graph_request_invalid"@),
        first(
            if !has_node(nodes, g.node_id@) {
                graph_invalid(
                    "Workflow gate `"@ + g.gate_key@ + "` references unknown node `"@ + g.node_id@
                        + "`."@,
                )
            } else if (g.gate_state is Pending || g.gate_state is Blocked) && (g.action_type is None
                || g.title is None || g.detail is None) {
                graph_invalid(
                    "Workflow gate `"@ + g.gate_key@ + "` for node `"@ + g.node_id@
                        + "` requires action_type/title/detail when pending or blocked."@,
                )
            } else {
                None
            },
            gates_fault(nodes, gates.drop_first()),
        )))
    }
}

/// The fault of a graph to store: its nodes, then edges, then gates.
pub open spec fn graph_fault(g: WorkflowGraphUpsertRecord) -> Option<Fault> {
    first(nodes_fault(g.nodes@, 0), first(edges_fault(g.nodes@, g.edges@), gates_fault(g.nodes@, g.gates@)))
}

fn has_node_exec(nodes: &Vec<WorkflowGraphNodeRecord>, id: &str) -> (r: bool)
    ensures
        r == has_node(nodes@, id@),
{
    let mut j: usize = 0;
    while j < nodes.len()
        invariant
            j <= nodes.len(),
            forall|k: int| 0 <= k < j ==> nodes@[k].node_id@ != id@,
        decreases nodes.len() - j,
    {
        if str_eq(nodes[j].node_id.as_str(), id) {
            return true;
        }
        j = j + 1;
    }
    false
}

fn validate_node(nodes: &Vec<WorkflowGraphNodeRecord>, i: usize) -> (r: CommandResult<()>)
    requires
        i < nodes.len(),
    ensures
        fault(r) == node_fault(nodes@, i as int),
{
    let n = &nodes[i];
    let r = crate::error::validate_non_empty_text(n.node_id.as_str(), "node_id", "workflow_graph_request_invalid");
    if r.is_err() {
        return r;
    }
    let r = crate::error::validate_non_empty_text(n.name.as_str(), "name", "workflow_graph_request_invalid");
    if r.is_err() {
        return r;
    }
    if n.completed_tasks > n.task_count {
        let c = decimal_string(n.completed_tasks as u64);
        let t = decimal_string(n.task_count as u64);
        let a = cat5("Workflow node `", n.node_id.as_str(), "` has completed_tasks (", c.as_str(), ") greater than task_count (");
        let m = cat3(a.as_str(), t.as_str(), ").");
        return Err(CommandError::user_fixable("workflow_graph_request_invalid", m.as_str()));
    }
    let mut j: usize = 0;
    while j < i
        invariant
            i < nodes.len(),
            j <= i,
            node_basics_fault(nodes@[i as int]) is None,
            forall|k: int| 0 <= k < j ==> nodes@[k].node_id@ != nodes@[i as int].node_id@,
        decreases i - j,
    {
        if str_eq(nodes[j].node_id.as_str(), nodes[i].node_id.as_str()) {
            assert(nodes@[j as int].node_id@ == nodes@[i as int].node_id@);
            let m = cat3("Workflow graph contains duplicate node id `", nodes[i].node_id.as_str(), "`.");
            return Err(CommandError::user_fixable("workflow_graph_request_invalid", m.as_str()));
        }
        j = j + 1;
    }
    let mut j: usize = 0;
    while j < i
        invariant
            i < nodes.len(),
            j <= i,
            node_basics_fault(nodes@[i as int]) is None,
            !repeats_id(nodes@, i as int),
            forall|k: int| 0 <= k < j ==> nodes@[k].phase_id != nodes@[i as int].phase_id,
        decreases i - j,
    {
        if nodes[j].phase_id == nodes[i].phase_id {
            assert(nodes@[j as int].phase_id == nodes@[i as int].phase_id);
            let p = decimal_string(nodes[i].phase_id as u64);
            let m = cat3("Workflow graph contains duplicate phase id `", p.as_str(), "`.");
            return Err(CommandError::user_fixable("workflow_graph_request_invalid", m.as_str()));
        }
        j = j + 1;
    }
    let mut j: usize = 0;
    while j < i
        invariant
            i < nodes.len(),
            j <= i,
            node_basics_fault(nodes@[i as int]) is None,
            !repeats_id(nodes@, i as int),
            !repeats_phase(nodes@, i as int),
            forall|k: int| 0 <= k < j ==> nodes@[k].sort_order != nodes@[i as int].sort_order,
        decreases i - j,
    {
        if nodes[j].sort_order == nodes[i].sort_order {
            assert(nodes@[j as int].sort_order == nodes@[i as int].sort_order);
            let p = decimal_string(nodes[i].sort_order as u64);
            let m = cat3("Workflow graph contains duplicate sort order `", p.as_str(), "`.");
            return Err(CommandError::user_fixable("workflow_graph_request_invalid", m.as_str()));
        }
        j = j + 1;
    }
    Ok(())
}

pub fn validate_workflow_graph_upsert_payload(graph: &WorkflowGraphUpsertRecord) -> (r: CommandResult<()>)
    ensures
        fault(r) == graph_fault(*graph),
{
    let nodes = &graph.nodes;
    let mut i: usize = 0;
    while i < nodes.len()
        invariant
            nodes == &graph.nodes,
            i <= nodes.len(),
            nodes_fault(nodes@, 0) == nodes_fault(nodes@, i as int),
        decreases nodes.len() - i,
    {
        let r = validate_node(nodes, i);
        if r.is_err() {
            return r;
        }
        i = i + 1;
    }
    let edges = &graph.edges;
    let mut i: usize = 0;
    proof {
        assert(edges@.subrange(0, edges@.len() as int) =~= edges@);
    }
    while i < edges.len()
        invariant
            nodes == &graph.nodes,
            edges == &graph.edges,
            i <= edges.len(),
            nodes_fault(nodes@, 0) is None,
            edges_fault(nodes@, edges@) == edges_fault(nodes@, edges@.subrange(i as int, edges@.len() as int)),
        decreases edges.len() - i,
    {
        proof {
            assert(edges@.subrange(i as int, edges@.len() as int).drop_first() =~= edges@.subrange(i + 1, edges@.len() as int));
        }
        let e = &edges[i];
        let r = crate::error::validate_non_empty_text(e.from_node_id.as_str(), "from_node_id", "workflow_graph_request_invalid");
        if r.is_err() {
            return r;
        }
        let r = crate::error::validate_non_empty_text(e.to_node_id.as_str(), "to_node_id", "workflow_graph_request_invalid");
        if r.is_err() {
            return r;
        }
        let r = crate::error::validate_non_empty_text(e.transition_kind.as_str(), "transition_kind", "workflow_graph_request_invalid");
        if r.is_err() {
            return r;
        }
        if !has_node_exec(nodes, e.from_node_id.as_str()) || !has_node_exec(nodes, e.to_node_id.as_str()) {
            let m = cat5("Workflow edge `", e.from_node_id.as_str(), "` -> `", e.to_node_id.as_str(), "` references unknown node ids.");
            return Err(CommandError::user_fixable("workflow_graph_request_invalid", m.as_str()));
        }
        i = i + 1;
    }
    let gates = &graph.gates;
    let mut i: usize = 0;
    proof {
        assert(gates@.subrange(0, gates@.len() as int) =~= gates@);
        assert(edges@.subrange(edges@.len() as int, edges@.len() as int).len() == 0);
    }
    while i < gates.len()
        invariant
            nodes == &graph.nodes,
            edges == &graph.edges,
            gates == &graph.gates,
            i <= gates.len(),
            nodes_fault(nodes@, 0) is None,
            edges_fault(nodes@, edges@) is None,
            gates_fault(nodes@, gates@) == gates_fault(nodes@, gates@.subrange(i as int, gates@.len() as int)),
        decreases gates.len() - i,
    {
        proof {
            assert(gates@.subrange(i as int, gates@.len() as int).drop_first() =~= gates@.subrange(i + 1, gates@.len() as int));
        }
        let g = &gates[i];
        let r = crate::error::validate_non_empty_text(g.node_id.as_str(), "node_id", "workflow_graph_request_invalid");
        if r.is_err() {
            return r;
        }
        let r = crate::error::validate_non_empty_text(g.gate_key.as_str(), "gate_key", "workflow_graph_request_invalid");
        if r.is_err() {
            return r;
        }
        if !has_node_exec(nodes, g.node_id.as_str()) {
            let m = cat5("Workflow gate `", g.gate_key.as_str(), "` references unknown node `", g.node_id.as_str(), "`.");
            return Err(CommandError::user_fixable("workflow_graph_request_invalid", m.as_str()));
        }
        if matches!(g.gate_state, WorkflowGateState::Pending | WorkflowGateState::Blocked)
            && (g.action_type.is_none() || g.title.is_none() || g.detail.is_none()) {
            let m = cat5(
                "Workflow gate `",
                g.gate_key.as_str(),
                "` for node `",
                g.node_id.as_str(),
                "` requires action_type/title/detail when pending or blocked.",
            );
            return Err(CommandError::user_fixable("workflow_graph_request_invalid", m.as_str()));
        }
        i = i + 1;
    }
    Ok(())
}

} // verus!

verus! {

// ------------------------------------------------------- transition payloads

pub open spec fn transition_invalid(message: Seq<char>) -> Option<Fault> {
    uf("workflow_transition_request_invalid"@, message)
}

pub open spec fn update_keys_fault(us: Seq<WorkflowGateDecisionUpdate>) -> Option<Fault>
    decreases us.len(),
{
    if us.len() == 0 {
        None
    } else {
        first(
            nonempty(us[0].gate_key@, "gate_key"@, "workflow_transition_request_invalid"@),
            update_keys_fault(us.drop_first()),
        )
    }
}

pub open spec fn update_contexts_fault(us: Seq<WorkflowGateDecisionUpdate>) -> Option<Fault>
    decreases us.len(),
{
    if us.len() == 0 {
        None
    } else {
        first(
            match us[0].decision_context {
                Some(c) => match prohibited_hint(c@) {
                    Some(h) => transition_invalid(
                        "Workflow gate diagnostics for `"@ + us[0].gate_key@ + "` must not include "@
                            + h
                            + ". Remove secret-bearing transcript/tool/auth payload content before retrying."@,
                    ),
                    None => None,
                },
                None => None,
            },
            update_contexts_fault(us.drop_first()),
        )
    }
}

/// The fault of a transition's own fields.
pub open spec fn transition_head_fault(t: ApplyWorkflowTransitionRecord) -> Option<Fault> {
    first(nonempty(t.transition_id@, "transition_id"@, "workflow_transition_request_invalid"@),
    first(nonempty(t.from_node_id@, "from_node_id"@, "workflow_transition_request_invalid"@),
    first(nonempty(t.to_node_id@, "to_node_id"@, "workflow_transition_request_invalid"@),
    first(nonempty(t.transition_kind@, "transition_kind"@, "workflow_transition_request_invalid"@),
    first(nonempty(t.occurred_at@, "occurred_at"@, "workflow_transition_request_invalid"@),
    if t.from_node_id@ == t.to_node_id@ {
        transition_invalid("Workflow transitions must change node ids."@)
    } else {
        None
    })))))
}

/// The fault of secret-bearing transition diagnostics.
pub open spec fn transition_context_fault(t: ApplyWorkflowTransitionRecord) -> Option<Fault> {
    match t.gate_decision_context {
        Some(c) => match prohibited_hint(c@) {
            Some(h) => transition_invalid(
                "Workflow transition diagnostics must not include "@ + h
                    + ". Remove secret-bearing transcript/tool/auth payload content before retrying."@,
            ),
            None => None,
        },
        None => None,
    }
}

/// The fault of a transition to apply.
pub open spec fn transition_fault(t: ApplyWorkflowTransitionRecord) -> Option<Fault> {
    first(transition_head_fault(t),
    first(update_keys_fault(t.gate_updates@),
    first(transition_context_fault(t), update_contexts_fault(t.gate_updates@))))
}

pub fn validate_workflow_transition_payload(transition: &ApplyWorkflowTransitionRecord) -> (r:
    CommandResult<()>)
    ensures
        fault(r) == transition_fault(*transition),
{
    let code = "workflow_transition_request_invalid";
    let r = crate::error::validate_non_empty_text(transition.transition_id.as_str(), "transition_id", code);
    if r.is_err() {
        return r;
    }
    let r = crate::error::validate_non_empty_text(transition.from_node_id.as_str(), "from_node_id", code);
    if r.is_err() {
        return r;
    }
    let r = crate::error::validate_non_empty_text(transition.to_node_id.as_str(), "to_node_id", code);
    if r.is_err() {
        return r;
    }
    let r = crate::error::validate_non_empty_text(transition.transition_kind.as_str(), "transition_kind", code);
    if r.is_err() {
        return r;
    }
    let r = crate::error::validate_non_empty_text(transition.occurred_at.as_str(), "occurred_at", code);
    if r.is_err() {
        return r;
    }
    if str_eq(transition.from_node_id.as_str(), transition.to_node_id.as_str()) {
        return Err(CommandError::user_fixable(code, "Workflow transitions must change node ids."));
    }
    let us = &transition.gate_updates;
    let mut i: usize = 0;
    proof {
        assert(us@.subrange(0, us@.len() as int) =~= us@);
    }
    while i < us.len()
        invariant
            us == &transition.gate_updates,
            code == "workflow_transition_request_invalid",
            transition_head_fault(*transition) is None,
            i <= us.len(),
            update_keys_fault(us@) == update_keys_fault(us@.subrange(i as int, us@.len() as int)),
        decreases us.len() - i,
    {
        proof {
            assert(us@.subrange(i as int, us@.len() as int).drop_first() =~= us@.subrange(i + 1, us@.len() as int));
        }
        let r = crate::error::validate_non_empty_text(us[i].gate_key.as_str(), "gate_key", code);
        if r.is_err() {
            return r;
        }
        i = i + 1;
    }
    if let Some(c) = &transition.gate_decision_context {
        if let Some(hint) = find_prohibited_transition_diagnostic_content(c.as_str()) {
            let m = cat3(
                "Workflow transition diagnostics must not include ",
                hint,
                ". Remove secret-bearing transcript/tool/auth payload content before retrying.",
            );
            return Err(CommandError::user_fixable(code, m.as_str()));
        }
    }
    let mut i: usize = 0;
    proof {
        assert(us@.subrange(us@.len() as int, us@.len() as int).len() == 0);
    }
    while i < us.len()
        invariant
            us == &transition.gate_updates,
            code == "workflow_transition_request_invalid",
            transition_head_fault(*transition) is None,
            transition_context_fault(*transition) is None,
            i <= us.len(),
            update_keys_fault(us@) is None,
            update_contexts_fault(us@) == update_contexts_fault(us@.subrange(i as int, us@.len() as int)),
        decreases us.len() - i,
    {
        proof {
            assert(us@.subrange(i as int, us@.len() as int).drop_first() =~= us@.subrange(i + 1, us@.len() as int));
        }
        if let Some(c) = &us[i].decision_context {
            if let Some(hint) = find_prohibited_transition_diagnostic_content(c.as_str()) {
                let m = cat5(
                    "Workflow gate diagnostics for `",
                    us[i].gate_key.as_str(),
                    "` must not include ",
                    hint,
                    ". Remove secret-bearing transcript/tool/auth payload content before retrying.",
                );
                return Err(CommandError::user_fixable(code, m.as_str()));
            }
        }
        i = i + 1;
    }
    Ok(())
}

} // verus!

verus! {

// ---------------------------------------------------------- handoff packages

/// A stored handoff package.
#[derive(Debug, Clone)]
pub struct WorkflowHandoffPackageRecord {
    pub id: i64,
    pub project_id: String,
    pub handoff_transition_id: String,
    pub causal_transition_id: Option<String>,
    pub from_node_id: String,
    pub to_node_id: String,
    pub transition_kind: String,
    pub package_payload: String,
    pub package_hash: String,
    pub created_at: String,
}

/// The error `time`'s RFC 3339 parser reports for `s`, or `None` where `s`
/// parses.
pub uninterp spec fn rfc3339_error(s: Seq<char>) -> Option<Seq<char>>;

/// `time::OffsetDateTime::parse(s, &Rfc3339)`: whether `s` is RFC 3339
/// text, and the parser's error rendered as text where it is not. Both are
/// the named result for `s`.
#[verifier::external_body]
fn parse_rfc3339(s: &str) -> (r: Result<(), String>)
    ensures
        r is Ok <==> rfc3339_error(s@) is None,
        r matches Err(m) ==> rfc3339_error(s@) == Some(m@),
{
    time::OffsetDateTime::parse(s, &time::format_description::well_known::Rfc3339)
        .map(|_| ())
        .map_err(|e| e.to_string())
}

/// How `serde_json` reads a text as a JSON object: `0` with the parse
/// error, `1` for valid JSON that is not an object, `2` with the object
/// written back out (keys in sorted order, as its `BTreeMap` keeps them),
/// `3` with the writer's error.
pub uninterp spec fn json_object_text(s: Seq<char>) -> (u8, Seq<char>);

/// `serde_json::from_str::<Value>` then, for an object,
/// `serde_json::to_string`; the result is the named reading of `s`.
#[verifier::external_body]
pub(crate) fn read_json_object(s: &str) -> (r: (u8, String))
    ensures
        (r.0, r.1@) == json_object_text(s@),
        r.0 <= 3,
{
    match serde_json::from_str::<serde_json::Value>(s) {
        Err(e) => (0, e.to_string()),
        Ok(v) => match v {
            serde_json::Value::Object(_) => match serde_json::to_string(&v) {
                Ok(t) => (2, t),
                Err(e) => (3, e.to_string()),
            },
            _ => (1, String::new()),
        },
    }
}

/// The `{:?}` rendering of an optional text.
pub uninterp spec fn debug_text(o: Option<Seq<char>>) -> Seq<char>;

/// `format!("{:?}", o)` on an optional string.
#[verifier::external_body]
fn debug_optional_text(o: &Option<String>) -> (s: String)
    ensures
        s@ == debug_text(owned_text(*o)),
{
    format!("{:?}", o)
}

pub open spec fn handoff_invalid(code: Seq<char>, message: Seq<char>) -> Option<Fault> {
    uf(code, message)
}

/// The fault of text that is not RFC 3339.
pub open spec fn rfc3339_fault(value: Seq<char>, field: Seq<char>, code: Seq<char>) -> Option<Fault> {
    match rfc3339_error(value) {
        Some(e) => uf(code, "Field `"@ + field + "` must be RFC3339 text: "@ + e),
        None => None,
    }
}

pub fn validate_rfc3339_timestamp(value: &str, field: &str, code: &str) -> (r: CommandResult<()>)
    ensures
        fault(r) == rfc3339_fault(value@, field@, code@),
{
    match parse_rfc3339(value) {
        Ok(()) => Ok(()),
        Err(e) => {
            let m = cat5("Field `", field, "` must be RFC3339 text: ", e.as_str(), "");
            proof {
                reveal_strlit("");
                assert(m@ =~= "Field `"@ + field@ + "` must be RFC3339 text: "@ + e@);
            }
            Err(CommandError::user_fixable(code, m.as_str()))
        },
    }
}

/// The canonical text of a package payload, or its fault.
pub open spec fn canonical_payload(value: Seq<char>, code: Seq<char>) -> Result<Seq<char>, Option<Fault>> {
    let j = json_object_text(value);
    if j.0 == 0 {
        Err(uf(code, "Field `package_payload` must be valid JSON text: "@ + j.1))
    } else if j.0 == 1 {
        Err(uf(code, "Field `package_payload` must be a JSON object with redacted context metadata."@))
    } else if j.0 == 2 {
        Ok(j.1)
    } else {
        Err(uf(code, "Field `package_payload` could not be canonicalized: "@ + j.1))
    }
}

pub fn canonicalize_workflow_handoff_package_payload(value: &str, code: &str) -> (r: CommandResult<
    String,
>)
    ensures
        match canonical_payload(value@, code@) {
            Ok(t) => r matches Ok(s) && s@ == t,
            Err(f) => fault(r) == f,
        },
{
    let (kind, text) = read_json_object(value);
    if kind == 0 {
        let m = crate::text::cat2("Field `package_payload` must be valid JSON text: ", text.as_str());
        return Err(CommandError::user_fixable(code, m.as_str()));
    }
    if kind == 1 {
        return Err(
            CommandError::user_fixable(
                code,
                "Field `package_payload` must be a JSON object with redacted context metadata.",
            ),
        );
    }
    if kind == 2 {
        return Ok(text);
    }
    let m = crate::text::cat2("Field `package_payload` could not be canonicalized: ", text.as_str());
    Err(CommandError::user_fixable(code, m.as_str()))
}

/// The fault of a handoff package to store.
pub open spec fn handoff_payload_fault(p: WorkflowHandoffPackageUpsertRecord) -> Option<Fault> {
    let code = "workflow_handoff_request_invalid"@;
    first(nonempty(p.project_id@, "project_id"@, code),
    first(nonempty(p.handoff_transition_id@, "handoff_transition_id"@, code),
    first(crate::error::nonempty_opt(p.causal_transition_id, "causal_transition_id"@, code),
    first(nonempty(p.from_node_id@, "from_node_id"@, code),
    first(nonempty(p.to_node_id@, "to_node_id"@, code),
    first(handoff_tail_fault(p), handoff_content_fault(p)))))))
}

pub open spec fn handoff_tail_fault(p: WorkflowHandoffPackageUpsertRecord) -> Option<Fault> {
    let code = "workflow_handoff_request_invalid"@;
    first(nonempty(p.transition_kind@, "transition_kind"@, code),
    first(nonempty(p.package_payload@, "package_payload"@, code),
    first(nonempty(p.created_at@, "created_at"@, code),
    rfc3339_fault(p.created_at@, "created_at"@, code))))
}

pub open spec fn handoff_content_fault(p: WorkflowHandoffPackageUpsertRecord) -> Option<Fault> {
    let code = "workflow_handoff_request_invalid"@;
    match prohibited_hint(p.package_payload@) {
        Some(h) => uf(
            code,
            "Workflow handoff packages must not include "@ + h
                + ". Remove secret-bearing transcript/tool/auth payload content before retrying."@,
        ),
        None => match canonical_payload(p.package_payload@, code) {
            Ok(_) => None,
            Err(f) => f,
        },
    }
}

pub fn validate_workflow_handoff_package_payload(payload: &WorkflowHandoffPackageUpsertRecord) -> (r:
    CommandResult<()>)
    ensures
        fault(r) == handoff_payload_fault(*payload),
{
    let code = "workflow_handoff_request_invalid";
    let r = crate::error::validate_non_empty_text(payload.project_id.as_str(), "project_id", code);
    if r.is_err() {
        return r;
    }
    let r = crate::error::validate_non_empty_text(payload.handoff_transition_id.as_str(), "handoff_transition_id", code);
    if r.is_err() {
        return r;
    }
    if let Some(c) = &payload.causal_transition_id {
        let r = crate::error::validate_non_empty_text(c.as_str(), "causal_transition_id", code);
        if r.is_err() {
            return r;
        }
    }
    let r = crate::error::validate_non_empty_text(payload.from_node_id.as_str(), "from_node_id", code);
    if r.is_err() {
        return r;
    }
    let r = crate::error::validate_non_empty_text(payload.to_node_id.as_str(), "to_node_id", code);
    if r.is_err() {
        return r;
    }
    let r = crate::error::validate_non_empty_text(payload.transition_kind.as_str(), "transition_kind", code);
    if r.is_err() {
        return r;
    }
    let r = crate::error::validate_non_empty_text(payload.package_payload.as_str(), "package_payload", code);
    if r.is_err() {
        return r;
    }
    let r = crate::error::validate_non_empty_text(payload.created_at.as_str(), "created_at", code);
    if r.is_err() {
        return r;
    }
    let r = validate_rfc3339_timestamp(payload.created_at.as_str(), "created_at", code);
    if r.is_err() {
        return r;
    }
    if let Some(hint) = crate::redaction::find_prohibited_workflow_handoff_content(payload.package_payload.as_str()) {
        let m = cat3(
            "Workflow handoff packages must not include ",
            hint,
            ". Remove secret-bearing transcript/tool/auth payload content before retrying.",
        );
        return Err(CommandError::user_fixable(code, m.as_str()));
    }
    match canonicalize_workflow_handoff_package_payload(payload.package_payload.as_str(), code) {
        Ok(_) => Ok(()),
        Err(e) => Err(e),
    }
}

} // verus!

verus! {

/// The fault of a package whose nodes, kind or causal link differ from its
/// transition's.
pub open spec fn handoff_metadata_fault(p: WorkflowHandoffPackageUpsertRecord, t: WorkflowTransitionEventRecord) -> Option<Fault> {
    let code = "workflow_handoff_request_invalid"@;
    if p.from_node_id@ != t.from_node_id@ {
        uf(
            code,
            "Workflow handoff package source node `"@ + p.from_node_id@ + "` does not match transition `"@
                + p.handoff_transition_id@ + "` source node `"@ + t.from_node_id@ + "`."@,
        )
    } else if p.to_node_id@ != t.to_node_id@ {
        uf(
            code,
            "Workflow handoff package target node `"@ + p.to_node_id@ + "` does not match transition `"@
                + p.handoff_transition_id@ + "` target node `"@ + t.to_node_id@ + "`."@,
        )
    } else if p.transition_kind@ != t.transition_kind@ {
        uf(
            code,
            "Workflow handoff package transition kind `"@ + p.transition_kind@
                + "` does not match transition `"@ + p.handoff_transition_id@ + "` kind `"@
                + t.transition_kind@ + "`."@,
        )
    } else {
        match p.causal_transition_id {
            Some(c) => if owned_text(t.causal_transition_id) != Some(c@) {
                uf(
                    code,
                    "Workflow handoff package causal transition `"@ + c@ + "` does not match transition `"@
                        + p.handoff_transition_id@ + "` causal linkage `"@ + debug_text(
                        owned_text(t.causal_transition_id),
                    ) + "`."@,
                )
            } else {
                None
            },
            None => None,
        }
    }
}

pub fn validate_workflow_handoff_transition_metadata(
    payload: &WorkflowHandoffPackageUpsertRecord,
    transition_event: &WorkflowTransitionEventRecord,
) -> (r: CommandResult<()>)
    ensures
        fault(r) == handoff_metadata_fault(*payload, *transition_event),
{
    let code = "workflow_handoff_request_invalid";
    if !str_eq(payload.from_node_id.as_str(), transition_event.from_node_id.as_str()) {
        let a = cat5("Workflow handoff package source node `", payload.from_node_id.as_str(), "` does not match transition `", payload.handoff_transition_id.as_str(), "` source node `");
        let m = cat3(a.as_str(), transition_event.from_node_id.as_str(), "`.");
        return Err(CommandError::user_fixable(code, m.as_str()));
    }
    if !str_eq(payload.to_node_id.as_str(), transition_event.to_node_id.as_str()) {
        let a = cat5("Workflow handoff package target node `", payload.to_node_id.as_str(), "` does not match transition `", payload.handoff_transition_id.as_str(), "` target node `");
        let m = cat3(a.as_str(), transition_event.to_node_id.as_str(), "`.");
        return Err(CommandError::user_fixable(code, m.as_str()));
    }
    if !str_eq(payload.transition_kind.as_str(), transition_event.transition_kind.as_str()) {
        let a = cat5("Workflow handoff package transition kind `", payload.transition_kind.as_str(), "` does not match transition `", payload.handoff_transition_id.as_str(), "` kind `");
        let m = cat3(a.as_str(), transition_event.transition_kind.as_str(), "`.");
        return Err(CommandError::user_fixable(code, m.as_str()));
    }
    if let Some(c) = &payload.causal_transition_id {
        let same = match &transition_event.causal_transition_id {
            Some(t) => str_eq(t.as_str(), c.as_str()),
            None => false,
        };
        if !same {
            let shown = debug_optional_text(&transition_event.causal_transition_id);
            let a = cat5("Workflow handoff package causal transition `", c.as_str(), "` does not match transition `", payload.handoff_transition_id.as_str(), "` causal linkage `");
            let m = cat3(a.as_str(), shown.as_str(), "`.");
            return Err(CommandError::user_fixable(code, m.as_str()));
        }
    }
    Ok(())
}

/// The fault of a stored package whose linkage differs from its transition.
pub open spec fn package_linkage_fault(p: WorkflowHandoffPackageRecord, t: WorkflowTransitionEventRecord) -> Option<Fault> {
    if p.handoff_transition_id@ != t.transition_id@ {
        sf(
            "workflow_handoff_linkage_mismatch"@,
            "Cadence loaded workflow handoff package `"@ + p.handoff_transition_id@ + "` for transition `"@
                + t.transition_id@ + "` but transition linkage did not match."@,
        )
    } else if p.from_node_id@ != t.from_node_id@ || p.to_node_id@ != t.to_node_id@ || p.transition_kind@
        != t.transition_kind@ || owned_text(p.causal_transition_id) != owned_text(t.causal_transition_id) {
        sf(
            "workflow_handoff_linkage_mismatch"@,
            "Cadence found inconsistent workflow handoff linkage for transition `"@ + t.transition_id@
                + "` (expected "@ + t.from_node_id@ + " -> "@ + t.to_node_id@ + " ["@ + t.transition_kind@
                + "], found "@ + p.from_node_id@ + " -> "@ + p.to_node_id@ + " ["@ + p.transition_kind@
                + "])."@,
        )
    } else {
        None
    }
}

pub fn validate_workflow_handoff_package_transition_linkage(
    package: &WorkflowHandoffPackageRecord,
    transition_event: &WorkflowTransitionEventRecord,
) -> (r: CommandResult<()>)
    ensures
        fault(r) == package_linkage_fault(*package, *transition_event),
{
    if !str_eq(package.handoff_transition_id.as_str(), transition_event.transition_id.as_str()) {
        let m = cat5(
            "Cadence loaded workflow handoff package `",
            package.handoff_transition_id.as_str(),
            "` for transition `",
            transition_event.transition_id.as_str(),
            "` but transition linkage did not match.",
        );
        return Err(CommandError::system_fault("workflow_handoff_linkage_mismatch", m.as_str()));
    }
    let same_causal = match (&package.causal_transition_id, &transition_event.causal_transition_id) {
        (Some(a), Some(b)) => str_eq(a.as_str(), b.as_str()),
        (None, None) => true,
        _ => false,
    };
    if !str_eq(package.from_node_id.as_str(), transition_event.from_node_id.as_str()) || !str_eq(
        package.to_node_id.as_str(),
        transition_event.to_node_id.as_str(),
    ) || !str_eq(package.transition_kind.as_str(), transition_event.transition_kind.as_str())
        || !same_causal {
        let a = cat5(
            "Cadence found inconsistent workflow handoff linkage for transition `",
            transition_event.transition_id.as_str(),
            "` (expected ",
            transition_event.from_node_id.as_str(),
            " -> ",
        );
        let b = cat5(a.as_str(), transition_event.to_node_id.as_str(), " [", transition_event.transition_kind.as_str(), "], found ");
        let c = cat5(b.as_str(), package.from_node_id.as_str(), " -> ", package.to_node_id.as_str(), " [");
        let m = cat3(c.as_str(), package.transition_kind.as_str(), "]).");
        return Err(CommandError::system_fault("workflow_handoff_linkage_mismatch", m.as_str()));
    }
    Ok(())
}

/// The problem with a stored package hash: not 64 hex digits, or not
/// lower case.
pub open spec fn package_hash_problem(value: Seq<char>, field: Seq<char>) -> Option<Seq<char>> {
    if value.len() != 64 || !(forall|i: int| 0 <= i < value.len() ==> crate::text::is_hex_char(#[trigger] value[i])) {
        Some("Field `"@ + field + "` must be a 64-character hexadecimal hash."@)
    } else if exists|i: int| 0 <= i < value.len() && 'A' <= #[trigger] value[i] && value[i] <= 'Z' {
        Some("Field `"@ + field + "` must use lowercase hexadecimal characters."@)
    } else {
        None
    }
}

/// Checks a stored package hash; the problem is reported as text, for the
/// caller to map onto its decode error.
pub fn validate_workflow_handoff_package_hash(value: &str, field: &str) -> (r: Result<(), String>)
    ensures
        match r {
            Ok(()) => package_hash_problem(value@, field@) is None,
            Err(m) => package_hash_problem(value@, field@) == Some(m@),
        },
{
    let v = crate::text::chars_of(value);
    let mut all_hex = v.len() == 64;
    let mut i: usize = 0;
    while i < v.len()
        invariant
            v@ == value@,
            i <= v.len(),
            all_hex == (v@.len() == 64 && forall|k: int| 0 <= k < i ==> crate::text::is_hex_char(#[trigger] v@[k])),
        decreases v.len() - i,
    {
        let c = v[i];
        let hex = ('0' <= c && c <= '9') || ('a' <= c && c <= 'f') || ('A' <= c && c <= 'F');
        if !hex {
            assert(!crate::text::is_hex_char(v@[i as int]));
        }
        all_hex = all_hex && hex;
        i = i + 1;
    }
    if !all_hex {
        return Err(cat3("Field `", field, "` must be a 64-character hexadecimal hash."));
    }
    let mut k: usize = 0;
    while k < v.len()
        invariant
            v@ == value@,
            value@.len() == 64,
            forall|j: int| 0 <= j < value@.len() ==> crate::text::is_hex_char(#[trigger] value@[j]),
            k <= v.len(),
            forall|j: int| 0 <= j < k ==> !('A' <= #[trigger] v@[j] && v@[j] <= 'Z'),
        decreases v.len() - k,
    {
        if 'A' <= v[k] && v[k] <= 'Z' {
            assert('A' <= v@[k as int] && v@[k as int] <= 'Z');
            return Err(cat3("Field `", field, "` must use lowercase hexadecimal characters."));
        }
        k = k + 1;
    }
    Ok(())
}

} // verus!
