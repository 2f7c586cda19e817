//! The graph executor: the step-function loop that drives one run.
//!
//! Given a pipeline graph and a work item, the executor dispatches ready
//! nodes, manages parallel fan-out and fan-in, suspends for human approval,
//! and drives the run to completion, halt, or failure.  Run-state mutation
//! is performed by a single logical owner per run: node-executing units do
//! their work elsewhere and report completion or failure back as messages,
//! which the owner applies here one at a time, in the order received.

use vstd::prelude::*;

use crate::cost::{sum_charges, CostLedger, RetryDecision, RetrySchedule};
use crate::errors::{ClassifiedError, CogWorksError, ErrorClass};
use crate::identifiers::{ArtifactPath, NodeId, PipelineName, PipelineRunId, WorkItemId};
use crate::values::{CostBudget, Diagnostic, TokenCost};

verus! {

/// What kind of work a node stands for.
#[derive(Debug, Clone, Copy, PartialEq, Eq, Structural)]
pub enum NodeKind {
    /// An ordinary processing stage, executed by a collaborator.
    Task,
    /// A human-approval checkpoint: reaching it suspends the run until a
    /// matching approval event arrives or the checkpoint times out.
    HumanGate,
}

/// One stage in the pipeline graph.
#[derive(Debug, Clone, PartialEq)]
pub struct NodeSpec {
    /// The node's configured name, unique within its pipeline.
    pub name: NodeId,
    /// What kind of work the node stands for.
    pub kind: NodeKind,
}

/// When an edge into a node counts as satisfied.
#[derive(Debug, Clone, Copy, PartialEq, Eq, Structural)]
pub enum EdgeGuard {
    /// The predecessor must have completed successfully.
    RequireSuccess,
    /// Any recorded terminal outcome of the predecessor satisfies the
    /// edge; used on fan-in edges that join after failures are tolerated.
    AnyOutcome,
}

/// A directed edge of the pipeline graph.
#[derive(Debug, Clone, Copy, PartialEq, Eq, Structural)]
pub struct Edge {
    /// Index of the predecessor node.
    pub from: usize,
    /// Index of the successor node.
    pub to: usize,
    /// When this edge counts as satisfied.
    pub guard: EdgeGuard,
}

/// A named, immutable set of nodes and directed edges.
///
/// Loaded once and read-only for the lifetime of a run.  Nodes are listed
/// in topological order and every edge points forward; a configuration
/// that violates this is rejected before any run starts.
#[derive(Debug, Clone, PartialEq)]
pub struct PipelineGraph {
    /// The configuration name of this pipeline.
    pub name: PipelineName,
    /// The nodes, in topological order.
    pub nodes: Vec<NodeSpec>,
    /// The directed edges; each expresses sequencing, and fan-out points
    /// are where the cost budget becomes shared.
    pub edges: Vec<Edge>,
}

impl PipelineGraph {
    /// A well-formed graph: every edge stays in range and points forward,
    /// so the node order is topological and the graph is acyclic.
    pub open spec fn wf(self) -> bool {
        forall|j: int|
            0 <= j < self.edges@.len() ==> (#[trigger] self.edges@[j]).from
                < self.edges@[j].to && self.edges@[j].to < self.nodes@.len()
    }

    /// Validates the loaded configuration.  An out-of-range or backward
    /// edge is a configuration error: the pipeline never starts with an
    /// invalid graph.
    pub fn validate(&self) -> (r: Result<(), CogWorksError>)
        ensures
            r is Ok <==> self.wf(),
            r matches Err(e) ==> e.spec_class() == ErrorClass::Configuration,
    {
        let mut j: usize = 0;
        while j < self.edges.len()
            invariant
                j <= self.edges@.len(),
                forall|m: int|
                    0 <= m < j as int ==> (#[trigger] self.edges@[m]).from < self.edges@[m].to
                        && self.edges@[m].to < self.nodes@.len(),
            decreases self.edges@.len() - j,
        {
            let e = self.edges[j];
            if !(e.from < e.to && e.to < self.nodes.len()) {
                return Err(
                    CogWorksError::ConfigurationError {
                        message: String::from_str("pipeline graph has an out-of-range or backward edge"),
                    },
                );
            }
            j = j + 1;
        }
        Ok(())
    }

    /// Number of nodes.
    pub fn node_count(&self) -> (r: usize)
        ensures
            r == self.nodes@.len(),
    {
        self.nodes.len()
    }
}

/// The result of one node execution, immutable once recorded.
#[derive(Debug, Clone, PartialEq)]
pub enum NodeOutcome {
    /// The node finished its work.
    Success {
        /// The cost the node reports having incurred.
        cost: TokenCost,
        /// Artefacts the node produced.
        artifacts: Vec<ArtifactPath>,
        /// Findings the node reported.
        diagnostics: Vec<Diagnostic>,
    },
    /// The node failed, classified by the error taxonomy with its retry
    /// policy attached.
    Failure {
        /// The cost the node reports having incurred before failing.
        cost: TokenCost,
        /// The classified failure.
        error: ClassifiedError,
    },
}

impl NodeOutcome {
    /// The cost the node reported; every node must report one.
    pub open spec fn spec_cost(self) -> TokenCost {
        match self {
            NodeOutcome::Success { cost, .. } => cost,
            NodeOutcome::Failure { cost, .. } => cost,
        }
    }

    /// Whether this outcome is a success.
    pub open spec fn spec_is_success(self) -> bool {
        self is Success
    }

    /// Returns the cost the node reported.
    pub fn cost(&self) -> (r: TokenCost)
        ensures
            r == self.spec_cost(),
    {
        match self {
            NodeOutcome::Success { cost, .. } => *cost,
            NodeOutcome::Failure { cost, .. } => *cost,
        }
    }

    /// Returns `true` if this outcome is a success.
    pub fn is_success(&self) -> (r: bool)
        ensures
            r == self.spec_is_success(),
    {
        match self {
            NodeOutcome::Success { .. } => true,
            NodeOutcome::Failure { .. } => false,
        }
    }
}

/// The state machine of one run.
///
/// `Pending → Running → {AwaitingApproval ⇄ Running} → {Completed | Halted
/// | Failed}`.  `Pending` and the terminal states are the only ones in
/// which no node work is in flight.
#[derive(Debug, Clone, Copy, PartialEq, Eq, Structural)]
pub enum RunState {
    /// Created, nothing dispatched yet.
    Pending,
    /// Nodes may be dispatched and may be in flight.
    Running,
    /// Suspended at a human checkpoint; durably recorded in this state.
    AwaitingApproval,
    /// Every node completed successfully.
    Completed,
    /// Deliberately terminated; human attention is required before re-run.
    Halted,
    /// Terminated by a non-recoverable failure.
    Failed,
}

impl RunState {
    /// Whether the run has ended.
    pub open spec fn spec_terminal(self) -> bool {
        self is Completed || self is Halted || self is Failed
    }

    /// Whether the run is underway: running or suspended at a checkpoint.
    pub open spec fn spec_active(self) -> bool {
        self is Running || self is AwaitingApproval
    }

    /// Returns `true` if the run has ended.
    pub fn is_terminal(self) -> (r: bool)
        ensures
            r == self.spec_terminal(),
    {
        match self {
            RunState::Completed => true,
            RunState::Halted => true,
            RunState::Failed => true,
            _ => false,
        }
    }

    /// Returns `true` if the run is underway.
    pub fn is_active(self) -> (r: bool)
        ensures
            r == self.spec_active(),
    {
        match self {
            RunState::Running => true,
            RunState::AwaitingApproval => true,
            _ => false,
        }
    }
}

/// What the controller learns from applying one message to the run.
#[derive(Debug, Clone, PartialEq)]
pub enum RunStep {
    /// The run goes on; more nodes may now be ready.
    Continue,
    /// Every node succeeded; the run is complete.
    RunCompleted,
    /// The failed node is to be re-invoked, no earlier than the given
    /// instant.
    RetryNode {
        /// The node to re-invoke.
        node: usize,
        /// Earliest instant, in milliseconds, at which it may restart.
        not_before_ms: u64,
    },
    /// The budget was reached; the run failed and every in-flight sibling
    /// was signalled to cancel.
    BudgetStopped {
        /// The budget error, carrying accumulated and limit values.
        error: CogWorksError,
    },
    /// A non-retryable failure ended the run: halted for halt-class
    /// errors, failed otherwise.  A content-safety failure additionally
    /// asks the owner to hold the work item for human review.
    Stopped {
        /// The class of the terminal failure.
        class: ErrorClass,
    },
}

/// One execution of the pipeline graph for one work item.
///
/// Owned exclusively by the controller; all mutation goes through the
/// methods here, one message at a time.
#[derive(Debug, Clone, PartialEq)]
pub struct PipelineRun {
    run_id: PipelineRunId,
    work_item: WorkItemId,
    graph_name: PipelineName,
    state: RunState,
    ledger: CostLedger,
    outcomes: Vec<Option<NodeOutcome>>,
    in_flight: Vec<bool>,
    retries: Vec<RetrySchedule>,
    awaiting_gate: Option<usize>,
    suspended_at_ms: u64,
}

impl PipelineRun {
    /// The run's correlation identifier.
    pub closed spec fn spec_run_id(self) -> PipelineRunId {
        self.run_id
    }

    /// The work item this run executes for.
    pub closed spec fn spec_work_item(self) -> WorkItemId {
        self.work_item
    }

    /// The name of the graph this run follows.
    pub closed spec fn spec_graph_name(self) -> PipelineName {
        self.graph_name
    }

    /// The run's current state.
    pub closed spec fn spec_state(self) -> RunState {
        self.state
    }

    /// The run's cost ledger.
    pub closed spec fn spec_ledger(self) -> CostLedger {
        self.ledger
    }

    /// The per-node outcome log: `None` until a terminal outcome is
    /// recorded, immutable afterwards.
    pub closed spec fn spec_outcomes(self) -> Seq<Option<NodeOutcome>> {
        self.outcomes@
    }

    /// Which nodes are currently in flight.
    pub closed spec fn spec_in_flight(self) -> Seq<bool> {
        self.in_flight@
    }

    /// The per-node retry schedules.
    pub closed spec fn spec_retries(self) -> Seq<RetrySchedule> {
        self.retries@
    }

    /// The checkpoint node the run is suspended at, if any.
    pub closed spec fn spec_awaiting_gate(self) -> Option<usize> {
        self.awaiting_gate
    }

    /// When the current suspension began, in milliseconds.
    pub closed spec fn spec_suspended_at_ms(self) -> u64 {
        self.suspended_at_ms
    }

    /// Number of nodes this run tracks.
    pub open spec fn spec_node_count(self) -> int {
        self.spec_outcomes().len() as int
    }

    /// Whether no node work is in flight.
    pub open spec fn spec_no_inflight(self) -> bool {
        forall|i: int| 0 <= i < self.spec_in_flight().len() ==> !(#[trigger] self.spec_in_flight()[i])
    }

    /// Whether every node has a recorded success outcome.
    pub open spec fn spec_all_succeeded(self) -> bool {
        forall|i: int|
            0 <= i < self.spec_outcomes().len() ==> ((#[trigger] self.spec_outcomes()[i]) matches
                Some(o) && o.spec_is_success())
    }

    /// Well-formedness of one run.
    ///
    /// The ledger is sound; the bookkeeping vectors agree on the node
    /// count; a node in flight has no recorded outcome yet; `Pending` and
    /// the terminal states carry no in-flight work; and the run is
    /// suspended at a checkpoint exactly when it is `AwaitingApproval`.
    pub open spec fn wf(self) -> bool {
        &&& self.spec_ledger().wf()
        &&& self.spec_in_flight().len() == self.spec_outcomes().len()
        &&& self.spec_retries().len() == self.spec_outcomes().len()
        &&& (forall|i: int|
            0 <= i < self.spec_retries().len() ==> (#[trigger] self.spec_retries()[i]).wf())
        &&& (forall|i: int|
            0 <= i < self.spec_in_flight().len() ==> ((#[trigger] self.spec_in_flight()[i])
                ==> self.spec_outcomes()[i] is None))
        &&& (self.spec_state() is Pending ==> self.spec_no_inflight())
        &&& (self.spec_state().spec_terminal() ==> self.spec_no_inflight())
        &&& (self.spec_state() is AwaitingApproval ==> self.spec_no_inflight())
        &&& (self.spec_awaiting_gate() is Some <==> self.spec_state() is AwaitingApproval)
        &&& (self.spec_awaiting_gate() matches Some(g) ==> g < self.spec_outcomes().len()
            && self.spec_outcomes()[g as int] is None)
        &&& (self.spec_state() is Completed ==> self.spec_all_succeeded())
    }

    /// Whether this run's bookkeeping matches the given graph.
    pub open spec fn spec_matches_graph(self, g: PipelineGraph) -> bool {
        self.spec_node_count() == g.nodes@.len()
    }

    /// Creates a run in `Pending` state for one work item.
    pub fn new(
        run_id: PipelineRunId,
        work_item: WorkItemId,
        graph: &PipelineGraph,
        budget: CostBudget,
        max_retries: u32,
    ) -> (r: Self)
        requires
            graph.wf(),
            budget.wf(),
        ensures
            r.wf(),
            r.spec_matches_graph(*graph),
            r.spec_run_id() == run_id,
            r.spec_work_item() == work_item,
            r.spec_graph_name() == graph.name,
            r.spec_state() == RunState::Pending,
            r.spec_ledger().spec_limit() == budget,
            r.spec_ledger().spec_accumulated().spec_micros() == 0,
            r.spec_ledger().spec_charges() =~= Seq::<TokenCost>::empty(),
            forall|i: int| 0 <= i < r.spec_node_count() ==> (#[trigger] r.spec_outcomes()[i]) is None,
    {
        let n = graph.nodes.len();
        let mut outcomes: Vec<Option<NodeOutcome>> = Vec::new();
        let mut in_flight: Vec<bool> = Vec::new();
        let mut retries: Vec<RetrySchedule> = Vec::new();
        let mut i: usize = 0;
        while i < n
            invariant
                i <= n,
                outcomes@.len() == i,
                in_flight@.len() == i,
                retries@.len() == i,
                forall|m: int| 0 <= m < i as int ==> (#[trigger] outcomes@[m]) is None,
                forall|m: int| 0 <= m < i as int ==> !(#[trigger] in_flight@[m]),
                forall|m: int|
                    0 <= m < i as int ==> (#[trigger] retries@[m]) == (RetrySchedule {
                        max_retries,
                        retries_made: 0u32,
                    }),
            decreases n - i,
        {
            outcomes.push(None);
            in_flight.push(false);
            retries.push(RetrySchedule::new(max_retries));
            i = i + 1;
        }
        PipelineRun {
            run_id,
            work_item,
            graph_name: graph.name.clone(),
            state: RunState::Pending,
            ledger: CostLedger::new(budget),
            outcomes,
            in_flight,
            retries,
            awaiting_gate: None,
            suspended_at_ms: 0,
        }
    }

    /// Starts a pending run: the only transition out of `Pending`.
    pub fn start(&mut self)
        requires
            old(self).wf(),
            old(self).spec_state() == RunState::Pending,
        ensures
            final(self).wf(),
            final(self).spec_state() == RunState::Running,
            final(self).spec_run_id() == old(self).spec_run_id(),
            final(self).spec_work_item() == old(self).spec_work_item(),
            final(self).spec_graph_name() == old(self).spec_graph_name(),
            final(self).spec_ledger() == old(self).spec_ledger(),
            final(self).spec_outcomes() == old(self).spec_outcomes(),
            final(self).spec_in_flight() == old(self).spec_in_flight(),
            final(self).spec_retries() == old(self).spec_retries(),
            final(self).spec_awaiting_gate() == old(self).spec_awaiting_gate(),
            final(self).spec_suspended_at_ms() == old(self).spec_suspended_at_ms(),
    {
        self.state = RunState::Running;
    }

    /// Whether one edge into a node is satisfied: its predecessor has a
    /// recorded outcome, and that outcome is a success unless the edge
    /// tolerates any terminal outcome.
    pub open spec fn spec_edge_satisfied(self, e: Edge) -> bool {
        match self.spec_outcomes()[e.from as int] {
            Some(o) => o.spec_is_success() || e.guard is AnyOutcome,
            None => false,
        }
    }

    /// Whether a node may be dispatched now: the run is running, the node
    /// has neither run to a recorded outcome nor is currently in flight,
    /// every edge into it is satisfied, and the budget has not already
    /// been reached (a node is never started when doing so is already
    /// known to be pointless).
    pub open spec fn spec_node_ready(self, g: PipelineGraph, n: int) -> bool {
        &&& 0 <= n < self.spec_node_count()
        &&& self.spec_state() is Running
        &&& self.spec_outcomes()[n] is None
        &&& !self.spec_in_flight()[n]
        &&& !self.spec_ledger().spec_exceeded()
        &&& (forall|j: int|
            0 <= j < g.edges@.len() && (#[trigger] g.edges@[j]).to == n ==> self.spec_edge_satisfied(
                g.edges@[j],
            ))
    }

    /// Returns `true` if node `n` may be dispatched now.
    pub fn node_ready(&self, g: &PipelineGraph, n: usize) -> (r: bool)
        requires
            self.wf(),
            g.wf(),
            self.spec_matches_graph(*g),
            n < self.spec_node_count(),
        ensures
            r == self.spec_node_ready(*g, n as int),
    {
        if !(matches!(self.state, RunState::Running)) {
            return false;
        }
        if self.outcomes[n].is_some() {
            return false;
        }
        if self.in_flight[n] {
            return false;
        }
        if self.ledger.is_exceeded() {
            return false;
        }
        let mut j: usize = 0;
        while j < g.edges.len()
            invariant
                self.wf(),
                g.wf(),
                self.spec_matches_graph(*g),
                n < self.spec_node_count(),
                j <= g.edges@.len(),
                forall|m: int|
                    0 <= m < j as int && (#[trigger] g.edges@[m]).to == n as int
                        ==> self.spec_edge_satisfied(g.edges@[m]),
            decreases g.edges@.len() - j,
        {
            let e = g.edges[j];
            if e.to == n {
                match &self.outcomes[e.from] {
                    Some(o) => {
                        if !o.is_success() && !(matches!(e.guard, EdgeGuard::AnyOutcome)) {
                            return false;
                        }
                    },
                    None => {
                        return false;
                    },
                }
            }
            j = j + 1;
        }
        true
    }

    /// Returns every node that may be dispatched now.  Ready nodes with no
    /// unsatisfied mutual dependency run concurrently; the order within
    /// the returned set carries no meaning.
    pub fn ready_nodes(&self, g: &PipelineGraph) -> (r: Vec<usize>)
        requires
            self.wf(),
            g.wf(),
            self.spec_matches_graph(*g),
        ensures
            forall|m: int|
                0 <= m < r@.len() ==> self.spec_node_ready(*g, (#[trigger] r@[m]) as int),
            forall|n: int|
                0 <= n < self.spec_node_count() && self.spec_node_ready(*g, n) ==> r@.contains(
                    n as usize,
                ),
    {
        let mut out: Vec<usize> = Vec::new();
        let count = self.outcomes.len();
        let mut n: usize = 0;
        while n < count
            invariant
                self.wf(),
                g.wf(),
                self.spec_matches_graph(*g),
                count == self.spec_node_count(),
                n <= count,
                forall|m: int|
                    0 <= m < out@.len() ==> self.spec_node_ready(*g, (#[trigger] out@[m]) as int),
                forall|w: int|
                    0 <= w < n as int && self.spec_node_ready(*g, w) ==> out@.contains(w as usize),
            decreases count - n,
        {
            if self.node_ready(g, n) {
                let ghost prev = out@;
                out.push(n);
                proof {
                    assert forall|w: int|
                        0 <= w <= n as int && self.spec_node_ready(*g, w) implies out@.contains(
                        w as usize,
                    ) by {
                        if w == n as int {
                            assert(out@[out@.len() - 1] == n as usize);
                        } else {
                            assert(prev.contains(w as usize));
                            let m = choose|m: int| 0 <= m < prev.len() && prev[m] == w as usize;
                            assert(out@[m] == w as usize);
                        }
                    }
                }
            }
            n = n + 1;
        }
        out
    }

    /// Broadcasts the cooperative cancellation signal: every in-flight
    /// unit is considered cancelled and nothing remains in flight.  The
    /// units themselves observe the signal at their next suspension point;
    /// the controller no longer accepts their outcomes.
    fn cancel_inflight(&mut self)
        requires
            old(self).wf(),
        ensures
            final(self).spec_no_inflight(),
            final(self).spec_in_flight().len() == old(self).spec_in_flight().len(),
            final(self).spec_run_id() == old(self).spec_run_id(),
            final(self).spec_work_item() == old(self).spec_work_item(),
            final(self).spec_graph_name() == old(self).spec_graph_name(),
            final(self).spec_state() == old(self).spec_state(),
            final(self).spec_ledger() == old(self).spec_ledger(),
            final(self).spec_outcomes() == old(self).spec_outcomes(),
            final(self).spec_retries() == old(self).spec_retries(),
            final(self).spec_awaiting_gate() == old(self).spec_awaiting_gate(),
            final(self).spec_suspended_at_ms() == old(self).spec_suspended_at_ms(),
    {
        let len = self.in_flight.len();
        let mut fresh: Vec<bool> = Vec::new();
        let mut i: usize = 0;
        while i < len
            invariant
                i <= len,
                fresh@.len() == i,
                forall|m: int| 0 <= m < i as int ==> !(#[trigger] fresh@[m]),
            decreases len - i,
        {
            fresh.push(false);
            i = i + 1;
        }
        self.in_flight = fresh;
    }

    /// The terminal state a failure class sends the run to: halt-class
    /// and content-safety failures halt the run for human attention, every
    /// other class fails it.
    pub open spec fn spec_stop_state(class: ErrorClass) -> RunState {
        if class is Halt || class is ContentSafety {
            RunState::Halted
        } else {
            RunState::Failed
        }
    }

    /// Applies one node-completion message to the run.
    ///
    /// The reported cost is charged first, whatever the outcome: the
    /// charge that reaches the budget cap stops the run and cancels every
    /// in-flight sibling.  A success is recorded, completing the run once
    /// every node has succeeded.  A failure is interpreted against the
    /// node's retry schedule: within the attempt ceiling a retryable
    /// failure asks for re-invocation no earlier than its back-off and
    /// records no outcome; otherwise the failure is recorded, the
    /// remaining siblings are cancelled cooperatively, and the run halts
    /// or fails according to the failure's class.
    #[verifier::rlimit(100)]
    #[verifier::spinoff_prover]
    pub fn record_outcome(
        &mut self,
        g: &PipelineGraph,
        n: usize,
        outcome: NodeOutcome,
        now_ms: u64,
    ) -> (r: RunStep)
        requires
            old(self).wf(),
            g.wf(),
            old(self).spec_matches_graph(*g),
            old(self).spec_state() is Running,
            n < old(self).spec_node_count(),
            old(self).spec_in_flight()[n as int],
        ensures
            final(self).wf(),
            final(self).spec_matches_graph(*g),
            final(self).spec_run_id() == old(self).spec_run_id(),
            final(self).spec_work_item() == old(self).spec_work_item(),
            final(self).spec_graph_name() == old(self).spec_graph_name(),
            final(self).spec_ledger().spec_limit() == old(self).spec_ledger().spec_limit(),
            ({
                let cost = outcome.spec_cost().spec_micros();
                let pre = old(self).spec_ledger().spec_accumulated().spec_micros();
                let cap = old(self).spec_ledger().spec_limit();
                if pre + cost > u64::MAX as int {
                    // The sum is not even representable: the charge is refused, the
                    // run fails as over budget.
                    &&& final(self).spec_ledger() == old(self).spec_ledger()
                    &&& final(self).spec_state() is Failed
                    &&& final(self).spec_no_inflight()
                    &&& final(self).spec_outcomes() == old(self).spec_outcomes()
                    &&& r == (RunStep::BudgetStopped {
                        error: CogWorksError::BudgetExceeded {
                            accumulated: old(self).spec_ledger().spec_accumulated(),
                            limit: cap,
                        },
                    })
                } else {
                    &&& final(self).spec_ledger().spec_charges() =~= old(
                        self,
                    ).spec_ledger().spec_charges().push(outcome.spec_cost())
                    &&& final(self).spec_ledger().spec_accumulated().spec_micros() == pre + cost
                    &&& if pre + cost >= cap.spec_limit() {
                        // This charge reached the cap: the run fails, siblings are
                        // cancelled, the error reports accumulated and limit.
                        &&& final(self).spec_state() is Failed
                        &&& final(self).spec_no_inflight()
                        &&& final(self).spec_outcomes() == old(self).spec_outcomes()
                        &&& r == (RunStep::BudgetStopped {
                            error: CogWorksError::BudgetExceeded {
                                accumulated: final(self).spec_ledger().spec_accumulated(),
                                limit: cap,
                            },
                        })
                    } else {
                        match outcome {
                            NodeOutcome::Success { .. } => {
                                &&& final(self).spec_outcomes() =~= old(
                                    self,
                                ).spec_outcomes().update(n as int, Some(outcome))
                                &&& final(self).spec_in_flight() =~= old(
                                    self,
                                ).spec_in_flight().update(n as int, false)
                                &&& final(self).spec_retries() == old(self).spec_retries()
                                &&& (final(self).spec_all_succeeded() ==> final(self).spec_state()
                                    is Completed && r == RunStep::RunCompleted)
                                &&& (!final(self).spec_all_succeeded() ==> final(self).spec_state()
                                    is Running && r == RunStep::Continue)
                            },
                            NodeOutcome::Failure { error, .. } => {
                                let policy = error.spec_policy();
                                let sched = old(self).spec_retries()[n as int];
                                let d = sched.spec_decision(policy, now_ms);
                                &&& final(self).spec_retries() =~= old(
                                    self,
                                ).spec_retries().update(
                                    n as int,
                                    sched.spec_after_failure(policy, now_ms),
                                )
                                &&& match d {
                                    RetryDecision::Retry { not_before_ms } => {
                                        &&& r == (RunStep::RetryNode { node: n, not_before_ms })
                                        &&& final(self).spec_state() is Running
                                        &&& final(self).spec_outcomes() == old(
                                            self,
                                        ).spec_outcomes()
                                        &&& final(self).spec_in_flight() =~= old(
                                            self,
                                        ).spec_in_flight().update(n as int, false)
                                    },
                                    RetryDecision::Escalate => {
                                        &&& r == (RunStep::Stopped { class: error.class })
                                        &&& final(self).spec_outcomes() =~= old(
                                            self,
                                        ).spec_outcomes().update(n as int, Some(outcome))
                                        &&& final(self).spec_state() == Self::spec_stop_state(
                                            error.class,
                                        )
                                        &&& final(self).spec_no_inflight()
                                    },
                                }
                            },
                        }
                    }
                }
            }),
    {
        let slot = vstd::std_specs::vec::vec_index_mut(&mut self.in_flight, n);
        *slot = false;
        let cost = outcome.cost();
        match self.ledger.charge(cost) {
            Err(e) => {
                self.cancel_inflight();
                self.state = RunState::Failed;
                proof {
                    assert(self.wf());
                }
                RunStep::BudgetStopped { error: e }
            },
            Ok(()) => {
                match outcome {
                    NodeOutcome::Success { .. } => {
                        let out_slot = vstd::std_specs::vec::vec_index_mut(&mut self.outcomes, n);
                        *out_slot = Some(outcome);
                        if self.all_succeeded() {
                            proof {
                                let pre = *old(self);
                                assert forall|i: int|
                                    0 <= i < self.spec_in_flight().len() implies !(
                                #[trigger] self.spec_in_flight()[i]) by {
                                    if self.spec_in_flight()[i] {
                                        assert(i != n as int);
                                        assert(pre.spec_in_flight()[i]);
                                        assert(pre.spec_outcomes()[i] is None);
                                        assert(self.spec_outcomes()[i] is None);
                                        assert((self.spec_outcomes()[i] matches Some(o)
                                            && o.spec_is_success()));
                                        assert(false);
                                    }
                                }
                            }
                            self.state = RunState::Completed;
                            proof {
                                assert(self.spec_ledger().wf());
                                assert(self.spec_in_flight().len() == self.spec_outcomes().len());
                                assert(self.spec_retries().len() == self.spec_outcomes().len());
                                assert(forall|i: int|
                                    0 <= i < self.spec_retries().len() ==> (
                                    #[trigger] self.spec_retries()[i]).wf());
                                assert(forall|i: int|
                                    0 <= i < self.spec_in_flight().len() ==> ((
                                    #[trigger] self.spec_in_flight()[i])
                                        ==> self.spec_outcomes()[i] is None));
                                assert(self.spec_no_inflight());
                                assert(self.spec_awaiting_gate() is None);
                                assert(self.wf());
                            }
                            RunStep::RunCompleted
                        } else {
                            proof {
                                assert(self.wf());
                            }
                            RunStep::Continue
                        }
                    },
                    NodeOutcome::Failure { error, .. } => {
                        let policy = error.policy();
                        let mut sched = self.retries[n];
                        let d = sched.on_failure(&policy, now_ms);
                        let sched_slot = vstd::std_specs::vec::vec_index_mut(&mut self.retries, n);
                        *sched_slot = sched;
                        match d {
                            RetryDecision::Retry { not_before_ms } => {
                                proof {
                                    assert(self.wf());
                                }
                                RunStep::RetryNode { node: n, not_before_ms }
                            },
                            RetryDecision::Escalate => {
                                let out_slot = vstd::std_specs::vec::vec_index_mut(
                                    &mut self.outcomes,
                                    n,
                                );
                                *out_slot = Some(outcome);
                                self.cancel_inflight();
                                self.state = match error.class {
                                    ErrorClass::Halt => RunState::Halted,
                                    ErrorClass::ContentSafety => RunState::Halted,
                                    _ => RunState::Failed,
                                };
                                proof {
                                    assert(self.wf());
                                }
                                RunStep::Stopped { class: error.class }
                            },
                        }
                    },
                }
            },
        }
    }

    /// Returns `true` if no node work is in flight.
    pub fn none_inflight(&self) -> (r: bool)
        ensures
            r == self.spec_no_inflight(),
    {
        let mut i: usize = 0;
        let len = self.in_flight.len();
        while i < len
            invariant
                i <= len,
                len == self.spec_in_flight().len(),
                forall|m: int| 0 <= m < i as int ==> !(#[trigger] self.spec_in_flight()[m]),
            decreases len - i,
        {
            if self.in_flight[i] {
                return false;
            }
            i = i + 1;
        }
        true
    }

    /// One sweep of the controller's step loop.
    ///
    /// Every ready task node is dispatched; they run concurrently, in no
    /// particular order, and report back through
    /// [`PipelineRun::record_outcome`].  A ready human checkpoint is
    /// reached only once the run is quiescent — nothing else ready or in
    /// flight — and then suspends the run.
    #[verifier::rlimit(100)]
    pub fn dispatch_ready(&mut self, g: &PipelineGraph, now_ms: u64) -> (started: Vec<usize>)
        requires
            old(self).wf(),
            g.wf(),
            old(self).spec_matches_graph(*g),
        ensures
            final(self).wf(),
            final(self).spec_matches_graph(*g),
            final(self).spec_run_id() == old(self).spec_run_id(),
            final(self).spec_work_item() == old(self).spec_work_item(),
            final(self).spec_graph_name() == old(self).spec_graph_name(),
            final(self).spec_ledger() == old(self).spec_ledger(),
            final(self).spec_outcomes() == old(self).spec_outcomes(),
            final(self).spec_retries() == old(self).spec_retries(),
            // Every started node was ready, is a task, and is now in flight.
            forall|m: int|
                0 <= m < started@.len() ==> {
                    let n = (#[trigger] started@[m]) as int;
                    &&& old(self).spec_node_ready(*g, n)
                    &&& g.nodes@[n].kind is Task
                    &&& final(self).spec_in_flight()[n]
                },
            // No other node entered or left flight.
            forall|n: int|
                0 <= n < final(self).spec_node_count() && !started@.contains(n as usize)
                    ==> final(self).spec_in_flight()[n] == old(self).spec_in_flight()[n],
            // While the run stays `Running`, no ready task was left behind.
            final(self).spec_state() is Running ==> final(self).spec_state() == old(
                self,
            ).spec_state() && (forall|n: int|
                0 <= n < old(self).spec_node_count() && old(self).spec_node_ready(*g, n)
                    && g.nodes@[n].kind is Task ==> started@.contains(n as usize)),
            // A suspension reaches a checkpoint that was ready, quiescently.
            final(self).spec_state() is AwaitingApproval && old(self).spec_state() is Running
                ==> started@.len() == 0 && (final(self).spec_awaiting_gate() matches Some(cp)
                && old(self).spec_node_ready(*g, cp as int) && g.nodes@[cp as int].kind
                is HumanGate && final(self).spec_suspended_at_ms() == now_ms),
            final(self).spec_state() == old(self).spec_state() || (old(self).spec_state()
                is Running && final(self).spec_state() is AwaitingApproval),
            !(old(self).spec_state() is Running) ==> final(self).spec_state() == old(
                self,
            ).spec_state() && final(self).spec_in_flight() =~= old(self).spec_in_flight()
                && started@.len() == 0,
    {
        let ready = self.ready_nodes(g);
        let mut started: Vec<usize> = Vec::new();
        let mut idx: usize = 0;
        while idx < ready.len()
            invariant
                self.wf(),
                g.wf(),
                self.spec_matches_graph(*g),
                idx <= ready@.len(),
                self.spec_run_id() == old(self).spec_run_id(),
                self.spec_work_item() == old(self).spec_work_item(),
                self.spec_graph_name() == old(self).spec_graph_name(),
                self.spec_ledger() == old(self).spec_ledger(),
                self.spec_outcomes() == old(self).spec_outcomes(),
                self.spec_retries() == old(self).spec_retries(),
                self.spec_state() == old(self).spec_state(),
                self.spec_awaiting_gate() == old(self).spec_awaiting_gate(),
                self.spec_suspended_at_ms() == old(self).spec_suspended_at_ms(),
                forall|m: int|
                    0 <= m < ready@.len() ==> old(self).spec_node_ready(
                        *g,
                        (#[trigger] ready@[m]) as int,
                    ),
                forall|n: int|
                    0 <= n < old(self).spec_node_count() && old(self).spec_node_ready(*g, n)
                        && g.nodes@[n].kind is Task ==> ready@.contains(n as usize),
                forall|m: int|
                    0 <= m < started@.len() ==> {
                        let n = (#[trigger] started@[m]) as int;
                        &&& old(self).spec_node_ready(*g, n)
                        &&& g.nodes@[n].kind is Task
                        &&& self.spec_in_flight()[n]
                    },
                forall|n: int|
                    0 <= n < self.spec_node_count() && !started@.contains(n as usize)
                        ==> self.spec_in_flight()[n] == old(self).spec_in_flight()[n],
                forall|m: int|
                    0 <= m < idx as int && g.nodes@[(#[trigger] ready@[m]) as int].kind is Task
                        ==> started@.contains(ready@[m]),
            decreases ready@.len() - idx,
        {
            let n = ready[idx];
            let is_task = match g.nodes[n].kind {
                NodeKind::Task => true,
                NodeKind::HumanGate => false,
            };
            proof {
                assert(old(self).spec_node_ready(*g, n as int));
            }
            if is_task {
                if self.node_ready(g, n) {
                    let ghost prev_started = started@;
                    self.dispatch(g, n, now_ms);
                    started.push(n);
                    proof {
                        assert(started@[started@.len() - 1] == n);
                        assert(self.spec_in_flight()[n as int]);
                        assert forall|x: usize| prev_started.contains(x) implies started@.contains(
                            x,
                        ) by {
                            let m = choose|m: int|
                                0 <= m < prev_started.len() && prev_started[m] == x;
                            assert(started@[m] == x);
                        }
                        assert forall|w: int|
                            0 <= w < self.spec_node_count() && !started@.contains(w as usize)
                                implies self.spec_in_flight()[w] == old(self).spec_in_flight()[w]
                        by {
                            if prev_started.contains(w as usize) {
                                let m = choose|m: int|
                                    0 <= m < prev_started.len() && prev_started[m] == w as usize;
                                assert(started@[m] == w as usize);
                            }
                            assert(!prev_started.contains(w as usize));
                            assert(w != n as int);
                        }
                    }
                } else {
                    // Not ready any more: this sweep already dispatched it.
                    proof {
                        if !started@.contains(n) {
                            assert(self.spec_in_flight()[n as int] == old(
                                self,
                            ).spec_in_flight()[n as int]);
                            assert forall|j: int|
                                0 <= j < g.edges@.len() && (#[trigger] g.edges@[j]).to == n as int
                                    implies self.spec_edge_satisfied(g.edges@[j]) by {
                                assert(old(self).spec_edge_satisfied(g.edges@[j]));
                            }
                            assert(self.spec_node_ready(*g, n as int));
                            assert(false);
                        }
                    }
                }
            }
            idx = idx + 1;
        }
        if started.len() == 0 && self.none_inflight() {
            let mut j: usize = 0;
            while j < ready.len()
                invariant
                    self.wf(),
                    g.wf(),
                    self.spec_matches_graph(*g),
                    j <= ready@.len(),
                    started@.len() == 0,
                    self.spec_run_id() == old(self).spec_run_id(),
                    self.spec_work_item() == old(self).spec_work_item(),
                    self.spec_graph_name() == old(self).spec_graph_name(),
                    self.spec_ledger() == old(self).spec_ledger(),
                    self.spec_outcomes() == old(self).spec_outcomes(),
                    self.spec_retries() == old(self).spec_retries(),
                    self.spec_state() == old(self).spec_state(),
                    self.spec_awaiting_gate() == old(self).spec_awaiting_gate(),
                    self.spec_suspended_at_ms() == old(self).spec_suspended_at_ms(),
                    self.spec_no_inflight(),
                    forall|n: int|
                        0 <= n < self.spec_node_count() ==> (#[trigger] self.spec_in_flight()[n])
                            == old(self).spec_in_flight()[n],
                    forall|m: int|
                        0 <= m < ready@.len() ==> old(self).spec_node_ready(
                            *g,
                            (#[trigger] ready@[m]) as int,
                        ),
                    forall|m: int|
                        0 <= m < ready@.len() && g.nodes@[(#[trigger] ready@[m]) as int].kind
                            is Task ==> started@.contains(ready@[m]),
                decreases ready@.len() - j,
            {
                let n = ready[j];
                let is_checkpoint = match g.nodes[n].kind {
                    NodeKind::Task => false,
                    NodeKind::HumanGate => true,
                };
                if is_checkpoint {
                    proof {
                        assert(old(self).spec_node_ready(*g, n as int));
                        assert(!self.spec_in_flight()[n as int]);
                        assert forall|w: int|
                            0 <= w < g.edges@.len() && (#[trigger] g.edges@[w]).to == n as int
                                implies self.spec_edge_satisfied(g.edges@[w]) by {
                            assert(old(self).spec_edge_satisfied(g.edges@[w]));
                        }
                        assert(self.spec_node_ready(*g, n as int));
                    }
                    self.dispatch(g, n, now_ms);
                    proof {
                        assert(self.spec_state() is AwaitingApproval);
                        assert(self.spec_awaiting_gate() == Some(n));
                    }
                    return started;
                }
                j = j + 1;
            }
        }
        proof {
            if !(old(self).spec_state() is Running) {
                if started@.len() > 0 {
                    assert(old(self).spec_node_ready(*g, started@[0] as int));
                    assert(false);
                }
                assert forall|w: int|
                    0 <= w < self.spec_node_count() implies (#[trigger] self.spec_in_flight()[w])
                        == old(self).spec_in_flight()[w] by {
                    assert(!started@.contains(w as usize));
                }
                assert(self.spec_in_flight() =~= old(self).spec_in_flight());
            }
            assert forall|n: int|
                0 <= n < old(self).spec_node_count() && old(self).spec_node_ready(*g, n)
                    && g.nodes@[n].kind is Task implies started@.contains(n as usize) by {
                assert(ready@.contains(n as usize));
                let m = choose|m: int| 0 <= m < ready@.len() && ready@[m] == n as usize;
                assert(self.outcomes.len() as int == self.spec_outcomes().len());
                assert(n <= usize::MAX as int);
                assert((ready@[m]) as int == n);
                assert(g.nodes@[(ready@[m]) as int].kind is Task);
                assert(started@.contains(ready@[m]));
            }
        }
        started
    }

    /// Applies the human's answer for the checkpoint the run is suspended at.
    ///
    /// Approval records the checkpoint node as a success at no cost and the run
    /// resumes (or completes, if the checkpoint was the last node).  Rejection
    /// is a human checkpoint abort: a deliberate halt.
    pub fn on_approval(&mut self, approved: bool) -> (r: RunStep)
        requires
            old(self).wf(),
            old(self).spec_state() is AwaitingApproval,
        ensures
            final(self).wf(),
            final(self).spec_run_id() == old(self).spec_run_id(),
            final(self).spec_work_item() == old(self).spec_work_item(),
            final(self).spec_graph_name() == old(self).spec_graph_name(),
            final(self).spec_ledger() == old(self).spec_ledger(),
            final(self).spec_retries() == old(self).spec_retries(),
            final(self).spec_awaiting_gate() is None,
            !approved ==> final(self).spec_state() is Halted && final(self).spec_outcomes() == old(
                self,
            ).spec_outcomes() && r == (RunStep::Stopped { class: ErrorClass::Halt }),
            approved ==> (old(self).spec_awaiting_gate() matches Some(gate) ==> {
                &&& final(self).spec_outcomes().len() == old(self).spec_outcomes().len()
                &&& (final(self).spec_outcomes()[gate as int] matches Some(o)
                    && o.spec_is_success() && o.spec_cost().spec_micros() == 0)
                &&& (forall|i: int|
                    0 <= i < final(self).spec_outcomes().len() && i != gate as int
                        ==> final(self).spec_outcomes()[i] == old(self).spec_outcomes()[i])
                &&& (final(self).spec_all_succeeded() ==> final(self).spec_state() is Completed
                    && r == RunStep::RunCompleted)
                &&& (!final(self).spec_all_succeeded() ==> final(self).spec_state() is Running && r
                    == RunStep::Continue)
            }),
    {
        let gate: usize = match self.awaiting_gate {
            Some(gi) => gi,
            None => {
                proof {
                    assert(false);
                }
                0
            },
        };
        self.awaiting_gate = None;
        if !approved {
            self.state = RunState::Halted;
            return RunStep::Stopped { class: ErrorClass::Halt };
        }
        let out_slot = vstd::std_specs::vec::vec_index_mut(&mut self.outcomes, gate);
        *out_slot = Some(
            NodeOutcome::Success {
                cost: TokenCost::zero(),
                artifacts: Vec::new(),
                diagnostics: Vec::new(),
            },
        );
        if self.all_succeeded() {
            self.state = RunState::Completed;
            RunStep::RunCompleted
        } else {
            self.state = RunState::Running;
            RunStep::Continue
        }
    }

    /// Checks the suspension against the configured approval timeout.
    ///
    /// A checkpoint abandoned past its timeout is treated as a non-retryable
    /// halt; before the deadline nothing changes.
    pub fn check_gate_timeout(&mut self, now_ms: u64, timeout_ms: u64) -> (r: RunStep)
        requires
            old(self).wf(),
            old(self).spec_state() is AwaitingApproval,
        ensures
            final(self).wf(),
            final(self).spec_run_id() == old(self).spec_run_id(),
            final(self).spec_work_item() == old(self).spec_work_item(),
            final(self).spec_graph_name() == old(self).spec_graph_name(),
            final(self).spec_ledger() == old(self).spec_ledger(),
            final(self).spec_outcomes() == old(self).spec_outcomes(),
            final(self).spec_retries() == old(self).spec_retries(),
            ({
                let deadline = crate::cost::spec_saturating_add(
                    old(self).spec_suspended_at_ms() as int,
                    timeout_ms as int,
                );
                &&& (now_ms as int >= deadline ==> {
                    &&& final(self).spec_state() is Halted
                    &&& final(self).spec_awaiting_gate() is None
                    &&& r == (RunStep::Stopped { class: ErrorClass::Halt })
                })
                &&& ((now_ms as int) < deadline ==> *final(self) == *old(self) && r
                    == RunStep::Continue)
            }),
    {
        let deadline: u64 = match self.suspended_at_ms.checked_add(timeout_ms) {
            Some(t) => t,
            None => u64::MAX,
        };
        if now_ms >= deadline {
            self.awaiting_gate = None;
            self.state = RunState::Halted;
            RunStep::Stopped { class: ErrorClass::Halt }
        } else {
            RunStep::Continue
        }
    }

    /// Returns `true` if every node has a recorded success outcome.
    pub fn all_succeeded(&self) -> (r: bool)
        ensures
            r == self.spec_all_succeeded(),
    {
        let mut i: usize = 0;
        let len = self.outcomes.len();
        while i < len
            invariant
                i <= len,
                len == self.spec_outcomes().len(),
                forall|m: int|
                    0 <= m < i as int ==> ((#[trigger] self.spec_outcomes()[m]) matches Some(o)
                        && o.spec_is_success()),
            decreases len - i,
        {
            match &self.outcomes[i] {
                Some(o) => {
                    if !o.is_success() {
                        return false;
                    }
                },
                None => {
                    return false;
                },
            }
            i = i + 1;
        }
        true
    }

    /// Dispatches one ready node.
    ///
    /// An ordinary task node is marked in flight; its executing unit runs
    /// elsewhere and will report back through
    /// [`PipelineRun::record_outcome`].  A human-checkpoint node suspends the
    /// run instead: the controller only reaches a checkpoint once nothing else
    /// is in flight, and the run is then durably recorded as
    /// `AwaitingApproval` from `now_ms` on.
    pub fn dispatch(&mut self, g: &PipelineGraph, n: usize, now_ms: u64) -> (started: bool)
        requires
            old(self).wf(),
            g.wf(),
            old(self).spec_matches_graph(*g),
            old(self).spec_node_ready(*g, n as int),
            g.nodes@[n as int].kind is HumanGate ==> old(self).spec_no_inflight(),
        ensures
            final(self).wf(),
            final(self).spec_matches_graph(*g),
            final(self).spec_run_id() == old(self).spec_run_id(),
            final(self).spec_work_item() == old(self).spec_work_item(),
            final(self).spec_graph_name() == old(self).spec_graph_name(),
            final(self).spec_ledger() == old(self).spec_ledger(),
            final(self).spec_outcomes() == old(self).spec_outcomes(),
            final(self).spec_retries() == old(self).spec_retries(),
            started == (g.nodes@[n as int].kind is Task),
            g.nodes@[n as int].kind is Task ==> {
                &&& final(self).spec_state() is Running
                &&& final(self).spec_in_flight() =~= old(self).spec_in_flight().update(
                    n as int,
                    true,
                )
                &&& final(self).spec_awaiting_gate() == old(self).spec_awaiting_gate()
                &&& final(self).spec_suspended_at_ms() == old(self).spec_suspended_at_ms()
            },
            g.nodes@[n as int].kind is HumanGate ==> {
                &&& final(self).spec_state() is AwaitingApproval
                &&& final(self).spec_awaiting_gate() == Some(n)
                &&& final(self).spec_suspended_at_ms() == now_ms
                &&& final(self).spec_in_flight() == old(self).spec_in_flight()
            },
    {
        let kind = g.nodes[n].kind;
        match kind {
            NodeKind::Task => {
                let slot = vstd::std_specs::vec::vec_index_mut(&mut self.in_flight, n);
                *slot = true;
                true
            },
            NodeKind::HumanGate => {
                self.state = RunState::AwaitingApproval;
                self.awaiting_gate = Some(n);
                self.suspended_at_ms = now_ms;
                false
            },
        }
    }
    /// Returns the run's correlation identifier.
    pub fn run_id(&self) -> (r: PipelineRunId)
        ensures
            r == self.spec_run_id(),
    {
        self.run_id
    }

    /// Returns the work item this run executes for.
    pub fn work_item(&self) -> (r: WorkItemId)
        ensures
            r == self.spec_work_item(),
    {
        self.work_item
    }

    /// Returns the run's current state.
    pub fn state(&self) -> (r: RunState)
        ensures
            r == self.spec_state(),
    {
        self.state
    }

    /// Returns the run's cost ledger.
    pub fn ledger(&self) -> (r: &CostLedger)
        ensures
            *r == self.spec_ledger(),
    {
        &self.ledger
    }

    /// Returns the accumulated spend of this run.
    pub fn accumulated(&self) -> (r: TokenCost)
        ensures
            r == self.spec_ledger().spec_accumulated(),
    {
        self.ledger.accumulated()
    }

    /// Returns whether node `n` has a recorded outcome.
    pub fn has_outcome(&self, n: usize) -> (r: bool)
        requires
            n < self.spec_node_count(),
        ensures
            r == (self.spec_outcomes()[n as int] is Some),
    {
        self.outcomes[n].is_some()
    }

    /// Returns the checkpoint node the run is suspended at, if any.
    pub fn awaiting_gate(&self) -> (r: Option<usize>)
        ensures
            r == self.spec_awaiting_gate(),
    {
        self.awaiting_gate
    }

    /// Serializes the run into its durable snapshot.
    ///
    /// Only a quiescent run is persisted — nothing may be in flight, which
    /// holds in `Pending`, `AwaitingApproval` and the terminal states.
    /// The snapshot carries the full recoverable state: identifiers,
    /// state, ledger, per-node outcome log, retry bookkeeping, and the
    /// suspension bookkeeping of an awaited checkpoint.
    pub fn suspend(self) -> (s: RunSnapshot)
        requires
            self.wf(),
            self.spec_no_inflight(),
        ensures
            s.wf(),
            s.run_id == self.spec_run_id(),
            s.work_item == self.spec_work_item(),
            s.graph_name == self.spec_graph_name(),
            s.state == self.spec_state(),
            s.ledger == self.spec_ledger(),
            s.outcomes@ == self.spec_outcomes(),
            s.retries@ == self.spec_retries(),
            s.awaiting_gate == self.spec_awaiting_gate(),
            s.suspended_at_ms == self.spec_suspended_at_ms(),
    {
        RunSnapshot {
            run_id: self.run_id,
            work_item: self.work_item,
            graph_name: self.graph_name,
            state: self.state,
            ledger: self.ledger,
            outcomes: self.outcomes,
            retries: self.retries,
            awaiting_gate: self.awaiting_gate,
            suspended_at_ms: self.suspended_at_ms,
        }
    }

    /// Rebuilds a run from its durable snapshot, e.g. after a process
    /// restart.
    ///
    /// The resumed run continues from exactly the recorded state: the same
    /// state-machine state, ledger, outcome log, retry bookkeeping and
    /// checkpoint suspension; nothing is in flight until the controller
    /// dispatches again, and [`lemma_no_duplicate_execution`] rules out
    /// re-dispatching any node whose outcome the snapshot recorded.
    pub fn resume(s: RunSnapshot) -> (r: Self)
        requires
            s.wf(),
        ensures
            r.wf(),
            r.spec_no_inflight(),
            r.spec_run_id() == s.run_id,
            r.spec_work_item() == s.work_item,
            r.spec_graph_name() == s.graph_name,
            r.spec_state() == s.state,
            r.spec_ledger() == s.ledger,
            r.spec_outcomes() == s.outcomes@,
            r.spec_retries() == s.retries@,
            r.spec_awaiting_gate() == s.awaiting_gate,
            r.spec_suspended_at_ms() == s.suspended_at_ms,
    {
        let len = s.outcomes.len();
        let mut in_flight: Vec<bool> = Vec::new();
        let mut i: usize = 0;
        while i < len
            invariant
                i <= len,
                in_flight@.len() == i,
                forall|m: int| 0 <= m < i as int ==> !(#[trigger] in_flight@[m]),
            decreases len - i,
        {
            in_flight.push(false);
            i = i + 1;
        }
        PipelineRun {
            run_id: s.run_id,
            work_item: s.work_item,
            graph_name: s.graph_name,
            state: s.state,
            ledger: s.ledger,
            outcomes: s.outcomes,
            in_flight,
            retries: s.retries,
            awaiting_gate: s.awaiting_gate,
            suspended_at_ms: s.suspended_at_ms,
        }
    }
}

/// The durable, serializable shape of one run, keyed by its work item:
/// run id, work-item id, state, accumulated cost with its charge log, and
/// the per-node outcome log — sufficient to resume an `AwaitingApproval`
/// run after a process restart.  Storage technology is a collaborator
/// concern.
#[derive(Debug, Clone, PartialEq)]
pub struct RunSnapshot {
    /// The run's correlation identifier.
    pub run_id: PipelineRunId,
    /// The work item the run executes for.
    pub work_item: WorkItemId,
    /// The name of the graph the run follows.
    pub graph_name: PipelineName,
    /// The state the run was recorded in.
    pub state: RunState,
    /// The cost ledger, cap and charge log included.
    pub ledger: CostLedger,
    /// The per-node outcome log.
    pub outcomes: Vec<Option<NodeOutcome>>,
    /// The per-node retry bookkeeping.
    pub retries: Vec<RetrySchedule>,
    /// The checkpoint the run is suspended at, if any.
    pub awaiting_gate: Option<usize>,
    /// When the current suspension began, in milliseconds.
    pub suspended_at_ms: u64,
}

impl RunSnapshot {
    /// Well-formedness of a snapshot: exactly the run invariants that do
    /// not concern in-flight work, which a snapshot never carries.
    pub open spec fn wf(self) -> bool {
        &&& self.ledger.wf()
        &&& self.retries@.len() == self.outcomes@.len()
        &&& (forall|i: int| 0 <= i < self.retries@.len() ==> (#[trigger] self.retries@[i]).wf())
        &&& (self.awaiting_gate is Some <==> self.state is AwaitingApproval)
        &&& (self.awaiting_gate matches Some(g) ==> g < self.outcomes@.len() && self.outcomes@[g as int] is None)
        &&& (self.state is Completed ==> forall|i: int|
            0 <= i < self.outcomes@.len() ==> ((#[trigger] self.outcomes@[i]) matches Some(o)
                && o.spec_is_success()))
    }
}

/// For all runs, accumulated cost equals the sum of every recorded node
/// charge, including charges reported by parallel branches: every branch's
/// report serializes through the run's single ledger, so no charge is lost
/// or double-counted under concurrent dispatch.
pub proof fn lemma_run_cost_is_sum_of_charges(r: PipelineRun)
    requires
        r.wf(),
    ensures
        r.spec_ledger().spec_accumulated().spec_micros() == sum_charges(
            r.spec_ledger().spec_charges(),
        ),
{
}

/// Partial success is never silently treated as completion: a run reaches
/// `Completed` only when every node has a recorded success outcome.
pub proof fn lemma_completion_is_total(r: PipelineRun)
    requires
        r.wf(),
        r.spec_state() is Completed,
    ensures
        r.spec_all_succeeded(),
{
}

/// A node whose outcome is recorded is never dispatched again — in
/// particular, a run resumed from a snapshot re-executes no node the
/// snapshot already recorded, whatever graph drives it.
pub proof fn lemma_no_duplicate_execution(r: PipelineRun, g: PipelineGraph, n: int)
    requires
        r.wf(),
        0 <= n < r.spec_node_count(),
        r.spec_outcomes()[n] is Some,
    ensures
        !r.spec_node_ready(g, n),
{
}

} // verus!
