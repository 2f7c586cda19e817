use cogworks::errors::{ClassifiedError, CogWorksError, ErrorClass};
use cogworks::executor::{
    Edge, EdgeGuard, NodeKind, NodeOutcome, NodeSpec, PipelineGraph, PipelineRun, RunState,
    RunStep,
};
use cogworks::identifiers::{NodeId, PipelineName, PipelineRunId, WorkItemId};
use cogworks::values::{CostBudget, TokenCost};

fn node(name: &str, kind: NodeKind) -> NodeSpec {
    NodeSpec { name: NodeId::new(name.to_string()).unwrap(), kind }
}

fn edge(from: usize, to: usize) -> Edge {
    Edge { from, to, guard: EdgeGuard::RequireSuccess }
}

/// intake -> {plan, review} -> integrate
fn diamond() -> PipelineGraph {
    PipelineGraph {
        name: PipelineName::new("default".to_string()).unwrap(),
        nodes: vec![
            node("intake", NodeKind::Task),
            node("plan", NodeKind::Task),
            node("review", NodeKind::Task),
            node("integrate", NodeKind::Task),
        ],
        edges: vec![edge(0, 1), edge(0, 2), edge(1, 3), edge(2, 3)],
    }
}

fn success(micros: u64) -> NodeOutcome {
    NodeOutcome::Success {
        cost: TokenCost::new(micros),
        artifacts: Vec::new(),
        diagnostics: Vec::new(),
    }
}

fn failure(micros: u64, class: ErrorClass, after_ms: Option<u64>) -> NodeOutcome {
    NodeOutcome::Failure {
        cost: TokenCost::new(micros),
        error: ClassifiedError { class, retry_after_ms: after_ms },
    }
}

fn fresh_run(graph: &PipelineGraph, budget_micros: u64, max_retries: u32) -> PipelineRun {
    let mut run = PipelineRun::new(
        PipelineRunId::new_random(),
        WorkItemId::new(1),
        graph,
        CostBudget::new(budget_micros).unwrap(),
        max_retries,
    );
    run.start();
    run
}

#[test]
fn graph_validation_rejects_backward_edges() {
    let mut g = diamond();
    assert!(g.validate().is_ok());
    g.edges.push(Edge { from: 3, to: 1, guard: EdgeGuard::RequireSuccess });
    match g.validate() {
        Err(e) => assert_eq!(e.class(), ErrorClass::Configuration),
        Ok(()) => panic!("a backward edge must be rejected"),
    }
}

#[test]
fn dispatch_follows_dependency_edges() {
    let g = diamond();
    let mut run = fresh_run(&g, 100_000_000, 0);
    assert_eq!(run.ready_nodes(&g), vec![0]);
    assert!(run.dispatch(&g, 0, 0));
    // While intake is in flight nothing else is ready.
    assert!(run.ready_nodes(&g).is_empty());
    assert_eq!(run.record_outcome(&g, 0, success(1_000_000), 0), RunStep::Continue);
    // The fan-out: both branches become ready concurrently.
    assert_eq!(run.ready_nodes(&g), vec![1, 2]);
    assert!(run.dispatch(&g, 1, 0));
    assert!(run.dispatch(&g, 2, 0));
    // The join waits for both siblings.
    assert_eq!(run.record_outcome(&g, 1, success(1_000_000), 0), RunStep::Continue);
    assert!(run.ready_nodes(&g).is_empty());
    assert_eq!(run.record_outcome(&g, 2, success(1_000_000), 0), RunStep::Continue);
    assert_eq!(run.ready_nodes(&g), vec![3]);
    assert!(run.dispatch(&g, 3, 0));
    assert_eq!(run.record_outcome(&g, 3, success(1_000_000), 0), RunStep::RunCompleted);
    assert_eq!(run.state(), RunState::Completed);
    assert_eq!(run.accumulated().as_micros(), 4_000_000);
}

#[test]
fn parallel_budget_breach_cancels_siblings() {
    // Budget $10.00, two parallel branches charge $6.00 each: exactly one
    // charge succeeds fully, the other reports $12 >= $10 and the run
    // fails with the sibling cancelled.
    let g = diamond();
    let mut run = fresh_run(&g, 10_000_000, 0);
    run.dispatch(&g, 0, 0);
    assert_eq!(run.record_outcome(&g, 0, success(0), 0), RunStep::Continue);
    run.dispatch(&g, 1, 0);
    run.dispatch(&g, 2, 0);
    assert_eq!(run.record_outcome(&g, 1, success(6_000_000), 0), RunStep::Continue);
    match run.record_outcome(&g, 2, success(6_000_000), 0) {
        RunStep::BudgetStopped { error: CogWorksError::BudgetExceeded { accumulated, limit } } => {
            assert_eq!(accumulated.as_micros(), 12_000_000);
            assert_eq!(limit.as_micros(), 10_000_000);
        }
        other => panic!("expected BudgetStopped, got {:?}", other),
    }
    assert_eq!(run.state(), RunState::Failed);
    assert!(run.ready_nodes(&g).is_empty());
}

#[test]
fn budget_is_consulted_before_dispatch() {
    let g = diamond();
    let mut run = fresh_run(&g, 1_000_000, 0);
    run.dispatch(&g, 0, 0);
    // The charge reaches the cap exactly; the run stops.
    match run.record_outcome(&g, 0, success(1_000_000), 0) {
        RunStep::BudgetStopped { .. } => {}
        other => panic!("expected BudgetStopped, got {:?}", other),
    }
    assert!(run.ready_nodes(&g).is_empty());
}

#[test]
fn transient_failure_is_retried_then_escalates() {
    // Retryable { after: 5s } is re-attempted no sooner than 5 seconds
    // later, up to the attempt ceiling, then escalates as terminal.
    let g = diamond();
    let mut run = fresh_run(&g, 100_000_000, 2);
    run.dispatch(&g, 0, 0);
    let step = run.record_outcome(
        &g,
        0,
        failure(100, ErrorClass::Transient, Some(5_000)),
        1_000,
    );
    assert_eq!(step, RunStep::RetryNode { node: 0, not_before_ms: 6_000 });
    // The node is ready again (its failure recorded no outcome).
    assert_eq!(run.ready_nodes(&g), vec![0]);
    run.dispatch(&g, 0, 6_000);
    let step = run.record_outcome(
        &g,
        0,
        failure(100, ErrorClass::Transient, Some(5_000)),
        7_000,
    );
    assert_eq!(step, RunStep::RetryNode { node: 0, not_before_ms: 12_000 });
    run.dispatch(&g, 0, 12_000);
    // The ceiling of 2 re-attempts is exhausted: terminal failure.
    let step = run.record_outcome(
        &g,
        0,
        failure(100, ErrorClass::Transient, Some(5_000)),
        13_000,
    );
    assert_eq!(step, RunStep::Stopped { class: ErrorClass::Transient });
    assert_eq!(run.state(), RunState::Failed);
    // Every attempt's cost was charged.
    assert_eq!(run.accumulated().as_micros(), 300);
}

#[test]
fn retry_bookkeeping_survives_restart() {
    let g = diamond();
    let mut run = fresh_run(&g, 100_000_000, 1);
    run.dispatch(&g, 0, 0);
    let step = run.record_outcome(&g, 0, failure(0, ErrorClass::Transient, None), 0);
    assert_eq!(step, RunStep::RetryNode { node: 0, not_before_ms: 0 });

    // Restart between the failure and the re-attempt.
    let mut resumed = PipelineRun::resume(run.suspend());
    assert_eq!(resumed.state(), RunState::Running);
    resumed.dispatch(&g, 0, 1_000);
    // The one allowed re-attempt was already counted before the restart:
    // this failure escalates instead of retrying for ever.
    let step = resumed.record_outcome(&g, 0, failure(0, ErrorClass::Transient, None), 1_000);
    assert_eq!(step, RunStep::Stopped { class: ErrorClass::Transient });
    assert_eq!(resumed.state(), RunState::Failed);
}

#[test]
fn halt_class_failure_halts_the_run() {
    let g = diamond();
    let mut run = fresh_run(&g, 100_000_000, 3);
    run.dispatch(&g, 0, 0);
    let step = run.record_outcome(&g, 0, failure(50, ErrorClass::Halt, None), 0);
    assert_eq!(step, RunStep::Stopped { class: ErrorClass::Halt });
    assert_eq!(run.state(), RunState::Halted);
}

#[test]
fn content_safety_failure_halts_for_review() {
    let g = diamond();
    let mut run = fresh_run(&g, 100_000_000, 3);
    run.dispatch(&g, 0, 0);
    let step = run.record_outcome(&g, 0, failure(50, ErrorClass::ContentSafety, None), 0);
    assert_eq!(step, RunStep::Stopped { class: ErrorClass::ContentSafety });
    assert_eq!(run.state(), RunState::Halted);
}

#[test]
fn configuration_failure_fails_the_run() {
    let g = diamond();
    let mut run = fresh_run(&g, 100_000_000, 3);
    run.dispatch(&g, 0, 0);
    let step = run.record_outcome(&g, 0, failure(0, ErrorClass::Configuration, None), 0);
    assert_eq!(step, RunStep::Stopped { class: ErrorClass::Configuration });
    assert_eq!(run.state(), RunState::Failed);
}

fn gated() -> PipelineGraph {
    PipelineGraph {
        name: PipelineName::new("gated".to_string()).unwrap(),
        nodes: vec![
            node("draft", NodeKind::Task),
            node("approve", NodeKind::HumanGate),
            node("publish", NodeKind::Task),
        ],
        edges: vec![edge(0, 1), edge(1, 2)],
    }
}

#[test]
fn human_gate_suspends_and_resumes_across_restart() {
    // A run suspended in AwaitingApproval and resumed after a process
    // restart continues from the same state with no duplicated node
    // execution.
    let g = gated();
    let mut run = fresh_run(&g, 100_000_000, 1);
    run.dispatch(&g, 0, 0);
    assert_eq!(run.record_outcome(&g, 0, success(2_000_000), 0), RunStep::Continue);
    assert_eq!(run.ready_nodes(&g), vec![1]);
    assert!(!run.dispatch(&g, 1, 50_000));
    assert_eq!(run.state(), RunState::AwaitingApproval);
    assert_eq!(run.awaiting_gate(), Some(1));

    // Durable suspension, process restart, resume.
    let snapshot = run.suspend();
    assert_eq!(snapshot.state, RunState::AwaitingApproval);
    let mut resumed = PipelineRun::resume(snapshot);
    assert_eq!(resumed.state(), RunState::AwaitingApproval);
    assert_eq!(resumed.awaiting_gate(), Some(1));
    assert_eq!(resumed.accumulated().as_micros(), 2_000_000);
    // The completed node is still recorded: it will never run again.
    assert!(resumed.has_outcome(0));

    assert_eq!(resumed.on_approval(true), RunStep::Continue);
    assert_eq!(resumed.state(), RunState::Running);
    // Only the node after the checkpoint is ready; nothing is re-executed.
    assert_eq!(resumed.ready_nodes(&g), vec![2]);
    resumed.dispatch(&g, 2, 60_000);
    assert_eq!(resumed.record_outcome(&g, 2, success(1_000_000), 60_000), RunStep::RunCompleted);
    assert_eq!(resumed.state(), RunState::Completed);
    // The checkpoint itself was recorded as a free success.
    assert_eq!(resumed.accumulated().as_micros(), 3_000_000);
}

#[test]
fn dispatch_ready_sweeps_concurrent_nodes() {
    let g = diamond();
    let mut run = fresh_run(&g, 100_000_000, 0);
    assert_eq!(run.dispatch_ready(&g, 0), vec![0]);
    // Nothing further is ready while intake runs.
    assert!(run.dispatch_ready(&g, 0).is_empty());
    run.record_outcome(&g, 0, success(0), 0);
    // Both fan-out branches start in one sweep.
    assert_eq!(run.dispatch_ready(&g, 0), vec![1, 2]);
    run.record_outcome(&g, 1, success(0), 0);
    run.record_outcome(&g, 2, success(0), 0);
    assert_eq!(run.dispatch_ready(&g, 0), vec![3]);
    assert_eq!(run.record_outcome(&g, 3, success(0), 0), RunStep::RunCompleted);
}

#[test]
fn dispatch_ready_defers_checkpoint_until_quiescent() {
    let g = gated();
    let mut run = fresh_run(&g, 100_000_000, 0);
    assert_eq!(run.dispatch_ready(&g, 0), vec![0]);
    assert_eq!(run.state(), RunState::Running);
    run.record_outcome(&g, 0, success(0), 0);
    // The next sweep finds only the checkpoint: the run suspends.
    assert!(run.dispatch_ready(&g, 40_000).is_empty());
    assert_eq!(run.state(), RunState::AwaitingApproval);
    assert_eq!(run.awaiting_gate(), Some(1));
}

#[test]
fn rejected_approval_halts() {
    let g = gated();
    let mut run = fresh_run(&g, 100_000_000, 1);
    run.dispatch(&g, 0, 0);
    run.record_outcome(&g, 0, success(0), 0);
    run.dispatch(&g, 1, 0);
    assert_eq!(run.on_approval(false), RunStep::Stopped { class: ErrorClass::Halt });
    assert_eq!(run.state(), RunState::Halted);
}

#[test]
fn abandoned_gate_times_out_as_halt() {
    let g = gated();
    let mut run = fresh_run(&g, 100_000_000, 1);
    run.dispatch(&g, 0, 0);
    run.record_outcome(&g, 0, success(0), 0);
    run.dispatch(&g, 1, 10_000);
    // Before the deadline nothing changes.
    assert_eq!(run.check_gate_timeout(60_000, 100_000), RunStep::Continue);
    assert_eq!(run.state(), RunState::AwaitingApproval);
    // Past the deadline the abandonment is a non-retryable halt.
    assert_eq!(
        run.check_gate_timeout(110_000, 100_000),
        RunStep::Stopped { class: ErrorClass::Halt }
    );
    assert_eq!(run.state(), RunState::Halted);
}

#[test]
fn any_outcome_guard_tolerates_failure() {
    // An edge guarded to accept any terminal outcome lets a successor run
    // after a tolerated (retry-exhausted) failure... but a terminal
    // failure also stops the whole run, so the guard matters for graphs
    // where the executor is driven per-edge.  Here we only check that the
    // guard widens eligibility.
    let g = PipelineGraph {
        name: PipelineName::new("tolerant".to_string()).unwrap(),
        nodes: vec![node("a", NodeKind::Task), node("b", NodeKind::Task)],
        edges: vec![Edge { from: 0, to: 1, guard: EdgeGuard::AnyOutcome }],
    };
    let mut run = fresh_run(&g, 100_000_000, 0);
    run.dispatch(&g, 0, 0);
    assert_eq!(run.record_outcome(&g, 0, success(0), 0), RunStep::Continue);
    assert_eq!(run.ready_nodes(&g), vec![1]);
}
