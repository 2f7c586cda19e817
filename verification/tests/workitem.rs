use cogworks::errors::ErrorClass;
use cogworks::executor::{
    Edge, EdgeGuard, NodeKind, NodeOutcome, NodeSpec, PipelineGraph, RunState, RunStep,
};
use cogworks::identifiers::{NodeId, PipelineName, PipelineRunId, WorkItemId};
use cogworks::values::{CostBudget, TokenCost};
use cogworks::ingest::EventKind;
use cogworks::workitem::{AppliedEvent, EventAction, StartRunError, WorkItem};

fn single_node_graph() -> PipelineGraph {
    PipelineGraph {
        name: PipelineName::new("single".to_string()).unwrap(),
        nodes: vec![NodeSpec { name: NodeId::new("only".to_string()).unwrap(), kind: NodeKind::Task }],
        edges: Vec::new(),
    }
}

fn two_node_graph() -> PipelineGraph {
    PipelineGraph {
        name: PipelineName::new("pair".to_string()).unwrap(),
        nodes: vec![
            NodeSpec { name: NodeId::new("first".to_string()).unwrap(), kind: NodeKind::Task },
            NodeSpec { name: NodeId::new("second".to_string()).unwrap(), kind: NodeKind::Task },
        ],
        edges: vec![Edge { from: 0, to: 1, guard: EdgeGuard::RequireSuccess }],
    }
}

fn budget() -> CostBudget {
    CostBudget::new(10_000_000).unwrap()
}

#[test]
fn at_most_one_active_run_per_work_item() {
    let g = single_node_graph();
    let mut item = WorkItem::new(WorkItemId::new(42));
    item.start_run(PipelineRunId::new_random(), &g, budget(), 1).unwrap();
    // A second run while the first is still active is rejected.
    assert_eq!(
        item.start_run(PipelineRunId::new_random(), &g, budget(), 1),
        Err(StartRunError::AlreadyActive)
    );
    // Drive the current run to completion.
    let mut run = item.take_run().unwrap();
    // Even with the run taken out for driving, no second run can start
    // until a terminal run is put back.
    run.start();
    run.dispatch(&g, 0, 0);
    let step = run.record_outcome(
        &g,
        0,
        NodeOutcome::Success {
            cost: TokenCost::new(3_000_000),
            artifacts: Vec::new(),
            diagnostics: Vec::new(),
        },
        0,
    );
    assert_eq!(step, RunStep::RunCompleted);
    item.put_run(run);
    // Now a new run may start; the old one is superseded, never deleted.
    item.start_run(PipelineRunId::new_random(), &g, budget(), 1).unwrap();
    assert_eq!(item.past_run_count(), 1);
    assert_eq!(item.retired_cost().as_micros(), 3_000_000);
}

#[test]
fn pending_run_also_counts_as_active() {
    let g = two_node_graph();
    let mut item = WorkItem::new(WorkItemId::new(7));
    item.start_run(PipelineRunId::new_random(), &g, budget(), 1).unwrap();
    let run = item.take_run().unwrap();
    assert_eq!(run.state(), RunState::Pending);
    item.put_run(run);
    assert_eq!(
        item.start_run(PipelineRunId::new_random(), &g, budget(), 1),
        Err(StartRunError::AlreadyActive)
    );
}

#[test]
fn events_route_by_classification_and_run_state() {
    let g = two_node_graph();
    let mut item = WorkItem::new(WorkItemId::new(5));
    // A work-item update always asks for a run.
    assert_eq!(item.route_event(EventKind::WorkUpdate), EventAction::StartRun);
    // An approval with nothing suspended is dropped.
    assert_eq!(item.route_event(EventKind::Approval), EventAction::Ignore);
    item.start_run(PipelineRunId::new_random(), &g, budget(), 1).unwrap();
    // Still not suspended: the run is only pending.
    assert_eq!(item.route_event(EventKind::Approval), EventAction::Ignore);
}

#[test]
fn apply_event_composes_routing_and_run_control() {
    let g = PipelineGraph {
        name: PipelineName::new("approval".to_string()).unwrap(),
        nodes: vec![
            NodeSpec { name: NodeId::new("draft".to_string()).unwrap(), kind: NodeKind::Task },
            NodeSpec {
                name: NodeId::new("approve".to_string()).unwrap(),
                kind: NodeKind::HumanGate,
            },
        ],
        edges: vec![Edge { from: 0, to: 1, guard: EdgeGuard::RequireSuccess }],
    };
    let mut item = WorkItem::new(WorkItemId::new(11));
    // An approval with no run at all has no effect.
    let applied = item.apply_event(
        EventKind::Approval,
        true,
        PipelineRunId::new_random(),
        &g,
        budget(),
        1,
    );
    assert_eq!(applied, AppliedEvent::NoEffect);
    // A work-item update starts the run; a second one is refused.
    let applied = item.apply_event(
        EventKind::WorkUpdate,
        true,
        PipelineRunId::new_random(),
        &g,
        budget(),
        1,
    );
    assert_eq!(applied, AppliedEvent::RunStarted);
    let applied = item.apply_event(
        EventKind::WorkUpdate,
        true,
        PipelineRunId::new_random(),
        &g,
        budget(),
        1,
    );
    assert_eq!(applied, AppliedEvent::RunRefused { reason: StartRunError::AlreadyActive });
    // Drive the run to its checkpoint.
    let mut run = item.take_run().unwrap();
    run.start();
    assert_eq!(run.dispatch_ready(&g, 0), vec![0]);
    run.record_outcome(
        &g,
        0,
        NodeOutcome::Success {
            cost: TokenCost::new(1_000),
            artifacts: Vec::new(),
            diagnostics: Vec::new(),
        },
        0,
    );
    run.dispatch_ready(&g, 0);
    assert_eq!(run.state(), RunState::AwaitingApproval);
    item.put_run(run);
    // The approval reaches the suspended run and completes it.
    let applied = item.apply_event(
        EventKind::Approval,
        true,
        PipelineRunId::new_random(),
        &g,
        budget(),
        1,
    );
    assert_eq!(applied, AppliedEvent::ApprovalApplied { step: RunStep::RunCompleted });
    // With the run terminal, a new update may start the next run.
    let applied = item.apply_event(
        EventKind::WorkUpdate,
        true,
        PipelineRunId::new_random(),
        &g,
        budget(),
        1,
    );
    assert_eq!(applied, AppliedEvent::RunStarted);
    assert_eq!(item.past_run_count(), 1);
    assert_eq!(item.retired_cost().as_micros(), 1_000);
}

#[test]
fn content_safety_holds_the_work_item() {
    let mut item = WorkItem::new(WorkItemId::new(9));
    assert!(!item.is_held());
    item.note_step(&RunStep::Continue);
    assert!(!item.is_held());
    item.note_step(&RunStep::Stopped { class: ErrorClass::Transient });
    assert!(!item.is_held());
    item.note_step(&RunStep::Stopped { class: ErrorClass::ContentSafety });
    assert!(item.is_held());
    // A held item takes no new runs until released.
    let g = single_node_graph();
    assert_eq!(
        item.start_run(PipelineRunId::new_random(), &g, budget(), 1),
        Err(StartRunError::Held)
    );
    item.release_hold();
    assert!(!item.is_held());
    item.start_run(PipelineRunId::new_random(), &g, budget(), 1).unwrap();
}
