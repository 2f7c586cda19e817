//! Work items: the external units of work tracked end-to-end.
//!
//! A work item is created on the first event for its identity and never
//! deleted; its runs are only superseded.  At most one run exists per work
//! item at a time, and a new run may start only once the previous one has
//! reached a terminal state — the invariant behind the guarantee that at
//! most one run per work item is ever underway.

use vstd::prelude::*;

use crate::cost::spec_saturating_add;
use crate::executor::{PipelineGraph, PipelineRun, RunSnapshot, RunStep, RunState};
use crate::errors::ErrorClass;
use crate::identifiers::{PipelineRunId, WorkItemId};
use crate::ingest::EventKind;
use crate::values::{CostBudget, TokenCost};

verus! {

/// Why a new run was refused.
#[derive(Debug, Clone, Copy, PartialEq, Eq, Structural)]
pub enum StartRunError {
    /// The work item already has a run that has not reached a terminal
    /// state.
    AlreadyActive,
    /// The work item is held for human review after a content-safety
    /// finding; it takes no new runs until released.
    Held,
}

/// One tracked unit of work: its identity, its current run if any, every
/// superseded run, and its accumulated cost across superseded runs.
pub struct WorkItem {
    id: WorkItemId,
    current: Option<PipelineRun>,
    lent: bool,
    past_runs: Vec<RunSnapshot>,
    held: bool,
    retired_cost: TokenCost,
}

impl WorkItem {
    /// The work item's identity.
    pub closed spec fn spec_id(self) -> WorkItemId {
        self.id
    }

    /// The current run, if one exists (it may be terminal).
    pub closed spec fn spec_current(self) -> Option<PipelineRun> {
        self.current
    }

    /// Every superseded run, oldest first.
    pub closed spec fn spec_past_runs(self) -> Seq<RunSnapshot> {
        self.past_runs@
    }

    /// Whether the item is held for human review.
    pub closed spec fn spec_held(self) -> bool {
        self.held
    }

    /// Whether the current run is lent out to the controller.
    pub closed spec fn spec_lent(self) -> bool {
        self.lent
    }

    /// The cost accumulated by superseded runs.
    pub closed spec fn spec_retired_cost(self) -> TokenCost {
        self.retired_cost
    }

    /// Whether the current run has not reached a terminal state.
    pub open spec fn spec_run_active(self) -> bool {
        self.spec_current() matches Some(r) && !r.spec_state().spec_terminal()
    }

    /// Well-formedness: the current run, if any, is sound and belongs to
    /// this work item; every superseded run is sound, belongs to this
    /// work item, and is terminal.
    pub open spec fn wf(self) -> bool {
        &&& (self.spec_lent() ==> self.spec_current() is None)
        &&& (self.spec_current() matches Some(r) ==> r.wf() && r.spec_work_item()
            == self.spec_id())
        &&& (forall|i: int|
            0 <= i < self.spec_past_runs().len() ==> {
                let s = #[trigger] self.spec_past_runs()[i];
                &&& s.wf()
                &&& s.work_item == self.spec_id()
                &&& s.state.spec_terminal()
            })
    }

    /// Creates the work item on the first event for its identity.
    pub fn new(id: WorkItemId) -> (r: Self)
        ensures
            r.wf(),
            r.spec_id() == id,
            r.spec_current() is None,
            !r.spec_lent(),
            r.spec_past_runs() =~= Seq::<RunSnapshot>::empty(),
            !r.spec_held(),
            r.spec_retired_cost().spec_micros() == 0,
    {
        WorkItem {
            id,
            current: None,
            lent: false,
            past_runs: Vec::new(),
            held: false,
            retired_cost: TokenCost::zero(),
        }
    }

    /// Starts a new run for this work item.
    ///
    /// Rejected while the item is held or while a run is still active: a
    /// work item has at most one run underway.  Otherwise the previous
    /// terminal run, if any, is superseded — its snapshot is retained and
    /// its cost retired — and a fresh `Pending` run is created.
    pub fn start_run(
        &mut self,
        run_id: PipelineRunId,
        graph: &PipelineGraph,
        budget: CostBudget,
        max_retries: u32,
    ) -> (r: Result<(), StartRunError>)
        requires
            old(self).wf(),
            graph.wf(),
            budget.wf(),
        ensures
            final(self).wf(),
            final(self).spec_id() == old(self).spec_id(),
            old(self).spec_held() ==> r == Err::<(), StartRunError>(StartRunError::Held) && *final(self) == *old(self),
            !old(self).spec_held() && (old(self).spec_lent() || old(self).spec_run_active()) ==> r
                == Err::<(), StartRunError>(StartRunError::AlreadyActive) && *final(self) == *old(
                self,
            ),
            !old(self).spec_held() && !old(self).spec_lent() && !old(self).spec_run_active() ==> {
                &&& r is Ok
                &&& (final(self).spec_current() matches Some(run) && run.wf()
                    && run.spec_run_id() == run_id && run.spec_work_item() == old(self).spec_id()
                    && run.spec_state() == RunState::Pending
                    && run.spec_ledger().spec_limit() == budget
                    && run.spec_ledger().spec_accumulated().spec_micros() == 0
                    && run.spec_matches_graph(*graph))
                &&& (old(self).spec_current() matches Some(prev) ==> {
                    &&& final(self).spec_past_runs().len() == old(self).spec_past_runs().len() + 1
                    &&& final(self).spec_past_runs().last().state == prev.spec_state()
                    &&& final(self).spec_retired_cost().spec_micros() == spec_saturating_add(
                        old(self).spec_retired_cost().spec_micros(),
                        prev.spec_ledger().spec_accumulated().spec_micros(),
                    )
                })
                &&& (old(self).spec_current() is None ==> final(self).spec_past_runs() == old(self).spec_past_runs() && final(self).spec_retired_cost() == old(self).spec_retired_cost())
            },
    {
        if self.held {
            return Err(StartRunError::Held);
        }
        if self.lent {
            return Err(StartRunError::AlreadyActive);
        }
        let active = match &self.current {
            Some(run) => !run.state().is_terminal(),
            None => false,
        };
        if active {
            return Err(StartRunError::AlreadyActive);
        }
        let prev = self.current.take();
        match prev {
            Some(run) => {
                let spent = run.accumulated();
                let snapshot = run.suspend();
                self.past_runs.push(snapshot);
                self.retired_cost = match self.retired_cost.checked_add(spent) {
                    Some(total) => total,
                    None => TokenCost::new(u64::MAX),
                };
            },
            None => {},
        }
        self.current = Some(PipelineRun::new(run_id, self.id, graph, budget, max_retries));
        Ok(())
    }

    /// Takes the current run out for the controller to drive.
    ///
    /// The controller is the run's single logical owner; it takes the run,
    /// applies messages to it, and gives it back.
    pub fn take_run(&mut self) -> (r: Option<PipelineRun>)
        requires
            old(self).wf(),
        ensures
            final(self).wf(),
            r == old(self).spec_current(),
            final(self).spec_current() is None,
            final(self).spec_lent() == (old(self).spec_current() is Some),
            final(self).spec_id() == old(self).spec_id(),
            final(self).spec_past_runs() == old(self).spec_past_runs(),
            final(self).spec_held() == old(self).spec_held(),
            final(self).spec_retired_cost() == old(self).spec_retired_cost(),
    {
        let r = self.current.take();
        self.lent = r.is_some();
        r
    }

    /// Gives the current run back after the controller drove it.
    pub fn put_run(&mut self, run: PipelineRun)
        requires
            old(self).wf(),
            old(self).spec_current() is None,
            run.wf(),
            run.spec_work_item() == old(self).spec_id(),
        ensures
            final(self).wf(),
            final(self).spec_current() == Some(run),
            !final(self).spec_lent(),
            final(self).spec_id() == old(self).spec_id(),
            final(self).spec_past_runs() == old(self).spec_past_runs(),
            final(self).spec_held() == old(self).spec_held(),
            final(self).spec_retired_cost() == old(self).spec_retired_cost(),
    {
        self.lent = false;
        self.current = Some(run);
    }

    /// Applies the cross-cutting consequence of one run step to the work
    /// item: a run stopped by a content-safety failure places the work
    /// item in the held state, pending human review, rather than failing
    /// it outright.
    pub fn note_step(&mut self, step: &RunStep)
        requires
            old(self).wf(),
        ensures
            final(self).wf(),
            final(self).spec_held() == (old(self).spec_held() || *step == (RunStep::Stopped {
                class: ErrorClass::ContentSafety,
            })),
            final(self).spec_id() == old(self).spec_id(),
            final(self).spec_current() == old(self).spec_current(),
            final(self).spec_lent() == old(self).spec_lent(),
            final(self).spec_past_runs() == old(self).spec_past_runs(),
            final(self).spec_retired_cost() == old(self).spec_retired_cost(),
    {
        match step {
            RunStep::Stopped { class: ErrorClass::ContentSafety } => {
                self.held = true;
            },
            _ => {},
        }
    }

    /// Releases a held work item after human review.
    pub fn release_hold(&mut self)
        requires
            old(self).wf(),
        ensures
            final(self).wf(),
            !final(self).spec_held(),
            final(self).spec_id() == old(self).spec_id(),
            final(self).spec_current() == old(self).spec_current(),
            final(self).spec_lent() == old(self).spec_lent(),
            final(self).spec_past_runs() == old(self).spec_past_runs(),
            final(self).spec_retired_cost() == old(self).spec_retired_cost(),
    {
        self.held = false;
    }

    /// Returns the work item's identity.
    pub fn id(&self) -> (r: WorkItemId)
        ensures
            r == self.spec_id(),
    {
        self.id
    }

    /// Returns whether the item is held for human review.
    pub fn is_held(&self) -> (r: bool)
        ensures
            r == self.spec_held(),
    {
        self.held
    }

    /// Returns how many superseded runs are retained.
    pub fn past_run_count(&self) -> (r: usize)
        ensures
            r == self.spec_past_runs().len(),
    {
        self.past_runs.len()
    }

    /// Returns the cost accumulated by superseded runs.
    pub fn retired_cost(&self) -> (r: TokenCost)
        ensures
            r == self.spec_retired_cost(),
    {
        self.retired_cost
    }
}

/// What the executor does with one delivered event for a work item.
#[derive(Debug, Clone, Copy, PartialEq, Eq, Structural)]
pub enum EventAction {
    /// Start (or attempt to start) a new run.
    StartRun,
    /// Deliver the approval signal into the suspended run.
    DeliverApproval,
    /// Nothing to apply it to; the event is dropped.
    Ignore,
}

impl WorkItem {
    /// Routes one delivered event: a work-item update asks for a run, an
    /// approval is delivered only into a run that is actually suspended at
    /// a checkpoint, and is dropped otherwise.
    pub fn route_event(&self, kind: EventKind) -> (r: EventAction)
        ensures
            kind is WorkUpdate ==> r == EventAction::StartRun,
            kind is Approval && (self.spec_current() matches Some(run) && run.spec_state()
                is AwaitingApproval) ==> r == EventAction::DeliverApproval,
            kind is Approval && !(self.spec_current() matches Some(run) && run.spec_state()
                is AwaitingApproval) ==> r == EventAction::Ignore,
    {
        match kind {
            EventKind::WorkUpdate => EventAction::StartRun,
            EventKind::Approval => {
                let suspended = match &self.current {
                    Some(run) => matches!(run.state(), RunState::AwaitingApproval),
                    None => false,
                };
                if suspended {
                    EventAction::DeliverApproval
                } else {
                    EventAction::Ignore
                }
            },
        }
    }
}

/// The effect one delivered event had on a work item.
#[derive(Debug, Clone, PartialEq)]
pub enum AppliedEvent {
    /// A new run was created, in `Pending` state.
    RunStarted,
    /// A new run was refused; the work item is unchanged.
    RunRefused {
        /// Why it was refused.
        reason: StartRunError,
    },
    /// The approval was delivered into the suspended run.
    ApprovalApplied {
        /// What the run did with it.
        step: RunStep,
    },
    /// Nothing was awaiting this event; the work item is unchanged.
    NoEffect,
}

impl WorkItem {
    /// Applies one delivered, deduplicated event to this work item: the
    /// composition of routing, run creation and approval delivery.
    ///
    /// A work-item update starts a run where one may start; an approval
    /// reaches only a run that is actually suspended at a checkpoint, and
    /// every other event leaves the work item untouched.
    pub fn apply_event(
        &mut self,
        kind: EventKind,
        approved: bool,
        run_id: PipelineRunId,
        graph: &PipelineGraph,
        budget: CostBudget,
        max_retries: u32,
    ) -> (r: AppliedEvent)
        requires
            old(self).wf(),
            graph.wf(),
            budget.wf(),
        ensures
            final(self).wf(),
            final(self).spec_id() == old(self).spec_id(),
            kind is WorkUpdate ==> {
                &&& (r == AppliedEvent::RunStarted <==> !old(self).spec_held() && !old(
                    self,
                ).spec_lent() && !old(self).spec_run_active())
                &&& (old(self).spec_held() ==> r == (AppliedEvent::RunRefused {
                    reason: StartRunError::Held,
                }) && *final(self) == *old(self))
                &&& (!old(self).spec_held() && (old(self).spec_lent() || old(
                    self,
                ).spec_run_active()) ==> r == (AppliedEvent::RunRefused {
                    reason: StartRunError::AlreadyActive,
                }) && *final(self) == *old(self))
                &&& (r == AppliedEvent::RunStarted ==> (final(self).spec_current() matches Some(
                    run,
                ) && run.spec_state() == RunState::Pending && run.spec_run_id() == run_id
                    && run.spec_work_item() == old(self).spec_id()
                    && run.spec_ledger().spec_limit() == budget && run.spec_matches_graph(
                    *graph,
                )))
            },
            kind is Approval && old(self).spec_current() is None ==> r == AppliedEvent::NoEffect
                && *final(self) == *old(self),
            kind is Approval ==> (old(self).spec_current() matches Some(run0) ==> {
                &&& (!(run0.spec_state() is AwaitingApproval) ==> r == AppliedEvent::NoEffect
                    && *final(self) == *old(self))
                &&& (run0.spec_state() is AwaitingApproval ==> {
                    &&& final(self).spec_past_runs() == old(self).spec_past_runs()
                    &&& final(self).spec_held() == old(self).spec_held()
                    &&& final(self).spec_retired_cost() == old(self).spec_retired_cost()
                    &&& (r matches AppliedEvent::ApprovalApplied { .. })
                    &&& (r matches AppliedEvent::ApprovalApplied { .. }
                        ==> (final(self).spec_current() matches Some(run2) && run2.spec_ledger()
                        == run0.spec_ledger() && run2.spec_outcomes().len()
                        == run0.spec_outcomes().len() && ((!approved ==> run2.spec_state()
                        is Halted) && (approved ==> run2.spec_state() is Completed
                        || run2.spec_state() is Running))))
                })
            }),
    {
        match self.route_event(kind) {
            EventAction::StartRun => match self.start_run(run_id, graph, budget, max_retries) {
                Ok(()) => AppliedEvent::RunStarted,
                Err(reason) => AppliedEvent::RunRefused { reason },
            },
            EventAction::DeliverApproval => {
                let run_opt = self.take_run();
                match run_opt {
                    Some(mut run) => {
                        let step = run.on_approval(approved);
                        self.put_run(run);
                        self.note_step(&step);
                        AppliedEvent::ApprovalApplied { step }
                    },
                    None => {
                        proof {
                            assert(false);
                        }
                        AppliedEvent::NoEffect
                    },
                }
            },
            EventAction::Ignore => AppliedEvent::NoEffect,
        }
    }
}

/// For all work items, at most one run is `Running` or `AwaitingApproval`
/// at any time: every superseded run a work item retains is terminal, so
/// the only run that can be underway is the single current one.
pub proof fn lemma_single_active_run(w: WorkItem, i: int)
    requires
        w.wf(),
        0 <= i < w.spec_past_runs().len(),
    ensures
        !w.spec_past_runs()[i].state.spec_active(),
{
    assert(w.spec_past_runs()[i].state.spec_terminal());
}

} // verus!
