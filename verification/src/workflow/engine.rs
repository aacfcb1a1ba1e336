//! The decisions of running a workflow, one event at a time: the runner
//! loads the workflow, saves the execution record, runs each step under the
//! workflow's timeout, undoes completed steps after a timeout when the
//! strategy says so, and reports what the run came to. Whoever drives the
//! run performs each action and hands back the event it led to.
use vstd::prelude::*;
use crate::table::Table;
use crate::text::owned;
use crate::workflow::error::WorkflowError;
use crate::workflow::execution::{
    copy_steps, steps_view, ExecutionState, ExecutionStateView, ExecutionStatus, LogView, StepResult, StepResultView,
};
use crate::workflow::schedule::ExecutionResult;
use crate::workflow::templates::texts;

verus! {

/// Where a run stands.
#[derive(Clone, Copy, Debug, PartialEq, Eq, Structural)]
pub enum EnginePhase {
    /// Waiting for the workflow to be loaded.
    Loading,
    /// The first record is being saved.
    Saving,
    /// A step is running.
    Running,
    /// Completed steps are being undone.
    Compensating,
    /// The final record is being saved.
    Closing,
    /// Nothing more happens.
    Done,
}

/// How a step ended.
pub enum StepOutcome {
    /// It finished with this result.
    Done(StepResult),
    /// The step failed with an error.
    Failed(WorkflowError),
    /// It ran past the workflow's timeout; the text is the timeout's message.
    TimedOut(String),
}

/// What happened since the last action.
pub enum EngineEvent {
    /// The workflow was loaded at time `now`; it may be disabled.
    Loaded { enabled: bool, now: i64 },
    /// The record asked for was saved at time `now`.
    Saved { now: i64 },
    /// The step asked for ended at time `now`.
    StepFinished { outcome: StepOutcome, now: i64 },
    /// Undoing completed steps ended at time `now` after `count` were undone.
    CompensationDone { count: usize, now: i64 },
    /// Undoing could not proceed: a completed step's type has no undoing action.
    CompensationFailed(WorkflowError),
}

/// What the runner is to do next.
pub enum EngineAction {
    /// Save this execution record.
    SaveRecord(ExecutionState),
    /// Run the step at this position.
    RunStep(usize),
    /// Undo the completed steps.
    Compensate,
    /// The run is over with this result.
    Finish(ExecutionResult),
    /// The run ends with this error.
    Refuse(WorkflowError),
    /// The event does not fit where the run stands; nothing happens.
    Ignore,
}

/// One run of a workflow.
pub struct EngineRun {
    pub execution_id: String,
    pub workflow_id: String,
    /// The ids of the workflow's steps, in order.
    pub step_ids: Vec<String>,
    /// Whether a failure undoes all completed steps.
    pub compensate_all: bool,
    pub phase: EnginePhase,
    /// The position of the step to run next.
    pub next: usize,
    pub record: ExecutionState,
    /// How many steps were undone.
    pub compensated: usize,
}

/// An error as its kind (in declaration order) and its text.
pub open spec fn error_view(e: WorkflowError) -> (int, Seq<char>) {
    match e {
        WorkflowError::WorkflowNotFound(s) => (0, s@),
        WorkflowError::ExecutionError(s) => (1, s@),
        WorkflowError::CompilationError(s) => (2, s@),
        WorkflowError::WasmError(s) => (3, s@),
    }
}

/// A run as plain values.
#[verifier::ext_equal]
pub ghost struct RunView {
    pub execution_id: Seq<char>,
    pub workflow_id: Seq<char>,
    pub step_ids: Seq<Seq<char>>,
    pub compensate_all: bool,
    pub phase: EnginePhase,
    pub next: nat,
    pub record: ExecutionStateView,
    pub compensated: nat,
}

/// A step's ending as plain values.
pub ghost enum OutcomeView {
    Done(StepResultView),
    Failed((int, Seq<char>)),
    TimedOut(Seq<char>),
}

/// An event as plain values.
pub ghost enum EventView {
    Loaded { enabled: bool, now: i64 },
    Saved { now: i64 },
    StepFinished { outcome: OutcomeView, now: i64 },
    CompensationDone { count: nat, now: i64 },
    CompensationFailed((int, Seq<char>)),
}

/// What a run came to, as plain values.
#[verifier::ext_equal]
pub ghost struct ResultView {
    pub execution_id: Seq<char>,
    pub status: ExecutionStatus,
    pub steps: Map<Seq<char>, StepResultView>,
    pub error: Option<Seq<char>>,
    pub compensated: nat,
}

/// An action as plain values.
pub ghost enum ActionView {
    SaveRecord(ExecutionStateView),
    RunStep(nat),
    Compensate,
    Finish(ResultView),
    Refuse((int, Seq<char>)),
    Ignore,
}

impl View for EngineRun {
    type V = RunView;

    open spec fn view(&self) -> RunView {
        RunView {
            execution_id: self.execution_id@,
            workflow_id: self.workflow_id@,
            step_ids: texts(self.step_ids@),
            compensate_all: self.compensate_all,
            phase: self.phase,
            next: self.next as nat,
            record: self.record@,
            compensated: self.compensated as nat,
        }
    }
}

impl View for StepOutcome {
    type V = OutcomeView;

    open spec fn view(&self) -> OutcomeView {
        match self {
            StepOutcome::Done(r) => OutcomeView::Done(r@),
            StepOutcome::Failed(e) => OutcomeView::Failed(error_view(*e)),
            StepOutcome::TimedOut(m) => OutcomeView::TimedOut(m@),
        }
    }
}

impl View for EngineEvent {
    type V = EventView;

    open spec fn view(&self) -> EventView {
        match self {
            EngineEvent::Loaded { enabled, now } => EventView::Loaded { enabled: *enabled, now: *now },
            EngineEvent::Saved { now } => EventView::Saved { now: *now },
            EngineEvent::StepFinished { outcome, now } => EventView::StepFinished { outcome: outcome@, now: *now },
            EngineEvent::CompensationDone { count, now } => EventView::CompensationDone { count: *count as nat, now: *now },
            EngineEvent::CompensationFailed(e) => EventView::CompensationFailed(error_view(*e)),
        }
    }
}

impl View for EngineAction {
    type V = ActionView;

    open spec fn view(&self) -> ActionView {
        match self {
            EngineAction::SaveRecord(s) => ActionView::SaveRecord(s@),
            EngineAction::RunStep(i) => ActionView::RunStep(*i as nat),
            EngineAction::Compensate => ActionView::Compensate,
            EngineAction::Finish(r) => ActionView::Finish(ResultView {
                execution_id: r.execution_id@,
                status: r.status,
                steps: steps_view(r.step_results@),
                error: match r.error {
                    Some(e) => Some(e@),
                    None => None,
                },
                compensated: r.compensated_steps as nat,
            }),
            EngineAction::Refuse(e) => ActionView::Refuse(error_view(*e)),
            EngineAction::Ignore => ActionView::Ignore,
        }
    }
}

/// The record of a run started at `now`: running, with no steps yet.
pub open spec fn started_record(run: RunView, now: i64) -> ExecutionStateView {
    ExecutionStateView {
        id: run.execution_id,
        workflow_id: run.workflow_id,
        status: ExecutionStatus::Running,
        started_at: now,
        completed_at: None,
        current_step: None,
        steps: Map::empty(),
        logs: Seq::<LogView>::empty(),
        error: None,
    }
}

/// The record ended at `now` with a status.
pub open spec fn closed_record(r: ExecutionStateView, status: ExecutionStatus, now: i64) -> ExecutionStateView {
    ExecutionStateView { status: status, completed_at: Some(now), ..r }
}

/// The failed result recorded for a step that ran past the timeout.
pub open spec fn timed_out_step(step_id: Seq<char>, message: Seq<char>, now: i64) -> StepResultView {
    StepResultView {
        step_id: step_id,
        started_at: now,
        completed_at: Some(now),
        status: ExecutionStatus::Failed,
        output: None,
        error: Some(message),
    }
}

/// What a run came to: its record's status, steps and error, and how many
/// steps were undone.
pub open spec fn result_of(run: RunView) -> ResultView {
    ResultView {
        execution_id: run.execution_id,
        status: run.record.status,
        steps: run.record.steps,
        error: run.record.error,
        compensated: run.compensated,
    }
}

/// The run closing as completed at `now`: the final record is saved.
pub open spec fn complete_at(run: RunView, now: i64) -> (RunView, ActionView) {
    let rec = closed_record(run.record, ExecutionStatus::Completed, now);
    (RunView { phase: EnginePhase::Closing, record: rec, ..run }, ActionView::SaveRecord(rec))
}

/// The run closing as failed at `now` after `count` steps were undone.
pub open spec fn fail_at(run: RunView, count: nat, now: i64) -> (RunView, ActionView) {
    let rec = closed_record(run.record, ExecutionStatus::Failed, now);
    (RunView { phase: EnginePhase::Closing, record: rec, compensated: count, ..run }, ActionView::SaveRecord(rec))
}

/// One decision of the engine:
/// - a disabled workflow is refused with "Workflow is disabled";
/// - an enabled one starts a running record, which is saved first;
/// - after that save the first step runs, or, without steps, the run completes;
/// - a finished step's result is recorded under its id and the next step runs,
///   or, after the last, the run completes;
/// - a failing step ends the run with its error;
/// - a step past the timeout is recorded as failed with the timeout's message,
///   which becomes the run's error; completed steps are then undone when the
///   strategy undoes all, and the run fails, counting the steps undone; a
///   step without an undoing action ends the run with that error;
/// - once the final record is saved the run finishes with its result;
/// - any other event changes nothing.
pub open spec fn spec_engine_step(run: RunView, event: EventView) -> (RunView, ActionView) {
    match (run.phase, event) {
        (EnginePhase::Loading, EventView::Loaded { enabled, now }) => if !enabled {
            (RunView { phase: EnginePhase::Done, ..run }, ActionView::Refuse((1, "Workflow is disabled"@)))
        } else {
            let rec = started_record(run, now);
            (RunView { phase: EnginePhase::Saving, record: rec, ..run }, ActionView::SaveRecord(rec))
        },
        (EnginePhase::Saving, EventView::Saved { now }) => if run.next < run.step_ids.len() {
            (RunView { phase: EnginePhase::Running, ..run }, ActionView::RunStep(run.next))
        } else {
            complete_at(run, now)
        },
        (EnginePhase::Running, EventView::StepFinished { outcome, now }) => if run.next < run.step_ids.len() {
            let id = run.step_ids[run.next as int];
            match outcome {
                OutcomeView::Done(res) => {
                    let r1 = RunView { next: run.next + 1, record: ExecutionStateView { steps: run.record.steps.insert(id, res), ..run.record }, ..run };
                    if r1.next < r1.step_ids.len() {
                        (r1, ActionView::RunStep(r1.next))
                    } else {
                        complete_at(r1, now)
                    }
                },
                OutcomeView::Failed(e) => (RunView { phase: EnginePhase::Done, ..run }, ActionView::Refuse(e)),
                OutcomeView::TimedOut(m) => {
                    let r1 = RunView {
                        record: ExecutionStateView {
                            steps: run.record.steps.insert(id, timed_out_step(id, m, now)),
                            error: Some(m),
                            ..run.record
                        },
                        ..run
                    };
                    if run.compensate_all {
                        (RunView { phase: EnginePhase::Compensating, ..r1 }, ActionView::Compensate)
                    } else {
                        fail_at(r1, 0, now)
                    }
                },
            }
        } else {
            (run, ActionView::Ignore)
        },
        (EnginePhase::Compensating, EventView::CompensationDone { count, now }) => fail_at(run, count, now),
        (EnginePhase::Compensating, EventView::CompensationFailed(e)) => (RunView { phase: EnginePhase::Done, ..run }, ActionView::Refuse(e)),
        (EnginePhase::Closing, EventView::Saved { .. }) => (RunView { phase: EnginePhase::Done, ..run }, ActionView::Finish(result_of(run))),
        _ => (run, ActionView::Ignore),
    }
}

fn copy_texts(v: &Vec<String>) -> (r: Vec<String>)
    ensures
        texts(r@) == texts(v@),
{
    let mut r: Vec<String> = Vec::new();
    let mut i: usize = 0;
    while i < v.len()
        invariant
            i <= v@.len(),
            texts(r@) == texts(v@.subrange(0, i as int)),
        decreases v@.len() - i,
    {
        let ghost prev = r@;
        r.push(owned(v[i].as_str()));
        assert(texts(r@) =~= texts(prev).push(v@[i as int]@));
        assert(texts(v@.subrange(0, i + 1)) =~= texts(v@.subrange(0, i as int)).push(v@[i as int]@));
        i = i + 1;
    }
    assert(v@.subrange(0, i as int) =~= v@);
    r
}

impl EngineRun {
    /// A run of a workflow's steps, waiting for the workflow to be loaded.
    pub fn new(execution_id: &str, workflow_id: &str, step_ids: Vec<String>, compensate_all: bool) -> (r: Self)
        ensures
            r@.execution_id == execution_id@,
            r@.workflow_id == workflow_id@,
            r@.step_ids == texts(step_ids@),
            r@.compensate_all == compensate_all,
            r@.phase == EnginePhase::Loading,
            r@.next == 0,
            r@.compensated == 0,
    {
        EngineRun {
            execution_id: owned(execution_id),
            workflow_id: owned(workflow_id),
            step_ids,
            compensate_all,
            phase: EnginePhase::Loading,
            next: 0,
            record: ExecutionState::new(execution_id, workflow_id),
            compensated: 0,
        }
    }

    /// A copy of the run.
    pub fn duplicate(&self) -> (r: Self)
        ensures
            r@ == self@,
    {
        EngineRun {
            execution_id: owned(self.execution_id.as_str()),
            workflow_id: owned(self.workflow_id.as_str()),
            step_ids: copy_texts(&self.step_ids),
            compensate_all: self.compensate_all,
            phase: self.phase,
            next: self.next,
            record: self.record.duplicate(),
            compensated: self.compensated,
        }
    }
}

fn closed(rec: &ExecutionState, status: ExecutionStatus, now: i64) -> (r: ExecutionState)
    ensures
        r@ == closed_record(rec@, status, now),
{
    let mut r = rec.duplicate();
    r.status = status;
    r.completed_at = Some(now);
    r
}

fn complete_run(run: EngineRun, now: i64) -> (r: (EngineRun, EngineAction))
    ensures
        (r.0@, r.1@) == complete_at(run@, now),
{
    let rec = closed(&run.record, ExecutionStatus::Completed, now);
    let saved = rec.duplicate();
    let next = EngineRun { phase: EnginePhase::Closing, record: rec, ..run };
    (next, EngineAction::SaveRecord(saved))
}

fn fail_run(run: EngineRun, count: usize, now: i64) -> (r: (EngineRun, EngineAction))
    ensures
        (r.0@, r.1@) == fail_at(run@, count as nat, now),
{
    let rec = closed(&run.record, ExecutionStatus::Failed, now);
    let saved = rec.duplicate();
    let next = EngineRun { phase: EnginePhase::Closing, record: rec, compensated: count, ..run };
    (next, EngineAction::SaveRecord(saved))
}

/// Takes one decision of a run: the run after the event and the action to
/// perform.
pub fn engine_step(run: &EngineRun, event: EngineEvent) -> (r: (EngineRun, EngineAction))
    ensures
        (r.0@, r.1@) == spec_engine_step(run@, event@),
{
    let cur = run.duplicate();
    match (run.phase, event) {
        (EnginePhase::Loading, EngineEvent::Loaded { enabled, now }) => {
            if !enabled {
                (EngineRun { phase: EnginePhase::Done, ..cur }, EngineAction::Refuse(WorkflowError::ExecutionError(owned("Workflow is disabled"))))
            } else {
                let mut rec = ExecutionState::new(run.execution_id.as_str(), run.workflow_id.as_str());
                rec.started_at = now;
                assert(rec@.steps =~= Map::empty());
                let saved = rec.duplicate();
                (EngineRun { phase: EnginePhase::Saving, record: rec, ..cur }, EngineAction::SaveRecord(saved))
            }
        },
        (EnginePhase::Saving, EngineEvent::Saved { now }) => {
            if run.next < run.step_ids.len() {
                (EngineRun { phase: EnginePhase::Running, ..cur }, EngineAction::RunStep(run.next))
            } else {
                complete_run(cur, now)
            }
        },
        (EnginePhase::Running, EngineEvent::StepFinished { outcome, now }) => {
            if run.next < run.step_ids.len() {
                let id = owned(run.step_ids[run.next].as_str());
                assert(id@ == run@.step_ids[run.next as int]);
                match outcome {
                    StepOutcome::Done(res) => {
                        let mut rec = run.record.duplicate();
                        rec.step_results.insert(id, res);
                        assert(steps_view(rec.step_results@) =~= run@.record.steps.insert(run@.step_ids[run.next as int], res@));
                        let r1 = EngineRun { next: run.next + 1, record: rec, ..cur };
                        if r1.next < r1.step_ids.len() {
                            let k = r1.next;
                            (r1, EngineAction::RunStep(k))
                        } else {
                            complete_run(r1, now)
                        }
                    },
                    StepOutcome::Failed(e) => (EngineRun { phase: EnginePhase::Done, ..cur }, EngineAction::Refuse(e)),
                    StepOutcome::TimedOut(m) => {
                        let failed = StepResult {
                            step_id: owned(id.as_str()),
                            started_at: now,
                            completed_at: Some(now),
                            status: ExecutionStatus::Failed,
                            output: None,
                            error: Some(owned(m.as_str())),
                        };
                        let mut rec = run.record.duplicate();
                        rec.step_results.insert(id, failed);
                        rec.error = Some(m);
                        assert(steps_view(rec.step_results@) =~= run@.record.steps.insert(run@.step_ids[run.next as int],
                            timed_out_step(run@.step_ids[run.next as int], rec@.error->0, now)));
                        let r1 = EngineRun { record: rec, ..cur };
                        if run.compensate_all {
                            (EngineRun { phase: EnginePhase::Compensating, ..r1 }, EngineAction::Compensate)
                        } else {
                            fail_run(r1, 0, now)
                        }
                    },
                }
            } else {
                (cur, EngineAction::Ignore)
            }
        },
        (EnginePhase::Compensating, EngineEvent::CompensationDone { count, now }) => fail_run(cur, count, now),
        (EnginePhase::Compensating, EngineEvent::CompensationFailed(e)) => (EngineRun { phase: EnginePhase::Done, ..cur }, EngineAction::Refuse(e)),
        (EnginePhase::Closing, EngineEvent::Saved { now }) => {
            let result = ExecutionResult {
                execution_id: owned(run.execution_id.as_str()),
                status: run.record.status,
                step_results: copy_steps(&run.record.step_results),
                error: crate::workflow::execution::copy_opt(&run.record.error),
                compensated_steps: run.compensated,
            };
            (EngineRun { phase: EnginePhase::Done, ..cur }, EngineAction::Finish(result))
        },
        (_, _) => (cur, EngineAction::Ignore),
    }
}

} // verus!
