//! Executions of workflows: their state, records and logs, and the tracker
//! that bounds how many run at once, moves finished ones to the history and
//! answers queries about them.
use vstd::prelude::*;
use crate::clock::now_timestamp;
use crate::sort::{is_stable_order, stable_order};
use crate::table::Table;
use crate::text::cat3;
use crate::workflow::error::WorkflowError;

verus! {

/// Status of an execution or of one of its steps.
#[derive(Clone, Copy, Debug, PartialEq, Eq, Structural)]
pub enum ExecutionStatus {
    Running,
    Completed,
    Failed,
    Cancelled,
}

/// The characters of an optional text.
pub open spec fn opt_text(o: Option<String>) -> Option<Seq<char>> {
    match o {
        Some(s) => Some(s@),
        None => None,
    }
}

pub(crate) fn copy_opt(o: &Option<String>) -> (r: Option<String>)
    ensures
        opt_text(r) == opt_text(*o),
{
    match o {
        Some(s) => Some(s.clone()),
        None => None,
    }
}

/// The result of one step; its output is held as JSON text.
pub struct StepResult {
    pub step_id: String,
    pub started_at: i64,
    pub completed_at: Option<i64>,
    pub status: ExecutionStatus,
    pub output: Option<String>,
    pub error: Option<String>,
}

/// A step result as plain values.
pub ghost struct StepResultView {
    pub step_id: Seq<char>,
    pub started_at: i64,
    pub completed_at: Option<i64>,
    pub status: ExecutionStatus,
    pub output: Option<Seq<char>>,
    pub error: Option<Seq<char>>,
}

impl View for StepResult {
    type V = StepResultView;

    open spec fn view(&self) -> StepResultView {
        StepResultView {
            step_id: self.step_id@,
            started_at: self.started_at,
            completed_at: self.completed_at,
            status: self.status,
            output: opt_text(self.output),
            error: opt_text(self.error),
        }
    }
}

impl StepResult {
    /// A copy with the same content.
    pub fn duplicate(&self) -> (r: Self)
        ensures
            r@ == self@,
    {
        StepResult {
            step_id: self.step_id.clone(),
            started_at: self.started_at,
            completed_at: self.completed_at,
            status: self.status,
            output: copy_opt(&self.output),
            error: copy_opt(&self.error),
        }
    }
}

/// One line of an execution's log.
pub struct ExecutionLog {
    pub timestamp: i64,
    pub level: String,
    pub message: String,
}

/// A log line as plain values.
pub ghost struct LogView {
    pub timestamp: i64,
    pub level: Seq<char>,
    pub message: Seq<char>,
}

impl View for ExecutionLog {
    type V = LogView;

    open spec fn view(&self) -> LogView {
        LogView { timestamp: self.timestamp, level: self.level@, message: self.message@ }
    }
}

/// The views of a list of log lines.
pub open spec fn logs_view(v: Seq<ExecutionLog>) -> Seq<LogView> {
    v.map_values(|l: ExecutionLog| l@)
}

/// The views of the step results of a table.
pub open spec fn steps_view(t: Map<Seq<char>, StepResult>) -> Map<Seq<char>, StepResultView> {
    t.map_values(|r: StepResult| r@)
}

/// The state of one run of a workflow.
pub struct ExecutionState {
    pub id: String,
    pub workflow_id: String,
    pub status: ExecutionStatus,
    pub started_at: i64,
    pub completed_at: Option<i64>,
    pub current_step: Option<String>,
    pub step_results: Table<StepResult>,
    pub logs: Vec<ExecutionLog>,
    pub error: Option<String>,
}

/// An execution state as plain values.
#[verifier::ext_equal]
pub ghost struct ExecutionStateView {
    pub id: Seq<char>,
    pub workflow_id: Seq<char>,
    pub status: ExecutionStatus,
    pub started_at: i64,
    pub completed_at: Option<i64>,
    pub current_step: Option<Seq<char>>,
    pub steps: Map<Seq<char>, StepResultView>,
    pub logs: Seq<LogView>,
    pub error: Option<Seq<char>>,
}

impl View for ExecutionState {
    type V = ExecutionStateView;

    open spec fn view(&self) -> ExecutionStateView {
        ExecutionStateView {
            id: self.id@,
            workflow_id: self.workflow_id@,
            status: self.status,
            started_at: self.started_at,
            completed_at: self.completed_at,
            current_step: opt_text(self.current_step),
            steps: steps_view(self.step_results@),
            logs: logs_view(self.logs@),
            error: opt_text(self.error),
        }
    }
}

/// Whether an execution has reached an end state.
pub open spec fn finished(s: ExecutionStatus) -> bool {
    s == ExecutionStatus::Completed || s == ExecutionStatus::Failed || s == ExecutionStatus::Cancelled
}

/// A freshly started execution of `workflow_id`.
pub open spec fn fresh_state(v: ExecutionStateView, id: Seq<char>, workflow_id: Seq<char>) -> bool {
    &&& v.id == id
    &&& v.workflow_id == workflow_id
    &&& v.status == ExecutionStatus::Running
    &&& v.completed_at is None
    &&& v.current_step is None
    &&& v.steps == Map::<Seq<char>, StepResultView>::empty()
    &&& v.logs.len() == 0
    &&& v.error is None
}

/// The state after ending with `status`: only status and end time change.
pub open spec fn ended(old_v: ExecutionStateView, new_v: ExecutionStateView, status: ExecutionStatus) -> bool {
    &&& new_v.status == status
    &&& new_v.completed_at is Some
    &&& new_v.id == old_v.id
    &&& new_v.workflow_id == old_v.workflow_id
    &&& new_v.started_at == old_v.started_at
    &&& new_v.current_step == old_v.current_step
    &&& new_v.steps == old_v.steps
    &&& new_v.logs == old_v.logs
}

fn copy_logs(v: &Vec<ExecutionLog>) -> (r: Vec<ExecutionLog>)
    ensures
        logs_view(r@) == logs_view(v@),
{
    let mut r: Vec<ExecutionLog> = Vec::new();
    let mut i: usize = 0;
    while i < v.len()
        invariant
            i <= v@.len(),
            logs_view(r@) == logs_view(v@.subrange(0, i as int)),
        decreases v@.len() - i,
    {
        let ghost prev = r@;
        r.push(ExecutionLog { timestamp: v[i].timestamp, level: v[i].level.clone(), message: v[i].message.clone() });
        assert(logs_view(r@) =~= logs_view(prev).push(v@[i as int]@));
        assert(logs_view(v@.subrange(0, i + 1)) =~= logs_view(v@.subrange(0, i as int)).push(v@[i as int]@));
        i = i + 1;
    }
    assert(v@.subrange(0, i as int) =~= v@);
    r
}

pub(crate) fn copy_steps(t: &Table<StepResult>) -> (r: Table<StepResult>)
    ensures
        steps_view(r@) == steps_view(t@),
{
    let mut r: Table<StepResult> = Table::new();
    let mut i: usize = 0;
    let n = t.len();
    while i < n
        invariant
            n == t.items().len(),
            i <= n,
            forall|k: Seq<char>| #[trigger] r@.dom().contains(k) <==> exists|j: int| 0 <= j < i && t.items()[j].0 == k,
            forall|k: Seq<char>| r@.dom().contains(k) ==> t@.dom().contains(k) && #[trigger] r@[k]@ == t@[k]@,
        decreases n - i,
    {
        let k = t.key_at(i);
        let v = t.value_at(i);
        r.insert(k.clone(), v.duplicate());
        i = i + 1;
    }
    proof {
        assert forall|k: Seq<char>| t@.dom().contains(k) implies r@.dom().contains(k) by {
            let j = choose|j: int| 0 <= j < t.items().len() && #[trigger] t.items()[j].0 == k;
            assert(t.items()[j].0 == k);
        }
    }
    assert(steps_view(r@) =~= steps_view(t@));
    r
}

impl ExecutionState {
    /// A running execution started now.
    pub fn new(execution_id: &str, workflow_id: &str) -> (s: Self)
        ensures
            fresh_state(s@, execution_id@, workflow_id@),
    {
        let s = ExecutionState {
            id: String::from_str(execution_id),
            workflow_id: String::from_str(workflow_id),
            status: ExecutionStatus::Running,
            started_at: now_timestamp(),
            completed_at: None,
            current_step: None,
            step_results: Table::new(),
            logs: Vec::new(),
            error: None,
        };
        assert(s@.steps =~= Map::<Seq<char>, StepResultView>::empty());
        assert(s@.logs =~= Seq::<LogView>::empty());
        s
    }

    /// A copy with the same content.
    pub fn duplicate(&self) -> (s: Self)
        ensures
            s@ == self@,
    {
        ExecutionState {
            id: self.id.clone(),
            workflow_id: self.workflow_id.clone(),
            status: self.status,
            started_at: self.started_at,
            completed_at: self.completed_at,
            current_step: copy_opt(&self.current_step),
            step_results: copy_steps(&self.step_results),
            logs: copy_logs(&self.logs),
            error: copy_opt(&self.error),
        }
    }

    /// Appends a log line stamped with the current time.
    pub fn log(&mut self, level: &str, message: &str)
        ensures
            final(self)@.logs.len() == old(self)@.logs.len() + 1,
            final(self)@.logs.subrange(0, old(self)@.logs.len() as int) == old(self)@.logs,
            final(self)@.logs.last().level == level@,
            final(self)@.logs.last().message == message@,
            final(self)@ == (ExecutionStateView { logs: final(self)@.logs, ..old(self)@ }),
    {
        let line = ExecutionLog { timestamp: now_timestamp(), level: String::from_str(level), message: String::from_str(message) };
        self.logs.push(line);
        assert(final(self)@.logs.subrange(0, old(self)@.logs.len() as int) =~= old(self)@.logs);
    }

    /// Records the result of a step, which becomes the current step.
    pub fn record_step(&mut self, step_id: String, result: StepResult)
        ensures
            final(self)@ == (ExecutionStateView {
                current_step: Some(step_id@),
                steps: old(self)@.steps.insert(step_id@, result@),
                ..old(self)@
            }),
    {
        self.current_step = Some(step_id.clone());
        self.step_results.insert(step_id, result);
        assert(steps_view(self.step_results@) =~= old(self)@.steps.insert(step_id@, result@));
    }

    /// Marks the execution completed now.
    pub fn complete(&mut self)
        ensures
            ended(old(self)@, final(self)@, ExecutionStatus::Completed),
            final(self)@.error == old(self)@.error,
    {
        self.status = ExecutionStatus::Completed;
        self.completed_at = Some(now_timestamp());
    }

    /// Marks the execution failed now with the given error.
    pub fn fail(&mut self, error: &str)
        ensures
            ended(old(self)@, final(self)@, ExecutionStatus::Failed),
            final(self)@.error == Some(error@),
    {
        self.status = ExecutionStatus::Failed;
        self.error = Some(String::from_str(error));
        self.completed_at = Some(now_timestamp());
    }

    /// Marks the execution cancelled now.
    pub fn cancel(&mut self)
        ensures
            ended(old(self)@, final(self)@, ExecutionStatus::Cancelled),
            final(self)@.error == old(self)@.error,
    {
        self.status = ExecutionStatus::Cancelled;
        self.completed_at = Some(now_timestamp());
    }

    /// Whether the execution has ended (completed, failed or cancelled).
    pub fn is_finished(&self) -> (b: bool)
        ensures
            b == finished(self.status),
    {
        match self.status {
            ExecutionStatus::Completed | ExecutionStatus::Failed | ExecutionStatus::Cancelled => true,
            ExecutionStatus::Running => false,
        }
    }

    /// Whether the execution is running.
    pub fn is_running(&self) -> (b: bool)
        ensures
            b == (self.status == ExecutionStatus::Running),
    {
        self.status == ExecutionStatus::Running
    }

    /// The number of steps with a recorded result.
    pub fn completed_step_count(&self) -> (n: usize)
        ensures
            n == self@.steps.dom().len(),
    {
        let n = self.step_results.len();
        assert(self@.steps.dom() =~= self.step_results@.dom());
        n
    }
}

/// The persisted record of an execution.
pub struct ExecutionRecord {
    pub id: String,
    pub workflow_id: String,
    pub status: ExecutionStatus,
    pub started_at: i64,
    pub completed_at: Option<i64>,
    pub step_results: Table<StepResult>,
    pub error: Option<String>,
    pub logs: Vec<ExecutionLog>,
}

impl ExecutionRecord {
    /// The record of an execution state (what `From<ExecutionState>` gives).
    pub fn from_state(state: ExecutionState) -> (r: Self)
        ensures
            r.id@ == state.id@,
            r.workflow_id@ == state.workflow_id@,
            r.status == state.status,
            r.started_at == state.started_at,
            r.completed_at == state.completed_at,
            steps_view(r.step_results@) == state@.steps,
            opt_text(r.error) == opt_text(state.error),
            logs_view(r.logs@) == state@.logs,
    {
        ExecutionRecord {
            id: state.id,
            workflow_id: state.workflow_id,
            status: state.status,
            started_at: state.started_at,
            completed_at: state.completed_at,
            step_results: state.step_results,
            error: state.error,
            logs: state.logs,
        }
    }
}

/// Permission to run one execution, held while it runs.
pub struct ExecutionPermit {
    pub execution_id: String,
    pub workflow_id: String,
}

impl ExecutionPermit {
    fn new(execution_id: String, workflow_id: String) -> (p: Self)
        ensures
            p.execution_id@ == execution_id@,
            p.workflow_id@ == workflow_id@,
    {
        ExecutionPermit { execution_id, workflow_id }
    }

    /// The execution id.
    pub fn id(&self) -> (s: &str)
        ensures
            s@ == self.execution_id@,
    {
        self.execution_id.as_str()
    }

    /// The workflow id.
    pub fn workflow_id(&self) -> (s: &str)
        ensures
            s@ == self.workflow_id@,
    {
        self.workflow_id.as_str()
    }
}

/// An execution that is running, with the number of steps it has in all.
pub struct RunningExecution {
    state: ExecutionState,
    total_steps: usize,
}

impl RunningExecution {
    /// The state of the execution.
    pub closed spec fn state_view(&self) -> ExecutionStateView {
        self.state@
    }

    /// The execution id.
    pub fn id(&self) -> (s: String)
        ensures
            s@ == self.state_view().id,
    {
        self.state.id.clone()
    }

    /// The current status.
    pub fn status(&self) -> (s: ExecutionStatus)
        ensures
            s == self.state_view().status,
    {
        self.state.status
    }

    /// The number of steps the workflow has in all.
    pub closed spec fn steps_total(&self) -> nat {
        self.total_steps as nat
    }

    /// The number of steps of the workflow.
    pub fn total_steps(&self) -> (n: usize)
        ensures
            n == self.steps_total(),
    {
        self.total_steps
    }

    /// Whether the execution has ended.
    pub fn is_finished(&self) -> (b: bool)
        ensures
            b == finished(self.state_view().status),
    {
        self.state.is_finished()
    }

    /// A copy of the state.
    pub fn snapshot(&self) -> (s: ExecutionState)
        ensures
            s@ == self.state_view(),
    {
        self.state.duplicate()
    }
}

/// The error for an execution id that is not tracked.
pub open spec fn not_found_error(e: WorkflowError, id: Seq<char>) -> bool {
    e matches WorkflowError::ExecutionError(m) && m@ == "Execution "@ + id + " not found"@
}

fn not_found(execution_id: &str) -> (e: WorkflowError)
    ensures
        not_found_error(e, execution_id@),
{
    WorkflowError::ExecutionError(cat3("Execution ", execution_id, " not found"))
}

/// The states of executions of one workflow among a list, in order.
pub open spec fn of_workflow(s: Seq<ExecutionStateView>, workflow_id: Seq<char>) -> Seq<ExecutionStateView>
    decreases s.len(),
{
    if s.len() == 0 {
        s
    } else {
        let r = of_workflow(s.drop_last(), workflow_id);
        if s.last().workflow_id == workflow_id { r.push(s.last()) } else { r }
    }
}

/// The start times of a list of states.
pub open spec fn start_times(s: Seq<ExecutionStateView>) -> Seq<i64> {
    s.map_values(|v: ExecutionStateView| v.started_at)
}

/// Whether `r` lists the states `s` ordered stably by start time.
pub open spec fn ordered_by_start(s: Seq<ExecutionStateView>, descending: bool, r: Seq<ExecutionStateView>) -> bool {
    exists|order: Seq<usize>| #[trigger] is_stable_order(start_times(s), descending, order)
        && r.len() == order.len()
        && forall|i: int| 0 <= i < r.len() ==> #[trigger] r[i] == s[order[i] as int]
}

/// The views of a list of states.
pub open spec fn states_view(v: Seq<ExecutionState>) -> Seq<ExecutionStateView> {
    v.map_values(|s: ExecutionState| s@)
}

/// Copies of `s` in stable order of start time.
fn sorted_by_start(s: &Vec<ExecutionState>, descending: bool) -> (r: Vec<ExecutionState>)
    ensures
        ordered_by_start(states_view(s@), descending, states_view(r@)),
{
    let mut keys: Vec<i64> = Vec::new();
    let mut i: usize = 0;
    while i < s.len()
        invariant
            i <= s@.len(),
            keys@ == start_times(states_view(s@)).subrange(0, i as int),
        decreases s@.len() - i,
    {
        keys.push(s[i].started_at);
        i = i + 1;
        assert(keys@ =~= start_times(states_view(s@)).subrange(0, i as int));
    }
    assert(keys@ =~= start_times(states_view(s@)));
    let order = stable_order(&keys, descending);
    let mut r: Vec<ExecutionState> = Vec::new();
    let mut j: usize = 0;
    while j < order.len()
        invariant
            j <= order@.len(),
            is_stable_order(keys@, descending, order@),
            keys@ == start_times(states_view(s@)),
            r@.len() == j,
            forall|t: int| 0 <= t < j ==> #[trigger] states_view(r@)[t] == states_view(s@)[order@[t] as int],
        decreases order@.len() - j,
    {
        let k = order[j];
        let ghost prev = r@;
        r.push(s[k].duplicate());
        assert(states_view(r@) =~= states_view(prev).push(states_view(s@)[k as int]));
        j = j + 1;
    }
    assert(is_stable_order(start_times(states_view(s@)), descending, order@));
    r
}

/// Tracks running executions, bounding how many run at once, and keeps the
/// history of finished ones.
pub struct ExecutionTracker {
    max_concurrent: usize,
    available: usize,
    running: Table<RunningExecution>,
    history: Table<ExecutionState>,
}

impl ExecutionTracker {
    /// The states of running executions by id.
    pub closed spec fn running_view(&self) -> Map<Seq<char>, ExecutionStateView> {
        self.running@.map_values(|r: RunningExecution| r.state@)
    }

    /// The states of finished executions by id.
    pub closed spec fn history_view(&self) -> Map<Seq<char>, ExecutionStateView> {
        self.history@.map_values(|s: ExecutionState| s@)
    }

    /// Running states in the tracker's order.
    pub closed spec fn running_list(&self) -> Seq<ExecutionStateView> {
        self.running.items().map_values(|p: (Seq<char>, RunningExecution)| p.1.state@)
    }

    /// Finished states in the tracker's order.
    pub closed spec fn history_list(&self) -> Seq<ExecutionStateView> {
        self.history.items().map_values(|p: (Seq<char>, ExecutionState)| p.1@)
    }

    /// Permits still free for new executions.
    pub closed spec fn permits(&self) -> nat {
        self.available as nat
    }

    /// The bound on concurrent executions.
    pub closed spec fn limit(&self) -> nat {
        self.max_concurrent as nat
    }

    /// A tracker allowing `max_concurrent` executions at once.
    pub fn new(max_concurrent: usize) -> (t: Self)
        ensures
            t.limit() == max_concurrent,
            t.permits() == max_concurrent,
            t.running_view() == Map::<Seq<char>, ExecutionStateView>::empty(),
            t.history_view() == Map::<Seq<char>, ExecutionStateView>::empty(),
    {
        let t = ExecutionTracker {
            max_concurrent,
            available: max_concurrent,
            running: Table::new(),
            history: Table::new(),
        };
        assert(t.running_view() =~= Map::<Seq<char>, ExecutionStateView>::empty());
        assert(t.history_view() =~= Map::<Seq<char>, ExecutionStateView>::empty());
        t
    }

    /// The bound on concurrent executions.
    pub fn max_concurrent(&self) -> (n: usize)
        ensures
            n == self.limit(),
    {
        self.max_concurrent
    }

    /// Permits still free.
    pub fn available_permits(&self) -> (n: usize)
        ensures
            n == self.permits(),
    {
        self.available
    }

    /// Starts tracking an execution when a permit is free, taking it; with
    /// no permit free nothing changes and the caller waits for one.
    pub fn start_execution(&mut self, execution_id: &str, workflow_id: &str, total_steps: usize) -> (r: Option<ExecutionPermit>)
        ensures
            old(self).permits() == 0 ==> r is None && final(self).running_view() == old(self).running_view()
                && final(self).permits() == 0,
            old(self).permits() > 0 ==> (r matches Some(p) && p.execution_id@ == execution_id@ && p.workflow_id@ == workflow_id@
                && final(self).permits() == old(self).permits() - 1
                && final(self).running_view().dom() == old(self).running_view().dom().insert(execution_id@)
                && fresh_state(final(self).running_view()[execution_id@], execution_id@, workflow_id@)
                && forall|k: Seq<char>| k != execution_id@ && old(self).running_view().dom().contains(k)
                    ==> #[trigger] final(self).running_view()[k] == old(self).running_view()[k]),
            final(self).history_view() == old(self).history_view(),
            final(self).limit() == old(self).limit(),
    {
        if self.available == 0 {
            return None;
        }
        self.available = self.available - 1;
        let state = ExecutionState::new(execution_id, workflow_id);
        self.running.insert(String::from_str(execution_id), RunningExecution { state, total_steps });
        assert(self.running_view().dom() =~= old(self).running_view().dom().insert(execution_id@));
        Some(ExecutionPermit::new(String::from_str(execution_id), String::from_str(workflow_id)))
    }

    fn take_running(&mut self, execution_id: &str) -> (r: Option<RunningExecution>)
        ensures
            r matches Some(e) ==> old(self).running_view().dom().contains(execution_id@)
                && e.state_view() == old(self).running_view()[execution_id@],
            r is None ==> !old(self).running_view().dom().contains(execution_id@),
            final(self).running_view() == old(self).running_view().remove(execution_id@),
            final(self).history_view() == old(self).history_view(),
            final(self).permits() == old(self).permits(),
            final(self).limit() == old(self).limit(),
    {
        let r = self.running.remove(execution_id);
        assert(self.running_view() =~= old(self).running_view().remove(execution_id@));
        r
    }

    fn put_running(&mut self, execution_id: &str, e: RunningExecution)
        ensures
            final(self).running_view() == old(self).running_view().insert(execution_id@, e.state_view()),
            final(self).history_view() == old(self).history_view(),
            final(self).permits() == old(self).permits(),
            final(self).limit() == old(self).limit(),
    {
        self.running.insert(String::from_str(execution_id), e);
        assert(self.running_view() =~= old(self).running_view().insert(execution_id@, e.state_view()));
    }

    fn to_history(&mut self, execution_id: &str, s: ExecutionState)
        ensures
            final(self).history_view() == old(self).history_view().insert(execution_id@, s@),
            final(self).running_view() == old(self).running_view(),
            final(self).permits() == (if old(self).permits() < usize::MAX { old(self).permits() + 1 } else { old(self).permits() }),
            final(self).limit() == old(self).limit(),
    {
        self.history.insert(String::from_str(execution_id), s);
        assert(self.history_view() =~= old(self).history_view().insert(execution_id@, s@));
        if self.available < usize::MAX {
            self.available = self.available + 1;
        }
    }

    /// Sets the current step of a running execution.
    pub fn update_step(&mut self, execution_id: &str, step_id: String) -> (r: Result<(), WorkflowError>)
        ensures
            old(self).running_view().dom().contains(execution_id@) ==> r is Ok
                && final(self).running_view() == old(self).running_view().insert(execution_id@,
                    ExecutionStateView { current_step: Some(step_id@), ..old(self).running_view()[execution_id@] }),
            !old(self).running_view().dom().contains(execution_id@) ==> (r matches Err(e) && not_found_error(e, execution_id@)
                && final(self).running_view() == old(self).running_view()),
            final(self).history_view() == old(self).history_view(),
            final(self).permits() == old(self).permits(),
            final(self).limit() == old(self).limit(),
    {
        match self.take_running(execution_id) {
            Some(mut e) => {
                e.state.current_step = Some(step_id);
                self.put_running(execution_id, e);
                assert(self.running_view() =~= old(self).running_view().insert(execution_id@,
                    ExecutionStateView { current_step: Some(step_id@), ..old(self).running_view()[execution_id@] }));
                Ok(())
            },
            None => {
                assert(self.running_view() =~= old(self).running_view());
                Err(not_found(execution_id))
            },
        }
    }

    /// Records a step result of a running execution.
    pub fn record_step_result(&mut self, execution_id: &str, step_id: String, result: StepResult) -> (r: Result<(), WorkflowError>)
        ensures
            old(self).running_view().dom().contains(execution_id@) ==> r is Ok
                && final(self).running_view() == old(self).running_view().insert(execution_id@,
                    ExecutionStateView {
                        current_step: Some(step_id@),
                        steps: old(self).running_view()[execution_id@].steps.insert(step_id@, result@),
                        ..old(self).running_view()[execution_id@]
                    }),
            !old(self).running_view().dom().contains(execution_id@) ==> (r matches Err(e) && not_found_error(e, execution_id@)
                && final(self).running_view() == old(self).running_view()),
            final(self).history_view() == old(self).history_view(),
            final(self).permits() == old(self).permits(),
            final(self).limit() == old(self).limit(),
    {
        match self.take_running(execution_id) {
            Some(mut e) => {
                e.state.record_step(step_id, result);
                self.put_running(execution_id, e);
                assert(self.running_view() =~= old(self).running_view().insert(execution_id@,
                    ExecutionStateView {
                        current_step: Some(step_id@),
                        steps: old(self).running_view()[execution_id@].steps.insert(step_id@, result@),
                        ..old(self).running_view()[execution_id@]
                    }));
                Ok(())
            },
            None => {
                assert(self.running_view() =~= old(self).running_view());
                Err(not_found(execution_id))
            },
        }
    }

    /// Appends a log line to a running execution.
    pub fn log(&mut self, execution_id: &str, level: &str, message: &str) -> (r: Result<(), WorkflowError>)
        ensures
            old(self).running_view().dom().contains(execution_id@) ==> r is Ok && ({
                let o = old(self).running_view()[execution_id@];
                let n = final(self).running_view()[execution_id@];
                &&& final(self).running_view() == old(self).running_view().insert(execution_id@, n)
                &&& n == (ExecutionStateView { logs: n.logs, ..o })
                &&& n.logs.len() == o.logs.len() + 1
                &&& n.logs.subrange(0, o.logs.len() as int) == o.logs
                &&& n.logs.last().level == level@
                &&& n.logs.last().message == message@
            }),
            !old(self).running_view().dom().contains(execution_id@) ==> (r matches Err(e) && not_found_error(e, execution_id@)
                && final(self).running_view() == old(self).running_view()),
            final(self).history_view() == old(self).history_view(),
            final(self).permits() == old(self).permits(),
            final(self).limit() == old(self).limit(),
    {
        match self.take_running(execution_id) {
            Some(mut e) => {
                e.state.log(level, message);
                self.put_running(execution_id, e);
                Ok(())
            },
            None => {
                assert(self.running_view() =~= old(self).running_view());
                Err(not_found(execution_id))
            },
        }
    }

    /// Marks a running execution completed and moves it to the history,
    /// freeing its permit.
    pub fn complete_execution(&mut self, execution_id: &str) -> (r: Result<(), WorkflowError>)
        ensures
            old(self).running_view().dom().contains(execution_id@) ==> r is Ok
                && final(self).running_view() == old(self).running_view().remove(execution_id@)
                && final(self).history_view().dom() == old(self).history_view().dom().insert(execution_id@)
                && ended(old(self).running_view()[execution_id@], final(self).history_view()[execution_id@], ExecutionStatus::Completed)
                && final(self).history_view()[execution_id@].error == old(self).running_view()[execution_id@].error
                && (forall|k: Seq<char>| k != execution_id@ && old(self).history_view().dom().contains(k)
                    ==> #[trigger] final(self).history_view()[k] == old(self).history_view()[k])
                && final(self).permits() == (if old(self).permits() < usize::MAX { old(self).permits() + 1 } else { old(self).permits() }),
            !old(self).running_view().dom().contains(execution_id@) ==> (r matches Err(e) && not_found_error(e, execution_id@)
                && final(self).running_view() == old(self).running_view()
                && final(self).history_view() == old(self).history_view()
                && final(self).permits() == old(self).permits()),
            final(self).limit() == old(self).limit(),
    {
        match self.take_running(execution_id) {
            Some(e) => {
                let mut s = e.state;
                s.complete();
                self.to_history(execution_id, s);
                Ok(())
            },
            None => {
                assert(self.running_view() =~= old(self).running_view());
                Err(not_found(execution_id))
            },
        }
    }

    /// Marks a running execution failed with an error and moves it to the
    /// history, freeing its permit.
    pub fn fail_execution(&mut self, execution_id: &str, error: &str) -> (r: Result<(), WorkflowError>)
        ensures
            old(self).running_view().dom().contains(execution_id@) ==> r is Ok
                && final(self).running_view() == old(self).running_view().remove(execution_id@)
                && final(self).history_view().dom() == old(self).history_view().dom().insert(execution_id@)
                && ended(old(self).running_view()[execution_id@], final(self).history_view()[execution_id@], ExecutionStatus::Failed)
                && final(self).history_view()[execution_id@].error == Some(error@)
                && (forall|k: Seq<char>| k != execution_id@ && old(self).history_view().dom().contains(k)
                    ==> #[trigger] final(self).history_view()[k] == old(self).history_view()[k])
                && final(self).permits() == (if old(self).permits() < usize::MAX { old(self).permits() + 1 } else { old(self).permits() }),
            !old(self).running_view().dom().contains(execution_id@) ==> (r matches Err(e) && not_found_error(e, execution_id@)
                && final(self).running_view() == old(self).running_view()
                && final(self).history_view() == old(self).history_view()
                && final(self).permits() == old(self).permits()),
            final(self).limit() == old(self).limit(),
    {
        match self.take_running(execution_id) {
            Some(e) => {
                let mut s = e.state;
                s.fail(error);
                self.to_history(execution_id, s);
                Ok(())
            },
            None => {
                assert(self.running_view() =~= old(self).running_view());
                Err(not_found(execution_id))
            },
        }
    }

    /// Cancels a running execution (`Ok(true)`); an execution already in the
    /// history gives `Ok(false)`; an unknown one an error.
    pub fn cancel_execution(&mut self, execution_id: &str) -> (r: Result<bool, WorkflowError>)
        ensures
            old(self).running_view().dom().contains(execution_id@) ==> r == Ok::<bool, WorkflowError>(true)
                && final(self).running_view() == old(self).running_view().remove(execution_id@)
                && final(self).history_view().dom() == old(self).history_view().dom().insert(execution_id@)
                && ended(old(self).running_view()[execution_id@], final(self).history_view()[execution_id@], ExecutionStatus::Cancelled)
                && (forall|k: Seq<char>| k != execution_id@ && old(self).history_view().dom().contains(k)
                    ==> #[trigger] final(self).history_view()[k] == old(self).history_view()[k])
                && final(self).permits() == (if old(self).permits() < usize::MAX { old(self).permits() + 1 } else { old(self).permits() }),
            !old(self).running_view().dom().contains(execution_id@) ==> final(self).running_view() == old(self).running_view()
                && final(self).history_view() == old(self).history_view()
                && final(self).permits() == old(self).permits()
                && (old(self).history_view().dom().contains(execution_id@) ==> r == Ok::<bool, WorkflowError>(false))
                && (!old(self).history_view().dom().contains(execution_id@) ==> (r matches Err(e) && not_found_error(e, execution_id@))),
            final(self).limit() == old(self).limit(),
    {
        match self.take_running(execution_id) {
            Some(e) => {
                let mut s = e.state;
                s.cancel();
                self.to_history(execution_id, s);
                Ok(true)
            },
            None => {
                assert(self.running_view() =~= old(self).running_view());
                if self.history.contains_key(execution_id) {
                    Ok(false)
                } else {
                    Err(not_found(execution_id))
                }
            },
        }
    }

    /// The status of a tracked execution, running ones first.
    pub fn get_status(&self, execution_id: &str) -> (r: Result<ExecutionStatus, WorkflowError>)
        ensures
            self.running_view().dom().contains(execution_id@) ==> r == Ok::<ExecutionStatus, WorkflowError>(self.running_view()[execution_id@].status),
            !self.running_view().dom().contains(execution_id@) && self.history_view().dom().contains(execution_id@)
                ==> r == Ok::<ExecutionStatus, WorkflowError>(self.history_view()[execution_id@].status),
            !self.running_view().dom().contains(execution_id@) && !self.history_view().dom().contains(execution_id@)
                ==> (r matches Err(e) && not_found_error(e, execution_id@)),
    {
        match self.running.get(execution_id) {
            Some(e) => Ok(e.state.status),
            None => match self.history.get(execution_id) {
                Some(s) => Ok(s.status),
                None => Err(not_found(execution_id)),
            },
        }
    }

    /// A copy of the state of a tracked execution, running ones first.
    pub fn get_execution(&self, execution_id: &str) -> (r: Result<Option<ExecutionState>, WorkflowError>)
        ensures
            r matches Ok(o) && (self.running_view().dom().contains(execution_id@) ==> (o matches Some(s) && s@ == self.running_view()[execution_id@]))
                && (!self.running_view().dom().contains(execution_id@) && self.history_view().dom().contains(execution_id@)
                    ==> (o matches Some(s) && s@ == self.history_view()[execution_id@]))
                && (!self.running_view().dom().contains(execution_id@) && !self.history_view().dom().contains(execution_id@) ==> o is None),
    {
        match self.running.get(execution_id) {
            Some(e) => Ok(Some(e.snapshot())),
            None => match self.history.get(execution_id) {
                Some(s) => Ok(Some(s.duplicate())),
                None => Ok(None),
            },
        }
    }

    fn running_states(&self) -> (r: Vec<ExecutionState>)
        ensures
            states_view(r@) == self.running_list(),
    {
        let mut r: Vec<ExecutionState> = Vec::new();
        let n = self.running.len();
        let mut i: usize = 0;
        while i < n
            invariant
                n == self.running.items().len(),
                i <= n,
                states_view(r@) == self.running_list().subrange(0, i as int),
            decreases n - i,
        {
            let ghost prev = r@;
            r.push(self.running.value_at(i).snapshot());
            assert(states_view(r@) =~= states_view(prev).push(self.running_list()[i as int]));
            i = i + 1;
            assert(states_view(r@) =~= self.running_list().subrange(0, i as int));
        }
        assert(states_view(r@) =~= self.running_list());
        r
    }

    fn history_states(&self) -> (r: Vec<ExecutionState>)
        ensures
            states_view(r@) == self.history_list(),
    {
        let mut r: Vec<ExecutionState> = Vec::new();
        let n = self.history.len();
        let mut i: usize = 0;
        while i < n
            invariant
                n == self.history.items().len(),
                i <= n,
                states_view(r@) == self.history_list().subrange(0, i as int),
            decreases n - i,
        {
            let ghost prev = r@;
            r.push(self.history.value_at(i).duplicate());
            assert(states_view(r@) =~= states_view(prev).push(self.history_list()[i as int]));
            i = i + 1;
            assert(states_view(r@) =~= self.history_list().subrange(0, i as int));
        }
        assert(states_view(r@) =~= self.history_list());
        r
    }

    /// The running executions, oldest start first.
    pub fn list_running(&self) -> (r: Vec<ExecutionState>)
        ensures
            ordered_by_start(self.running_list(), false, states_view(r@)),
    {
        let states = self.running_states();
        sorted_by_start(&states, false)
    }

    /// The finished executions, newest start first, at most `limit` of them.
    pub fn list_history(&self, limit: usize) -> (r: Vec<ExecutionState>)
        ensures
            exists|all: Seq<ExecutionStateView>| #[trigger] ordered_by_start(self.history_list(), true, all)
                && states_view(r@) == (if all.len() > limit { all.subrange(0, limit as int) } else { all }),
    {
        let states = self.history_states();
        let mut sorted = sorted_by_start(&states, true);
        let ghost all = states_view(sorted@);
        sorted.truncate(limit);
        assert(states_view(sorted@) =~= (if all.len() > limit { all.subrange(0, limit as int) } else { all }));
        sorted
    }

    /// The executions of one workflow, running then finished, newest start first.
    pub fn get_workflow_executions(&self, workflow_id: &str) -> (r: Vec<ExecutionState>)
        ensures
            ordered_by_start(of_workflow(self.running_list(), workflow_id@) + of_workflow(self.history_list(), workflow_id@),
                true, states_view(r@)),
    {
        let running = self.running_states();
        let history = self.history_states();
        let mut picked: Vec<ExecutionState> = Vec::new();
        let mut i: usize = 0;
        while i < running.len()
            invariant
                i <= running@.len(),
                states_view(running@) == self.running_list(),
                states_view(picked@) == of_workflow(self.running_list().subrange(0, i as int), workflow_id@),
            decreases running@.len() - i,
        {
            let ghost prev = picked@;
            assert(self.running_list().subrange(0, i + 1).drop_last() =~= self.running_list().subrange(0, i as int));
            if crate::text::same_text(running[i].workflow_id.as_str(), workflow_id) {
                picked.push(running[i].duplicate());
                assert(states_view(picked@) =~= states_view(prev).push(self.running_list()[i as int]));
            }
            i = i + 1;
        }
        assert(self.running_list().subrange(0, i as int) =~= self.running_list());
        let ghost first = states_view(picked@);
        let mut j: usize = 0;
        while j < history.len()
            invariant
                j <= history@.len(),
                states_view(history@) == self.history_list(),
                first == of_workflow(self.running_list(), workflow_id@),
                states_view(picked@) == first + of_workflow(self.history_list().subrange(0, j as int), workflow_id@),
            decreases history@.len() - j,
        {
            let ghost prev = picked@;
            assert(self.history_list().subrange(0, j + 1).drop_last() =~= self.history_list().subrange(0, j as int));
            if crate::text::same_text(history[j].workflow_id.as_str(), workflow_id) {
                picked.push(history[j].duplicate());
                assert(states_view(picked@) =~= states_view(prev).push(self.history_list()[j as int]));
            }
            j = j + 1;
        }
        assert(self.history_list().subrange(0, j as int) =~= self.history_list());
        sorted_by_start(&picked, true)
    }

    /// Finitely many executions run, and finitely many have finished.
    pub proof fn lemma_finite(&self)
        ensures
            self.running_view().dom().finite(),
            self.history_view().dom().finite(),
    {
        self.running.lemma_dom_finite();
        self.history.lemma_dom_finite();
        assert(self.running_view().dom() =~= self.running@.dom());
        assert(self.history_view().dom() =~= self.history@.dom());
    }

    /// Ending a running execution (completing, failing or cancelling it)
    /// leaves one fewer running: the running count drops by one.
    pub proof fn lemma_one_fewer_running(before: &ExecutionTracker, after: &ExecutionTracker, id: Seq<char>)
        requires
            before.running_view().dom().contains(id),
            after.running_view() == before.running_view().remove(id),
        ensures
            after.running_view().dom().len() == before.running_view().dom().len() - 1,
    {
        before.lemma_finite();
        assert(after.running_view().dom() =~= before.running_view().dom().remove(id));
    }

    /// The number of running executions.
    pub fn running_count(&self) -> (n: usize)
        ensures
            n == self.running_view().dom().len(),
            self.running_view().dom().finite(),
    {
        let n = self.running.len();
        assert(self.running_view().dom() =~= self.running@.dom());
        proof {
            self.lemma_finite();
        }
        n
    }

    /// Forgets finished executions that started before `older_than`; returns how many.
    pub fn cleanup_history(&mut self, older_than: i64) -> (removed: usize)
        ensures
            final(self).history_view().dom() == old(self).history_view().dom().filter(
                |k: Seq<char>| !stale(old(self).history_view()[k], older_than)),
            forall|k: Seq<char>| #[trigger] final(self).history_view().dom().contains(k) ==> final(self).history_view()[k] == old(self).history_view()[k],
            removed == old(self).history_view().dom().len() - final(self).history_view().dom().len(),
            final(self).running_view() == old(self).running_view(),
            final(self).permits() == old(self).permits(),
            final(self).limit() == old(self).limit(),
    {
        let mut to_remove: Vec<String> = Vec::new();
        let n = self.history.len();
        let mut i: usize = 0;
        while i < n
            invariant
                n == self.history.items().len(),
                i <= n,
                forall|t: int| 0 <= t < to_remove@.len() ==> self.history_view().dom().contains(#[trigger] to_remove@[t]@)
                    && stale(self.history_view()[to_remove@[t]@], older_than),
                forall|j: int| 0 <= j < i ==> (stale(self.history_view()[#[trigger] self.history.items()[j].0], older_than)
                    ==> names_contain(to_remove@, self.history.items()[j].0)),
            decreases n - i,
        {
            let s = self.history.value_at(i);
            let ghost k = self.history.items()[i as int].0;
            if s.started_at < older_than && s.is_finished() {
                let name = self.history.key_at(i).clone();
                let ghost prev = to_remove@;
                to_remove.push(name);
                assert(to_remove@[prev.len() as int]@ == k);
                assert forall|j: int| 0 <= j < i && stale(self.history_view()[#[trigger] self.history.items()[j].0], older_than)
                    implies names_contain(to_remove@, self.history.items()[j].0) by {
                    assert(names_contain(prev, self.history.items()[j].0));
                    let t0 = choose|t: int| 0 <= t < prev.len() && #[trigger] prev[t]@ == self.history.items()[j].0;
                    assert(to_remove@[t0] == prev[t0]);
                }
                assert(names_contain(to_remove@, k));
            }
            i = i + 1;
        }
        let ghost old_hist = self.history_view();
        proof {
            assert forall|k: Seq<char>| old_hist.dom().contains(k) && stale(old_hist[k], older_than) implies names_contain(to_remove@, k) by {
                let j = choose|j: int| 0 <= j < self.history.items().len() && #[trigger] self.history.items()[j].0 == k;
                assert(self.history.items()[j].0 == k);
            }
        }
        let mut count: usize = 0;
        let mut t: usize = 0;
        let _ = self.history.len();
        assert(old_hist.dom() =~= self.history@.dom());
        while t < to_remove.len()
            invariant
                t <= to_remove@.len(),
                self.running_view() == old(self).running_view(),
                self.permits() == old(self).permits(),
                self.limit() == old(self).limit(),
                old_hist == old(self).history_view(),
                count <= t,
                old_hist.dom().finite(),
                forall|u: int| 0 <= u < to_remove@.len() ==> old_hist.dom().contains(#[trigger] to_remove@[u]@)
                    && stale(old_hist[to_remove@[u]@], older_than),
                forall|k: Seq<char>| old_hist.dom().contains(k) && stale(old_hist[k], older_than) ==> #[trigger] names_contain(to_remove@, k),
                self.history_view().dom() == old_hist.dom().filter(|k: Seq<char>| !names_contain(to_remove@.subrange(0, t as int), k)),
                forall|k: Seq<char>| #[trigger] self.history_view().dom().contains(k) ==> self.history_view()[k] == old_hist[k],
                old_hist.dom().len() - self.history_view().dom().len() == count,
            decreases to_remove@.len() - t,
        {
            let ghost before = self.history_view();
            let ghost x = to_remove@[t as int]@;
            let removed_one = self.history.remove(to_remove[t].as_str());
            assert(self.history_view() =~= before.remove(x));
            if removed_one.is_some() {
                count = count + 1;
            }
            proof {
                assert(old_hist.dom().filter(|k: Seq<char>| !names_contain(to_remove@.subrange(0, t + 1), k))
                    =~= before.dom().remove(x)) by {
                    assert forall|k: Seq<char>| names_contain(to_remove@.subrange(0, t + 1), k) <==>
                        (names_contain(to_remove@.subrange(0, t as int), k) || k == x) by {
                        if names_contain(to_remove@.subrange(0, t + 1), k) {
                            let u = choose|u: int| 0 <= u < t + 1 && #[trigger] to_remove@.subrange(0, t + 1)[u]@ == k;
                            if u < t {
                                assert(to_remove@.subrange(0, t as int)[u] == to_remove@.subrange(0, t + 1)[u]);
                            }
                        }
                        if names_contain(to_remove@.subrange(0, t as int), k) {
                            let u = choose|u: int| 0 <= u < t && #[trigger] to_remove@.subrange(0, t as int)[u]@ == k;
                            assert(to_remove@.subrange(0, t + 1)[u] == to_remove@.subrange(0, t as int)[u]);
                        }
                        if k == x {
                            assert(to_remove@.subrange(0, t + 1)[t as int]@ == x);
                        }
                    }
                }
                if before.dom().contains(x) {
                    assert(before.dom().remove(x).len() == before.dom().len() - 1);
                } else {
                    assert(before.dom().remove(x) =~= before.dom());
                }
            }
            t = t + 1;
        }
        proof {
            assert(to_remove@.subrange(0, t as int) =~= to_remove@);
            assert(self.history_view().dom() =~= old_hist.dom().filter(|k: Seq<char>| !stale(old_hist[k], older_than))) by {
                assert forall|k: Seq<char>| old_hist.dom().contains(k) implies (names_contain(to_remove@, k) <==> stale(old_hist[k], older_than)) by {
                    if names_contain(to_remove@, k) {
                        let u = choose|u: int| 0 <= u < to_remove@.len() && #[trigger] to_remove@[u]@ == k;
                    }
                }
            }
        }
        count
    }
}

/// Whether an execution is finished and started before `older_than`.
pub open spec fn stale(s: ExecutionStateView, older_than: i64) -> bool {
    s.started_at < older_than && finished(s.status)
}

/// Whether one of the names has the characters `k`.
pub open spec fn names_contain(v: Seq<String>, k: Seq<char>) -> bool {
    exists|t: int| 0 <= t < v.len() && #[trigger] v[t]@ == k
}

} // verus!
