//! Scheduled tasks, the results of runs, device-step errors and the limits
//! of the WebAssembly runtime.
use vstd::prelude::*;
use crate::json::Json;
use crate::table::Table;
use crate::text::{cat, cat3, owned, u64_text, decimal};
use crate::workflow::execution::{ExecutionStatus, StepResult};

verus! {

/// A workflow run on a schedule.
pub struct ScheduledTask {
    pub id: String,
    pub workflow_id: String,
    pub trigger_id: String,
    pub cron_expression: String,
    pub active: bool,
}

impl ScheduledTask {
    /// A copy of the task.
    pub fn duplicate(&self) -> (t: Self)
        ensures
            t.id@ == self.id@,
            t.workflow_id@ == self.workflow_id@,
            t.trigger_id@ == self.trigger_id@,
            t.cron_expression@ == self.cron_expression@,
            t.active == self.active,
    {
        ScheduledTask {
            id: owned(self.id.as_str()),
            workflow_id: owned(self.workflow_id.as_str()),
            trigger_id: owned(self.trigger_id.as_str()),
            cron_expression: owned(self.cron_expression.as_str()),
            active: self.active,
        }
    }
}

/// The scheduled tasks by id, and whether the scheduler runs.
pub struct Scheduler {
    running: bool,
    tasks: Table<ScheduledTask>,
}

impl Scheduler {
    /// The ids of the tasks, in the order they were first added.
    pub closed spec fn task_ids(&self) -> Seq<Seq<char>> {
        self.tasks.items().map_values(|e: (Seq<char>, ScheduledTask)| e.0)
    }

    /// The tasks, in the order they were first added.
    pub closed spec fn task_list(&self) -> Seq<(Seq<char>, ScheduledTask)> {
        self.tasks.items()
    }

    /// The tasks by id.
    pub closed spec fn task_map(&self) -> Map<Seq<char>, ScheduledTask> {
        self.tasks@
    }

    /// Whether the scheduler runs.
    pub closed spec fn runs(&self) -> bool {
        self.running
    }

    /// A stopped scheduler without tasks.
    pub fn new() -> (s: Self)
        ensures
            !s.runs(),
            s.task_map() == Map::<Seq<char>, ScheduledTask>::empty(),
    {
        Scheduler { running: false, tasks: Table::new() }
    }

    /// Marks the scheduler as running.
    pub fn start(&mut self)
        ensures
            final(self).runs(),
            final(self).task_map() == old(self).task_map(),
    {
        self.running = true;
    }

    /// Marks the scheduler as stopped.
    pub fn stop(&mut self)
        ensures
            !final(self).runs(),
            final(self).task_map() == old(self).task_map(),
    {
        self.running = false;
    }

    /// Whether the scheduler runs.
    pub fn is_running(&self) -> (b: bool)
        ensures
            b == self.runs(),
    {
        self.running
    }

    /// Adds a task under its id, replacing one with the same id.
    pub fn add_task(&mut self, task: ScheduledTask)
        ensures
            final(self).task_map() == old(self).task_map().insert(task.id@, task),
            final(self).runs() == old(self).runs(),
    {
        let id = owned(task.id.as_str());
        self.tasks.insert(id, task);
    }

    /// Removes a task; whether there was one.
    pub fn remove_task(&mut self, task_id: &str) -> (removed: bool)
        ensures
            removed == old(self).task_map().contains_key(task_id@),
            final(self).task_map() == old(self).task_map().remove(task_id@),
            final(self).runs() == old(self).runs(),
    {
        self.tasks.remove(task_id).is_some()
    }

    /// A copy of the task with the given id.
    pub fn get_task(&self, task_id: &str) -> (r: Option<ScheduledTask>)
        ensures
            r matches Some(t) ==> self.task_map().contains_key(task_id@) && t.id@ == self.task_map()[task_id@].id@
                && t.workflow_id@ == self.task_map()[task_id@].workflow_id@
                && t.cron_expression@ == self.task_map()[task_id@].cron_expression@,
            r is None ==> !self.task_map().contains_key(task_id@),
    {
        match self.tasks.get(task_id) {
            Some(t) => Some(t.duplicate()),
            None => None,
        }
    }

    /// Copies of all tasks, in the order they were first added.
    pub fn list_tasks(&self) -> (r: Vec<ScheduledTask>)
        ensures
            r@.len() == self.task_list().len(),
            forall|i: int| 0 <= i < r@.len() ==> (#[trigger] r@[i]).id@ == self.task_list()[i].1.id@,
    {
        let n = self.tasks.len();
        let mut r: Vec<ScheduledTask> = Vec::new();
        let mut i: usize = 0;
        while i < n
            invariant
                i <= n,
                n == self.tasks.items().len(),
                r@.len() == i,
                forall|k: int| 0 <= k < i ==> (#[trigger] r@[k]).id@ == self.tasks.items()[k].1.id@,
            decreases n - i,
        {
            r.push(self.tasks.value_at(i).duplicate());
            i = i + 1;
        }
        r
    }
}

/// What a run of a workflow came to.
pub struct ExecutionResult {
    pub execution_id: String,
    pub status: ExecutionStatus,
    pub step_results: Table<StepResult>,
    pub error: Option<String>,
    pub compensated_steps: usize,
}

/// How readings of a metric are combined.
#[derive(Clone, Copy, Debug, PartialEq, Eq, Structural)]
pub enum AggregationType {
    Avg,
    Min,
    Max,
    Sum,
    Count,
    Latest,
}

/// Why a device step failed.
pub enum DeviceWorkflowError {
    DeviceNotFound(String),
    MetricNotFound(String, String),
    Timeout { device_id: String, metric: String, timeout_secs: u64 },
    CommandFailed(String),
    EventBus(String),
    Other(String),
}

/// The message of a device-step error.
pub open spec fn device_error_message(e: DeviceWorkflowError) -> Seq<char> {
    match e {
        DeviceWorkflowError::DeviceNotFound(d) => "Device not found: "@ + d@,
        DeviceWorkflowError::MetricNotFound(m, d) => "Metric not found: "@ + m@ + " on device "@ + d@,
        DeviceWorkflowError::Timeout { device_id, metric, timeout_secs } => "Timeout waiting for device "@ + device_id@
            + " metric "@ + metric@ + " after "@ + decimal(timeout_secs as nat) + "s"@,
        DeviceWorkflowError::CommandFailed(c) => "Command failed: "@ + c@,
        DeviceWorkflowError::EventBus(b) => "Event bus error: "@ + b@,
        DeviceWorkflowError::Other(o) => "Device workflow error: "@ + o@,
    }
}

impl DeviceWorkflowError {
    /// The message of the error.
    pub fn message(&self) -> (s: String)
        ensures
            s@ == device_error_message(*self),
    {
        match self {
            DeviceWorkflowError::DeviceNotFound(d) => cat("Device not found: ", d.as_str()),
            DeviceWorkflowError::MetricNotFound(m, d) => {
                let mut s = cat3("Metric not found: ", m.as_str(), " on device ");
                s.append(d.as_str());
                s
            },
            DeviceWorkflowError::Timeout { device_id, metric, timeout_secs } => {
                let mut s = cat3("Timeout waiting for device ", device_id.as_str(), " metric ");
                s.append(metric.as_str());
                s.append(" after ");
                let t = u64_text(*timeout_secs);
                s.append(t.as_str());
                s.append("s");
                s
            },
            DeviceWorkflowError::CommandFailed(c) => cat("Command failed: ", c.as_str()),
            DeviceWorkflowError::EventBus(b) => cat("Event bus error: ", b.as_str()),
            DeviceWorkflowError::Other(o) => cat("Device workflow error: ", o.as_str()),
        }
    }
}

/// Limits of the WebAssembly runtime.
pub struct WasmConfig {
    /// Memory limit in megabytes.
    pub memory_limit: usize,
    pub max_execution_time_seconds: u64,
    pub enable_wasi: bool,
}

/// 64 MB, 30 s, WASI on.
impl Default for WasmConfig {
    fn default() -> (c: Self)
        ensures
            c.memory_limit == 64,
            c.max_execution_time_seconds == 30,
            c.enable_wasi,
    {
        WasmConfig { memory_limit: 64, max_execution_time_seconds: 30, enable_wasi: true }
    }
}

/// What is known of a stored module.
pub struct ModuleMetadata {
    pub id: String,
    pub name: String,
    pub description: String,
    pub source_language: String,
    pub created_at: i64,
}

/// A compiled module and what is known of it.
pub struct WasmModule {
    pub bytes: Vec<u8>,
    pub metadata: ModuleMetadata,
}

/// What running a module function came to.
pub struct WasmExecutionResult {
    pub success: bool,
    pub return_value: Option<Json>,
    pub duration_ms: u64,
    pub memory_used: Option<usize>,
    pub error: Option<String>,
}

} // verus!
