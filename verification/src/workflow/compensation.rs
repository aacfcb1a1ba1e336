//! Undoing the effects of completed steps when a workflow fails: which
//! action undoes which kind of step, the reverse of a device command, and the
//! order in which steps are undone (last completed first).
use vstd::prelude::*;
use crate::table::Table;
use crate::text::{cat, owned, same_text, spec_lowercase, to_lowercase};
use crate::workflow::error::WorkflowError;
use crate::workflow::execution::StepResult;

verus! {

/// When a step is undone.
#[derive(Clone, Copy, Debug, PartialEq, Eq, Structural)]
pub enum CompensationTiming {
    /// As soon as the workflow fails.
    Immediate,
    /// After a delay.
    Delayed { delay_seconds: u64 },
    /// Only when someone asks for it.
    Manual,
}

/// What to do when a workflow fails.
#[derive(Clone, Copy, Debug, PartialEq, Eq, Structural)]
pub enum FailureStrategy {
    /// Fail the workflow and undo every completed step.
    CompensateAll,
    /// Retry the failed step, then undo.
    RetryThenCompensate,
    /// Skip the failed step and go on.
    SkipAndContinue,
    /// Stop and wait for a person.
    ManualIntervention,
}

/// An action that needs no undoing, with the reason.
pub struct NoOpCompensation {
    pub description: String,
}

impl NoOpCompensation {
    /// An action with the given reason.
    pub fn new(description: &str) -> (c: Self)
        ensures
            c.description@ == description@,
    {
        NoOpCompensation { description: owned(description) }
    }
}

/// Undoes a command sent to a device by sending the opposite one.
pub struct SendCommandCompensation;

/// The pairs of opposite commands, each in both directions.
pub open spec fn opposite(c: Seq<char>) -> Option<Seq<char>> {
    if c == "on"@ || c == "turn_on"@ || c == "enable"@ {
        Some("off"@)
    } else if c == "off"@ || c == "turn_off"@ || c == "disable"@ {
        Some("on"@)
    } else if c == "open"@ {
        Some("close"@)
    } else if c == "close"@ {
        Some("open"@)
    } else if c == "start"@ {
        Some("stop"@)
    } else if c == "stop"@ {
        Some("start"@)
    } else if c == "activate"@ {
        Some("deactivate"@)
    } else if c == "deactivate"@ {
        Some("activate"@)
    } else if c == "lock"@ {
        Some("unlock"@)
    } else if c == "unlock"@ {
        Some("lock"@)
    } else {
        None
    }
}

/// The command that undoes `command`: the opposite of its lower-case form,
/// or `reverse_` before the command as given.
pub open spec fn spec_reverse(command: Seq<char>) -> Seq<char> {
    match opposite(spec_lowercase(command)) {
        Some(r) => r,
        None => "reverse_"@ + command,
    }
}

/// The commands that come in opposite pairs, as their canonical words.
pub open spec fn paired(c: Seq<char>) -> bool {
    c == "on"@ || c == "off"@ || c == "open"@ || c == "close"@ || c == "start"@ || c == "stop"@
        || c == "activate"@ || c == "deactivate"@ || c == "lock"@ || c == "unlock"@
}

fn pick(c: &str, a: &str, b: &str, c2: &str) -> (r: bool)
    ensures
        r == (c@ == a@ || c@ == b@ || c@ == c2@),
{
    same_text(c, a) || same_text(c, b) || same_text(c, c2)
}

impl SendCommandCompensation {
    /// The command that undoes `command`.
    pub fn reverse_command(command: &str) -> (r: String)
        ensures
            r@ == spec_reverse(command@),
    {
        let lowered = to_lowercase(command);
        let l = lowered.as_str();
        if pick(l, "on", "turn_on", "enable") {
            owned("off")
        } else if pick(l, "off", "turn_off", "disable") {
            owned("on")
        } else if same_text(l, "open") {
            owned("close")
        } else if same_text(l, "close") {
            owned("open")
        } else if same_text(l, "start") {
            owned("stop")
        } else if same_text(l, "stop") {
            owned("start")
        } else if same_text(l, "activate") {
            owned("deactivate")
        } else if same_text(l, "deactivate") {
            owned("activate")
        } else if same_text(l, "lock") {
            owned("unlock")
        } else if same_text(l, "unlock") {
            owned("lock")
        } else {
            cat("reverse_", command)
        }
    }
}

/// Reversing the opposite of a paired command gives the command back: for
/// the canonical words, undoing twice is doing nothing.
pub proof fn lemma_opposite_involutive(c: Seq<char>)
    requires
        paired(c),
    ensures
        opposite(c) matches Some(r) && opposite(r) == Some(c),
{
    if c == "on"@ {
        assert("on"@.len() != "off"@.len() && "turn_on"@.len() != "off"@.len() && "enable"@.len() != "off"@.len()) by { reveal_strlit("enable"); reveal_strlit("off"); reveal_strlit("on"); reveal_strlit("turn_on"); }
    }
    if c == "off"@ {
        assert("on"@.len() != "off"@.len() && "turn_on"@.len() != "off"@.len() && "enable"@.len() != "off"@.len()) by { reveal_strlit("enable"); reveal_strlit("off"); reveal_strlit("on"); reveal_strlit("turn_on"); }
    }
    if c == "open"@ {
        assert("on"@.len() != "open"@.len() && "turn_on"@.len() != "open"@.len() && "enable"@.len() != "open"@.len() && "off"@.len() != "open"@.len() && "turn_off"@.len() != "open"@.len() && "disable"@.len() != "open"@.len() && "on"@.len() != "close"@.len() && "turn_on"@.len() != "close"@.len() && "enable"@.len() != "close"@.len() && "off"@.len() != "close"@.len() && "turn_off"@.len() != "close"@.len() && "disable"@.len() != "close"@.len() && "open"@.len() != "close"@.len()) by { reveal_strlit("close"); reveal_strlit("disable"); reveal_strlit("enable"); reveal_strlit("off"); reveal_strlit("on"); reveal_strlit("open"); reveal_strlit("turn_off"); reveal_strlit("turn_on"); }
    }
    if c == "close"@ {
        assert("on"@.len() != "close"@.len() && "turn_on"@.len() != "close"@.len() && "enable"@.len() != "close"@.len() && "off"@.len() != "close"@.len() && "turn_off"@.len() != "close"@.len() && "disable"@.len() != "close"@.len() && "open"@.len() != "close"@.len() && "on"@.len() != "open"@.len() && "turn_on"@.len() != "open"@.len() && "enable"@.len() != "open"@.len() && "off"@.len() != "open"@.len() && "turn_off"@.len() != "open"@.len() && "disable"@.len() != "open"@.len()) by { reveal_strlit("close"); reveal_strlit("disable"); reveal_strlit("enable"); reveal_strlit("off"); reveal_strlit("on"); reveal_strlit("open"); reveal_strlit("turn_off"); reveal_strlit("turn_on"); }
    }
    if c == "start"@ {
        assert("on"@.len() != "start"@.len() && "turn_on"@.len() != "start"@.len() && "enable"@.len() != "start"@.len() && "off"@.len() != "start"@.len() && "turn_off"@.len() != "start"@.len() && "disable"@.len() != "start"@.len() && "open"@.len() != "start"@.len() && "close"@[0] != "start"@[0] && "on"@.len() != "stop"@.len() && "turn_on"@.len() != "stop"@.len() && "enable"@.len() != "stop"@.len() && "off"@.len() != "stop"@.len() && "turn_off"@.len() != "stop"@.len() && "disable"@.len() != "stop"@.len() && "open"@[0] != "stop"@[0] && "close"@.len() != "stop"@.len() && "start"@.len() != "stop"@.len()) by { reveal_strlit("close"); reveal_strlit("disable"); reveal_strlit("enable"); reveal_strlit("off"); reveal_strlit("on"); reveal_strlit("open"); reveal_strlit("start"); reveal_strlit("stop"); reveal_strlit("turn_off"); reveal_strlit("turn_on"); }
    }
    if c == "stop"@ {
        assert("on"@.len() != "stop"@.len() && "turn_on"@.len() != "stop"@.len() && "enable"@.len() != "stop"@.len() && "off"@.len() != "stop"@.len() && "turn_off"@.len() != "stop"@.len() && "disable"@.len() != "stop"@.len() && "open"@[0] != "stop"@[0] && "close"@.len() != "stop"@.len() && "start"@.len() != "stop"@.len() && "on"@.len() != "start"@.len() && "turn_on"@.len() != "start"@.len() && "enable"@.len() != "start"@.len() && "off"@.len() != "start"@.len() && "turn_off"@.len() != "start"@.len() && "disable"@.len() != "start"@.len() && "open"@.len() != "start"@.len() && "close"@[0] != "start"@[0]) by { reveal_strlit("close"); reveal_strlit("disable"); reveal_strlit("enable"); reveal_strlit("off"); reveal_strlit("on"); reveal_strlit("open"); reveal_strlit("start"); reveal_strlit("stop"); reveal_strlit("turn_off"); reveal_strlit("turn_on"); }
    }
    if c == "activate"@ {
        assert("on"@.len() != "activate"@.len() && "turn_on"@.len() != "activate"@.len() && "enable"@.len() != "activate"@.len() && "off"@.len() != "activate"@.len() && "turn_off"@[0] != "activate"@[0] && "disable"@.len() != "activate"@.len() && "open"@.len() != "activate"@.len() && "close"@.len() != "activate"@.len() && "start"@.len() != "activate"@.len() && "stop"@.len() != "activate"@.len() && "on"@.len() != "deactivate"@.len() && "turn_on"@.len() != "deactivate"@.len() && "enable"@.len() != "deactivate"@.len() && "off"@.len() != "deactivate"@.len() && "turn_off"@.len() != "deactivate"@.len() && "disable"@.len() != "deactivate"@.len() && "open"@.len() != "deactivate"@.len() && "close"@.len() != "deactivate"@.len() && "start"@.len() != "deactivate"@.len() && "stop"@.len() != "deactivate"@.len() && "activate"@.len() != "deactivate"@.len()) by { reveal_strlit("activate"); reveal_strlit("close"); reveal_strlit("deactivate"); reveal_strlit("disable"); reveal_strlit("enable"); reveal_strlit("off"); reveal_strlit("on"); reveal_strlit("open"); reveal_strlit("start"); reveal_strlit("stop"); reveal_strlit("turn_off"); reveal_strlit("turn_on"); }
    }
    if c == "deactivate"@ {
        assert("on"@.len() != "deactivate"@.len() && "turn_on"@.len() != "deactivate"@.len() && "enable"@.len() != "deactivate"@.len() && "off"@.len() != "deactivate"@.len() && "turn_off"@.len() != "deactivate"@.len() && "disable"@.len() != "deactivate"@.len() && "open"@.len() != "deactivate"@.len() && "close"@.len() != "deactivate"@.len() && "start"@.len() != "deactivate"@.len() && "stop"@.len() != "deactivate"@.len() && "activate"@.len() != "deactivate"@.len() && "on"@.len() != "activate"@.len() && "turn_on"@.len() != "activate"@.len() && "enable"@.len() != "activate"@.len() && "off"@.len() != "activate"@.len() && "turn_off"@[0] != "activate"@[0] && "disable"@.len() != "activate"@.len() && "open"@.len() != "activate"@.len() && "close"@.len() != "activate"@.len() && "start"@.len() != "activate"@.len() && "stop"@.len() != "activate"@.len()) by { reveal_strlit("activate"); reveal_strlit("close"); reveal_strlit("deactivate"); reveal_strlit("disable"); reveal_strlit("enable"); reveal_strlit("off"); reveal_strlit("on"); reveal_strlit("open"); reveal_strlit("start"); reveal_strlit("stop"); reveal_strlit("turn_off"); reveal_strlit("turn_on"); }
    }
    if c == "lock"@ {
        assert("on"@.len() != "lock"@.len() && "turn_on"@.len() != "lock"@.len() && "enable"@.len() != "lock"@.len() && "off"@.len() != "lock"@.len() && "turn_off"@.len() != "lock"@.len() && "disable"@.len() != "lock"@.len() && "open"@[0] != "lock"@[0] && "close"@.len() != "lock"@.len() && "start"@.len() != "lock"@.len() && "stop"@[0] != "lock"@[0] && "activate"@.len() != "lock"@.len() && "deactivate"@.len() != "lock"@.len() && "on"@.len() != "unlock"@.len() && "turn_on"@.len() != "unlock"@.len() && "enable"@[0] != "unlock"@[0] && "off"@.len() != "unlock"@.len() && "turn_off"@.len() != "unlock"@.len() && "disable"@.len() != "unlock"@.len() && "open"@.len() != "unlock"@.len() && "close"@.len() != "unlock"@.len() && "start"@.len() != "unlock"@.len() && "stop"@.len() != "unlock"@.len() && "activate"@.len() != "unlock"@.len() && "deactivate"@.len() != "unlock"@.len() && "lock"@.len() != "unlock"@.len()) by { reveal_strlit("activate"); reveal_strlit("close"); reveal_strlit("deactivate"); reveal_strlit("disable"); reveal_strlit("enable"); reveal_strlit("lock"); reveal_strlit("off"); reveal_strlit("on"); reveal_strlit("open"); reveal_strlit("start"); reveal_strlit("stop"); reveal_strlit("turn_off"); reveal_strlit("turn_on"); reveal_strlit("unlock"); }
    }
    if c == "unlock"@ {
        assert("on"@.len() != "unlock"@.len() && "turn_on"@.len() != "unlock"@.len() && "enable"@[0] != "unlock"@[0] && "off"@.len() != "unlock"@.len() && "turn_off"@.len() != "unlock"@.len() && "disable"@.len() != "unlock"@.len() && "open"@.len() != "unlock"@.len() && "close"@.len() != "unlock"@.len() && "start"@.len() != "unlock"@.len() && "stop"@.len() != "unlock"@.len() && "activate"@.len() != "unlock"@.len() && "deactivate"@.len() != "unlock"@.len() && "lock"@.len() != "unlock"@.len() && "on"@.len() != "lock"@.len() && "turn_on"@.len() != "lock"@.len() && "enable"@.len() != "lock"@.len() && "off"@.len() != "lock"@.len() && "turn_off"@.len() != "lock"@.len() && "disable"@.len() != "lock"@.len() && "open"@[0] != "lock"@[0] && "close"@.len() != "lock"@.len() && "start"@.len() != "lock"@.len() && "stop"@[0] != "lock"@[0] && "activate"@.len() != "lock"@.len() && "deactivate"@.len() != "lock"@.len()) by { reveal_strlit("activate"); reveal_strlit("close"); reveal_strlit("deactivate"); reveal_strlit("disable"); reveal_strlit("enable"); reveal_strlit("lock"); reveal_strlit("off"); reveal_strlit("on"); reveal_strlit("open"); reveal_strlit("start"); reveal_strlit("stop"); reveal_strlit("turn_off"); reveal_strlit("turn_on"); reveal_strlit("unlock"); }
    }
}

/// How a kind of step is undone.
pub enum CompensationKind {
    /// Nothing to undo, for the given reason.
    NoOp(NoOpCompensation),
    /// A log line stays written.
    Log,
    /// The alert is acknowledged.
    SendAlert,
    /// The opposite command is sent.
    SendCommand,
    /// The request is logged for review.
    HttpRequest,
    /// A compensating WebAssembly function runs.
    WasmExecution,
    /// The branch that ran is undone.
    Condition,
    /// Every completed branch is undone.
    Parallel,
}

/// What an undoing action says it does.
pub open spec fn kind_description(k: CompensationKind) -> Seq<char> {
    match k {
        CompensationKind::NoOp(n) => n.description@,
        CompensationKind::Log => "Log step compensation"@,
        CompensationKind::SendAlert => "Acknowledge sent alert"@,
        CompensationKind::SendCommand => "Send reverse command to device"@,
        CompensationKind::HttpRequest => "Log HTTP request for manual review"@,
        CompensationKind::WasmExecution => "Execute WASM compensation function"@,
        CompensationKind::Condition => "Compensate executed branch of condition"@,
        CompensationKind::Parallel => "Compensate all completed parallel steps"@,
    }
}

impl CompensationKind {
    /// What the action does.
    pub fn description(&self) -> (s: String)
        ensures
            s@ == kind_description(*self),
    {
        match self {
            CompensationKind::NoOp(n) => owned(n.description.as_str()),
            CompensationKind::Log => owned("Log step compensation"),
            CompensationKind::SendAlert => owned("Acknowledge sent alert"),
            CompensationKind::SendCommand => owned("Send reverse command to device"),
            CompensationKind::HttpRequest => owned("Log HTTP request for manual review"),
            CompensationKind::WasmExecution => owned("Execute WASM compensation function"),
            CompensationKind::Condition => owned("Compensate executed branch of condition"),
            CompensationKind::Parallel => owned("Compensate all completed parallel steps"),
        }
    }

    /// Whether the action may be tried again: alerts, commands and WebAssembly.
    pub fn retryable(&self) -> (b: bool)
        ensures
            b == (*self is SendAlert || *self is SendCommand || *self is WasmExecution),
    {
        match self {
            CompensationKind::SendAlert => true,
            CompensationKind::SendCommand => true,
            CompensationKind::WasmExecution => true,
            _ => false,
        }
    }
}

/// The descriptions of the default actions, registered in order.
pub open spec fn described_defaults() -> Map<Seq<char>, Seq<char>> {
    Map::<Seq<char>, Seq<char>>::empty()
        .insert("log"@, "Log step compensation"@)
        .insert("delay"@, "Delay step - no compensation needed"@)
        .insert("device_query"@, "Device query is read-only"@)
        .insert("send_alert"@, "Acknowledge sent alert"@)
        .insert("send_command"@, "Send reverse command to device"@)
        .insert("wait_for_device_state"@, "Wait operation - no compensation needed"@)
        .insert("http_request"@, "Log HTTP request for manual review"@)
        .insert("execute_wasm"@, "Execute WASM compensation function"@)
        .insert("data_query"@, "Data query is read-only"@)
        .insert("image_process"@, "Image processing - no compensation needed"@)
        .insert("condition"@, "Compensate executed branch of condition"@)
        .insert("parallel"@, "Compensate all completed parallel steps"@)
}

/// Which action undoes each kind of step, and what to do on failure.
pub struct CompensationRegistry {
    actions: Table<CompensationKind>,
    default_strategy: FailureStrategy,
}

impl CompensationRegistry {
    /// The undoing actions by step type, each as its description.
    pub closed spec fn described(&self) -> Map<Seq<char>, Seq<char>> {
        self.actions@.map_values(|k: CompensationKind| kind_description(k))
    }

    /// The failure strategy.
    pub closed spec fn strategy(&self) -> FailureStrategy {
        self.default_strategy
    }

    /// The registry with the built-in step types, undoing all on failure.
    pub fn new() -> (r: Self)
        ensures
            r.described() == described_defaults(),
            r.strategy() == FailureStrategy::CompensateAll,
    {
        let mut r = CompensationRegistry { actions: Table::new(), default_strategy: FailureStrategy::CompensateAll };
        r.register("log", CompensationKind::Log);
        r.register("delay", CompensationKind::NoOp(NoOpCompensation::new("Delay step - no compensation needed")));
        r.register("device_query", CompensationKind::NoOp(NoOpCompensation::new("Device query is read-only")));
        r.register("send_alert", CompensationKind::SendAlert);
        r.register("send_command", CompensationKind::SendCommand);
        r.register("wait_for_device_state", CompensationKind::NoOp(NoOpCompensation::new("Wait operation - no compensation needed")));
        r.register("http_request", CompensationKind::HttpRequest);
        r.register("execute_wasm", CompensationKind::WasmExecution);
        r.register("data_query", CompensationKind::NoOp(NoOpCompensation::new("Data query is read-only")));
        r.register("image_process", CompensationKind::NoOp(NoOpCompensation::new("Image processing - no compensation needed")));
        r.register("condition", CompensationKind::Condition);
        r.register("parallel", CompensationKind::Parallel);
        r
    }

    /// Registers the action that undoes a step type, replacing any before.
    pub fn register(&mut self, step_type: &str, action: CompensationKind)
        ensures
            final(self).described() == old(self).described().insert(step_type@, kind_description(action)),
            final(self).strategy() == old(self).strategy(),
    {
        self.actions.insert(owned(step_type), action);
        proof {
            assert(self.described() =~= old(self).described().insert(step_type@, kind_description(action)));
        }
    }

    /// The action that undoes a step type.
    pub fn get(&self, step_type: &str) -> (r: Option<&CompensationKind>)
        ensures
            r matches Some(k) ==> self.described().contains_key(step_type@)
                && self.described()[step_type@] == kind_description(*k),
            r is None ==> !self.described().contains_key(step_type@),
    {
        self.actions.get(step_type)
    }

    /// The same registry with another failure strategy.
    pub fn with_default_strategy(self, strategy: FailureStrategy) -> (r: Self)
        ensures
            r.described() == self.described(),
            r.strategy() == strategy,
    {
        CompensationRegistry { default_strategy: strategy, ..self }
    }

    /// The failure strategy.
    pub fn default_strategy(&self) -> (s: FailureStrategy)
        ensures
            s == self.strategy(),
    {
        self.default_strategy
    }

    /// The order in which completed steps are undone: the last completed
    /// first, each with the description of its action; fails on the first
    /// step, in that order, whose type has no action.
    pub fn plan(&self, step_types: &Vec<String>) -> (r: Result<Vec<usize>, WorkflowError>)
        ensures
            match r {
                Ok(order) => order@.len() == step_types@.len()
                    && (forall|i: int| 0 <= i < order@.len() ==> #[trigger] order@[i] == step_types@.len() - 1 - i)
                    && forall|i: int| 0 <= i < step_types@.len() ==> self.described().contains_key(#[trigger] step_types@[i]@),
                Err(e) => exists|j: int| 0 <= j < step_types@.len() && !self.described().contains_key(#[trigger] step_types@[j]@)
                    && (forall|k: int| j < k < step_types@.len() ==> self.described().contains_key(#[trigger] step_types@[k]@))
                    && (e matches WorkflowError::ExecutionError(m) && m@ == "No compensation action found for step type: "@ + step_types@[j]@),
            },
    {
        let n = step_types.len();
        let mut order: Vec<usize> = Vec::new();
        let mut k: usize = n;
        while k > 0
            invariant
                k <= n,
                n == step_types@.len(),
                order@.len() == n - k,
                forall|i: int| 0 <= i < order@.len() ==> #[trigger] order@[i] == n - 1 - i,
                forall|q: int| k <= q < n ==> self.described().contains_key(#[trigger] step_types@[q]@),
            decreases k,
        {
            let idx = k - 1;
            match self.get(step_types[idx].as_str()) {
                Some(_) => {},
                None => {
                    let m = cat("No compensation action found for step type: ", step_types[idx].as_str());
                    return Err(WorkflowError::ExecutionError(m));
                },
            }
            order.push(idx);
            k = idx;
        }
        Ok(order)
    }
}

/// What an undoing action reported: whether it succeeded, and its message
/// (an action that fails with an error reports no success and the error's text).
pub struct CompensationOutcome {
    pub succeeded: bool,
    pub message: String,
}

/// A completed step after its undoing: its result, whether it was undone,
/// and what its action reported.
pub struct CompensatedStep {
    pub result: StepResult,
    pub compensated: bool,
    pub outcome: CompensationOutcome,
}

/// Records the undoing of completed steps, given in the order they
/// completed, with what their actions reported in the order they ran (the
/// last completed first, as `plan` orders them): one entry per step, last
/// completed first, each marked undone exactly when its action succeeded.
pub fn record_compensation(completed: Vec<StepResult>, outcomes: &Vec<CompensationOutcome>) -> (r: Vec<CompensatedStep>)
    requires
        outcomes@.len() == completed@.len(),
    ensures
        r@.len() == completed@.len(),
        forall|i: int| 0 <= i < r@.len() ==> (#[trigger] r@[i]).result@ == completed@[completed@.len() - 1 - i]@
            && r@[i].compensated == outcomes@[i].succeeded
            && r@[i].outcome.succeeded == outcomes@[i].succeeded
            && r@[i].outcome.message@ == outcomes@[i].message@,
{
    let n = completed.len();
    let ghost all = completed@;
    let mut rest = completed;
    let mut r: Vec<CompensatedStep> = Vec::new();
    let mut i: usize = 0;
    while i < n
        invariant
            n == all.len(),
            outcomes@.len() == n,
            i <= n,
            rest@ == all.subrange(0, n - i),
            r@.len() == i,
            forall|k: int| 0 <= k < i ==> (#[trigger] r@[k]).result@ == all[n - 1 - k]@
                && r@[k].compensated == outcomes@[k].succeeded
                && r@[k].outcome.succeeded == outcomes@[k].succeeded
                && r@[k].outcome.message@ == outcomes@[k].message@,
        decreases n - i,
    {
        let step = rest.pop().unwrap();
        assert(step == all[n - 1 - i]);
        assert(rest@ =~= all.subrange(0, n - (i + 1)));
        let o = &outcomes[i];
        let outcome = CompensationOutcome { succeeded: o.succeeded, message: owned(o.message.as_str()) };
        r.push(CompensatedStep { result: step, compensated: o.succeeded, outcome });
        i = i + 1;
    }
    r
}

/// The built-in registry.
impl Default for CompensationRegistry {
    fn default() -> (r: Self)
        ensures
            r.strategy() == FailureStrategy::CompensateAll,
    {
        Self::new()
    }
}

} // verus!
