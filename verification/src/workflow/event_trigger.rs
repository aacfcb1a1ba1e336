//! Event-based workflow triggers: which events start a workflow, how events
//! are told apart, and the decision taken for each event received.
use vstd::prelude::*;
use crate::strmap::StringMap;
use crate::table::Table;
use crate::text::{cat, cat3, owned, same_text};

verus! {

/// The parts of a platform event that trigger logic reads.
pub enum NeoTalkEvent {
    DeviceOnline { device_id: String },
    DeviceOffline { device_id: String, reason: Option<String> },
    DeviceMetric { device_id: String, metric: String },
    DeviceCommandResult { device_id: String, command: String },
    RuleEvaluated { rule_id: String },
    RuleTriggered { rule_id: String },
    RuleExecuted { rule_id: String },
    WorkflowTriggered { workflow_id: String, execution_id: String },
    WorkflowStepCompleted { workflow_id: String, execution_id: String, step_id: String },
    WorkflowCompleted { workflow_id: String, execution_id: String },
    AlertCreated { alert_id: String },
    AlertAcknowledged { alert_id: String },
    PeriodicReviewTriggered { review_id: String },
    LlmDecisionProposed { decision_id: String },
    LlmDecisionExecuted { decision_id: String },
    UserMessage { session_id: String },
    LlmResponse { session_id: String },
    ToolExecutionStart { tool_name: String },
    ToolExecutionSuccess { tool_name: String },
    ToolExecutionFailure { tool_name: String },
}

/// The name of the kind of an event.
pub open spec fn event_kind(e: NeoTalkEvent) -> Seq<char> {
    match e {
        NeoTalkEvent::DeviceOnline { .. } => "DeviceOnline"@,
        NeoTalkEvent::DeviceOffline { .. } => "DeviceOffline"@,
        NeoTalkEvent::DeviceMetric { .. } => "DeviceMetric"@,
        NeoTalkEvent::DeviceCommandResult { .. } => "DeviceCommandResult"@,
        NeoTalkEvent::RuleEvaluated { .. } => "RuleEvaluated"@,
        NeoTalkEvent::RuleTriggered { .. } => "RuleTriggered"@,
        NeoTalkEvent::RuleExecuted { .. } => "RuleExecuted"@,
        NeoTalkEvent::WorkflowTriggered { .. } => "WorkflowTriggered"@,
        NeoTalkEvent::WorkflowStepCompleted { .. } => "WorkflowStepCompleted"@,
        NeoTalkEvent::WorkflowCompleted { .. } => "WorkflowCompleted"@,
        NeoTalkEvent::AlertCreated { .. } => "AlertCreated"@,
        NeoTalkEvent::AlertAcknowledged { .. } => "AlertAcknowledged"@,
        NeoTalkEvent::PeriodicReviewTriggered { .. } => "PeriodicReviewTriggered"@,
        NeoTalkEvent::LlmDecisionProposed { .. } => "LlmDecisionProposed"@,
        NeoTalkEvent::LlmDecisionExecuted { .. } => "LlmDecisionExecuted"@,
        NeoTalkEvent::UserMessage { .. } => "UserMessage"@,
        NeoTalkEvent::LlmResponse { .. } => "LlmResponse"@,
        NeoTalkEvent::ToolExecutionStart { .. } => "ToolExecutionStart"@,
        NeoTalkEvent::ToolExecutionSuccess { .. } => "ToolExecutionSuccess"@,
        NeoTalkEvent::ToolExecutionFailure { .. } => "ToolExecutionFailure"@,
    }
}

/// The wildcard pattern of the group an event belongs to.
pub open spec fn event_group(e: NeoTalkEvent) -> Seq<char> {
    match e {
        NeoTalkEvent::DeviceOnline { .. } | NeoTalkEvent::DeviceOffline { .. } | NeoTalkEvent::DeviceMetric { .. }
        | NeoTalkEvent::DeviceCommandResult { .. } => "Device*"@,
        NeoTalkEvent::RuleEvaluated { .. } | NeoTalkEvent::RuleTriggered { .. } | NeoTalkEvent::RuleExecuted { .. } => "Rule*"@,
        NeoTalkEvent::WorkflowTriggered { .. } | NeoTalkEvent::WorkflowStepCompleted { .. }
        | NeoTalkEvent::WorkflowCompleted { .. } => "Workflow*"@,
        NeoTalkEvent::AlertCreated { .. } | NeoTalkEvent::AlertAcknowledged { .. } => "Alert*"@,
        NeoTalkEvent::PeriodicReviewTriggered { .. } | NeoTalkEvent::LlmDecisionProposed { .. }
        | NeoTalkEvent::LlmDecisionExecuted { .. } => "LLM*"@,
        NeoTalkEvent::UserMessage { .. } | NeoTalkEvent::LlmResponse { .. } => "User*"@,
        NeoTalkEvent::ToolExecutionStart { .. } | NeoTalkEvent::ToolExecutionSuccess { .. }
        | NeoTalkEvent::ToolExecutionFailure { .. } => "Tool*"@,
    }
}

/// The identifying fields of an event, in the order its signature lists them.
pub open spec fn event_keys(e: NeoTalkEvent) -> Seq<Seq<char>> {
    match e {
        NeoTalkEvent::DeviceOnline { device_id } => seq![device_id@],
        NeoTalkEvent::DeviceOffline { device_id, reason } => seq![device_id@,
            match reason { Some(r) => r@, None => Seq::<char>::empty() }],
        NeoTalkEvent::DeviceMetric { device_id, metric } => seq![device_id@, metric@],
        NeoTalkEvent::DeviceCommandResult { device_id, command } => seq![device_id@, command@],
        NeoTalkEvent::RuleEvaluated { rule_id } => seq![rule_id@],
        NeoTalkEvent::RuleTriggered { rule_id } => seq![rule_id@],
        NeoTalkEvent::RuleExecuted { rule_id } => seq![rule_id@],
        NeoTalkEvent::WorkflowTriggered { workflow_id, execution_id } => seq![workflow_id@, execution_id@],
        NeoTalkEvent::WorkflowStepCompleted { workflow_id, execution_id, step_id } => seq![workflow_id@, execution_id@, step_id@],
        NeoTalkEvent::WorkflowCompleted { workflow_id, execution_id } => seq![workflow_id@, execution_id@],
        NeoTalkEvent::AlertCreated { alert_id } => seq![alert_id@],
        NeoTalkEvent::AlertAcknowledged { alert_id } => seq![alert_id@],
        NeoTalkEvent::PeriodicReviewTriggered { review_id } => seq![review_id@],
        NeoTalkEvent::LlmDecisionProposed { decision_id } => seq![decision_id@],
        NeoTalkEvent::LlmDecisionExecuted { decision_id } => seq![decision_id@],
        NeoTalkEvent::UserMessage { session_id } => seq![session_id@],
        NeoTalkEvent::LlmResponse { session_id } => seq![session_id@],
        NeoTalkEvent::ToolExecutionStart { tool_name } => seq![tool_name@],
        NeoTalkEvent::ToolExecutionSuccess { tool_name } => seq![tool_name@],
        NeoTalkEvent::ToolExecutionFailure { tool_name } => seq![tool_name@],
    }
}

/// `prefix` followed by `:` and each part.
pub open spec fn joined_with_colons(prefix: Seq<char>, parts: Seq<Seq<char>>) -> Seq<char>
    decreases parts.len(),
{
    if parts.len() == 0 {
        prefix
    } else {
        joined_with_colons(prefix, parts.drop_last()) + seq![':'] + parts.last()
    }
}

/// The signature of an event: its kind and identifying fields joined by `:`.
pub open spec fn spec_signature(e: NeoTalkEvent) -> Seq<char> {
    joined_with_colons(event_kind(e), event_keys(e))
}

/// Whether an event matches a type pattern: its kind, or its group wildcard.
pub fn matches_event_type(event: &NeoTalkEvent, pattern: &str) -> (b: bool)
    ensures
        b == (pattern@ == event_kind(*event) || pattern@ == event_group(*event)),
{
    let (kind, group) = match event {
        NeoTalkEvent::DeviceOnline { .. } => ("DeviceOnline", "Device*"),
        NeoTalkEvent::DeviceOffline { .. } => ("DeviceOffline", "Device*"),
        NeoTalkEvent::DeviceMetric { .. } => ("DeviceMetric", "Device*"),
        NeoTalkEvent::DeviceCommandResult { .. } => ("DeviceCommandResult", "Device*"),
        NeoTalkEvent::RuleEvaluated { .. } => ("RuleEvaluated", "Rule*"),
        NeoTalkEvent::RuleTriggered { .. } => ("RuleTriggered", "Rule*"),
        NeoTalkEvent::RuleExecuted { .. } => ("RuleExecuted", "Rule*"),
        NeoTalkEvent::WorkflowTriggered { .. } => ("WorkflowTriggered", "Workflow*"),
        NeoTalkEvent::WorkflowStepCompleted { .. } => ("WorkflowStepCompleted", "Workflow*"),
        NeoTalkEvent::WorkflowCompleted { .. } => ("WorkflowCompleted", "Workflow*"),
        NeoTalkEvent::AlertCreated { .. } => ("AlertCreated", "Alert*"),
        NeoTalkEvent::AlertAcknowledged { .. } => ("AlertAcknowledged", "Alert*"),
        NeoTalkEvent::PeriodicReviewTriggered { .. } => ("PeriodicReviewTriggered", "LLM*"),
        NeoTalkEvent::LlmDecisionProposed { .. } => ("LlmDecisionProposed", "LLM*"),
        NeoTalkEvent::LlmDecisionExecuted { .. } => ("LlmDecisionExecuted", "LLM*"),
        NeoTalkEvent::UserMessage { .. } => ("UserMessage", "User*"),
        NeoTalkEvent::LlmResponse { .. } => ("LlmResponse", "User*"),
        NeoTalkEvent::ToolExecutionStart { .. } => ("ToolExecutionStart", "Tool*"),
        NeoTalkEvent::ToolExecutionSuccess { .. } => ("ToolExecutionSuccess", "Tool*"),
        NeoTalkEvent::ToolExecutionFailure { .. } => ("ToolExecutionFailure", "Tool*"),
    };
    same_text(pattern, kind) || same_text(pattern, group)
}

/// Field filters of an event trigger.
pub struct EventFilters {
    pub device_id: Option<String>,
    pub metric: Option<String>,
    pub rule_id: Option<String>,
    pub custom_fields: StringMap,
}

/// Whether a present filter value equals the event's value.
pub open spec fn filter_ok(f: Option<String>, v: Seq<char>) -> bool {
    match f {
        Some(x) => x@ == v,
        None => true,
    }
}

/// Whether an event passes the filters: device metrics by device and metric,
/// rule triggers by rule, device online/offline by device; others always.
pub open spec fn spec_matches_filters(e: NeoTalkEvent, f: EventFilters) -> bool {
    match e {
        NeoTalkEvent::DeviceMetric { device_id, metric } => filter_ok(f.device_id, device_id@) && filter_ok(f.metric, metric@),
        NeoTalkEvent::RuleTriggered { rule_id } => filter_ok(f.rule_id, rule_id@),
        NeoTalkEvent::DeviceOnline { device_id } => filter_ok(f.device_id, device_id@),
        NeoTalkEvent::DeviceOffline { device_id, .. } => filter_ok(f.device_id, device_id@),
        _ => true,
    }
}

fn check_filter(f: &Option<String>, v: &String) -> (b: bool)
    ensures
        b == filter_ok(*f, v@),
{
    match f {
        Some(x) => *x == *v,
        None => true,
    }
}

/// Whether an event passes the filters.
pub fn matches_filters(event: &NeoTalkEvent, filters: &EventFilters) -> (b: bool)
    ensures
        b == spec_matches_filters(*event, *filters),
{
    match event {
        NeoTalkEvent::DeviceMetric { device_id, metric } => check_filter(&filters.device_id, device_id)
            && check_filter(&filters.metric, metric),
        NeoTalkEvent::RuleTriggered { rule_id } => check_filter(&filters.rule_id, rule_id),
        NeoTalkEvent::DeviceOnline { device_id } => check_filter(&filters.device_id, device_id),
        NeoTalkEvent::DeviceOffline { device_id, .. } => check_filter(&filters.device_id, device_id),
        _ => true,
    }
}

/// A device reading passes the filters exactly when a metric filter, if set,
/// names the reading's metric and a device filter, if set, names its device;
/// the rule filter plays no part.
pub proof fn lemma_metric_filters(device_id: String, metric: String, f: EventFilters)
    ensures
        spec_matches_filters(NeoTalkEvent::DeviceMetric { device_id, metric }, f) <==> (
            (f.metric matches Some(m) ==> m@ == metric@)
            && (f.device_id matches Some(d) ==> d@ == device_id@)),
{
}

/// A rule trigger passes the filters exactly when a rule filter, if set, names
/// that rule.
pub proof fn lemma_rule_filters(rule_id: String, f: EventFilters)
    ensures
        spec_matches_filters(NeoTalkEvent::RuleTriggered { rule_id }, f) <==> (f.rule_id matches Some(r) ==> r@ == rule_id@),
{
}

/// A device going on or off line passes the filters exactly when a device
/// filter, if set, names that device.
pub proof fn lemma_presence_filters(device_id: String, reason: Option<String>, f: EventFilters)
    ensures
        spec_matches_filters(NeoTalkEvent::DeviceOnline { device_id }, f) <==> (f.device_id matches Some(d) ==> d@ == device_id@),
        spec_matches_filters(NeoTalkEvent::DeviceOffline { device_id, reason }, f) <==> (f.device_id matches Some(d) ==> d@ == device_id@),
{
}

/// Events other than device readings, rule triggers and device presence pass
/// any filters.
pub proof fn lemma_unfiltered_kinds(e: NeoTalkEvent, f: EventFilters)
    requires
        !(e is DeviceMetric || e is RuleTriggered || e is DeviceOnline || e is DeviceOffline),
    ensures
        spec_matches_filters(e, f),
{
}

/// Filters with no device, metric or rule set let every event through.
pub proof fn lemma_empty_filters(e: NeoTalkEvent, f: EventFilters)
    requires
        f.device_id is None,
        f.metric is None,
        f.rule_id is None,
    ensures
        spec_matches_filters(e, f),
{
}

/// The name of the kind of an event.
pub fn kind_name(event: &NeoTalkEvent) -> (k: &'static str)
    ensures
        k@ == event_kind(*event),
{
    match event {
        NeoTalkEvent::DeviceOnline { .. } => "DeviceOnline",
        NeoTalkEvent::DeviceOffline { .. } => "DeviceOffline",
        NeoTalkEvent::DeviceMetric { .. } => "DeviceMetric",
        NeoTalkEvent::DeviceCommandResult { .. } => "DeviceCommandResult",
        NeoTalkEvent::RuleEvaluated { .. } => "RuleEvaluated",
        NeoTalkEvent::RuleTriggered { .. } => "RuleTriggered",
        NeoTalkEvent::RuleExecuted { .. } => "RuleExecuted",
        NeoTalkEvent::WorkflowTriggered { .. } => "WorkflowTriggered",
        NeoTalkEvent::WorkflowStepCompleted { .. } => "WorkflowStepCompleted",
        NeoTalkEvent::WorkflowCompleted { .. } => "WorkflowCompleted",
        NeoTalkEvent::AlertCreated { .. } => "AlertCreated",
        NeoTalkEvent::AlertAcknowledged { .. } => "AlertAcknowledged",
        NeoTalkEvent::PeriodicReviewTriggered { .. } => "PeriodicReviewTriggered",
        NeoTalkEvent::LlmDecisionProposed { .. } => "LlmDecisionProposed",
        NeoTalkEvent::LlmDecisionExecuted { .. } => "LlmDecisionExecuted",
        NeoTalkEvent::UserMessage { .. } => "UserMessage",
        NeoTalkEvent::LlmResponse { .. } => "LlmResponse",
        NeoTalkEvent::ToolExecutionStart { .. } => "ToolExecutionStart",
        NeoTalkEvent::ToolExecutionSuccess { .. } => "ToolExecutionSuccess",
        NeoTalkEvent::ToolExecutionFailure { .. } => "ToolExecutionFailure",
    }
}

fn one(a: &String) -> (v: Vec<String>)
    ensures
        v@.map_values(|s: String| s@) == seq![a@],
{
    let mut v: Vec<String> = Vec::new();
    v.push(a.clone());
    assert(v@.map_values(|s: String| s@) =~= seq![a@]);
    v
}

fn two(a: &String, b: &String) -> (v: Vec<String>)
    ensures
        v@.map_values(|s: String| s@) == seq![a@, b@],
{
    let mut v: Vec<String> = Vec::new();
    v.push(a.clone());
    v.push(b.clone());
    assert(v@.map_values(|s: String| s@) =~= seq![a@, b@]);
    v
}

fn three(a: &String, b: &String, c: &String) -> (v: Vec<String>)
    ensures
        v@.map_values(|s: String| s@) == seq![a@, b@, c@],
{
    let mut v: Vec<String> = Vec::new();
    v.push(a.clone());
    v.push(b.clone());
    v.push(c.clone());
    assert(v@.map_values(|s: String| s@) =~= seq![a@, b@, c@]);
    v
}

/// The identifying fields of an event.
fn keys_of(event: &NeoTalkEvent) -> (v: Vec<String>)
    ensures
        v@.map_values(|s: String| s@) == event_keys(*event),
{
    match event {
        NeoTalkEvent::DeviceOnline { device_id } => one(device_id),
        NeoTalkEvent::DeviceOffline { device_id, reason } => {
            let r = match reason {
                Some(x) => x.clone(),
                None => String::new(),
            };
            two(device_id, &r)
        },
        NeoTalkEvent::DeviceMetric { device_id, metric } => two(device_id, metric),
        NeoTalkEvent::DeviceCommandResult { device_id, command } => two(device_id, command),
        NeoTalkEvent::RuleEvaluated { rule_id } => one(rule_id),
        NeoTalkEvent::RuleTriggered { rule_id } => one(rule_id),
        NeoTalkEvent::RuleExecuted { rule_id } => one(rule_id),
        NeoTalkEvent::WorkflowTriggered { workflow_id, execution_id } => two(workflow_id, execution_id),
        NeoTalkEvent::WorkflowStepCompleted { workflow_id, execution_id, step_id } => three(workflow_id, execution_id, step_id),
        NeoTalkEvent::WorkflowCompleted { workflow_id, execution_id } => two(workflow_id, execution_id),
        NeoTalkEvent::AlertCreated { alert_id } => one(alert_id),
        NeoTalkEvent::AlertAcknowledged { alert_id } => one(alert_id),
        NeoTalkEvent::PeriodicReviewTriggered { review_id } => one(review_id),
        NeoTalkEvent::LlmDecisionProposed { decision_id } => one(decision_id),
        NeoTalkEvent::LlmDecisionExecuted { decision_id } => one(decision_id),
        NeoTalkEvent::UserMessage { session_id } => one(session_id),
        NeoTalkEvent::LlmResponse { session_id } => one(session_id),
        NeoTalkEvent::ToolExecutionStart { tool_name } => one(tool_name),
        NeoTalkEvent::ToolExecutionSuccess { tool_name } => one(tool_name),
        NeoTalkEvent::ToolExecutionFailure { tool_name } => one(tool_name),
    }
}

/// The signature telling events apart: kind and identifying fields joined by `:`.
pub fn event_signature(event: &NeoTalkEvent) -> (s: String)
    ensures
        s@ == spec_signature(*event),
{
    let keys = keys_of(event);
    let mut s = owned(kind_name(event));
    let ghost ks = event_keys(*event);
    let mut i: usize = 0;
    while i < keys.len()
        invariant
            i <= keys@.len(),
            keys@.map_values(|x: String| x@) == ks,
            s@ == joined_with_colons(event_kind(*event), ks.subrange(0, i as int)),
        decreases keys@.len() - i,
    {
        crate::text::push_char(&mut s, ':');
        s.append(keys[i].as_str());
        assert(ks.subrange(0, i + 1).drop_last() =~= ks.subrange(0, i as int));
        assert(ks.subrange(0, i + 1).last() == keys@[i as int]@);
        i = i + 1;
    }
    assert(ks.subrange(0, i as int) =~= ks);
    s
}

impl EventFilters {
    /// Whether no filter is set.
    pub open spec fn spec_is_empty(&self) -> bool {
        self.device_id is None && self.metric is None && self.rule_id is None && self.custom_fields@.dom() == Set::<Seq<char>>::empty()
    }

    /// No filters.
    pub fn new() -> (f: Self)
        ensures
            f.spec_is_empty(),
            f.custom_fields.pairs().len() == 0,
    {
        EventFilters { device_id: None, metric: None, rule_id: None, custom_fields: StringMap::new() }
    }

    /// Adds a device filter.
    pub fn with_device_id(self, device_id: &str) -> (f: Self)
        ensures
            opt_text_of(f.device_id) == Some(device_id@),
            f.metric == self.metric,
            f.rule_id == self.rule_id,
            f.custom_fields@ == self.custom_fields@,
    {
        EventFilters { device_id: Some(owned(device_id)), ..self }
    }

    /// Adds a metric filter.
    pub fn with_metric(self, metric: &str) -> (f: Self)
        ensures
            opt_text_of(f.metric) == Some(metric@),
            f.device_id == self.device_id,
            f.rule_id == self.rule_id,
            f.custom_fields@ == self.custom_fields@,
    {
        EventFilters { metric: Some(owned(metric)), ..self }
    }

    /// Adds a custom field filter.
    pub fn with_custom(self, key: &str, value: &str) -> (f: Self)
        ensures
            f.custom_fields@ == self.custom_fields@.insert(key@, value@),
            f.device_id == self.device_id,
            f.metric == self.metric,
            f.rule_id == self.rule_id,
    {
        let mut s = self;
        s.custom_fields.insert(owned(key), owned(value));
        s
    }

    /// Whether no filter is set.
    pub fn is_empty(&self) -> (b: bool)
        ensures
            b == self.spec_is_empty(),
    {
        self.device_id.is_none() && self.metric.is_none() && self.rule_id.is_none() && self.custom_fields.is_empty()
    }

    /// A copy with the same filters.
    pub fn duplicate(&self) -> (f: Self)
        ensures
            opt_text_of(f.device_id) == opt_text_of(self.device_id),
            opt_text_of(f.metric) == opt_text_of(self.metric),
            opt_text_of(f.rule_id) == opt_text_of(self.rule_id),
            f.custom_fields@ == self.custom_fields@,
    {
        EventFilters {
            device_id: copy_text(&self.device_id),
            metric: copy_text(&self.metric),
            rule_id: copy_text(&self.rule_id),
            custom_fields: self.custom_fields.duplicate(),
        }
    }
}

/// No filters (the default).
impl Default for EventFilters {
    fn default() -> (f: Self)
        ensures
            f.spec_is_empty(),
    {
        Self::new()
    }
}

/// The characters of an optional text.
pub open spec fn opt_text_of(o: Option<String>) -> Option<Seq<char>> {
    match o {
        Some(s) => Some(s@),
        None => None,
    }
}

fn copy_text(o: &Option<String>) -> (r: Option<String>)
    ensures
        r == *o,
{
    match o {
        Some(s) => Some(s.clone()),
        None => None,
    }
}

/// Whether two filter sets hold the same filters.
pub open spec fn same_filters(a: EventFilters, b: EventFilters) -> bool {
    &&& opt_text_of(a.device_id) == opt_text_of(b.device_id)
    &&& opt_text_of(a.metric) == opt_text_of(b.metric)
    &&& opt_text_of(a.rule_id) == opt_text_of(b.rule_id)
    &&& a.custom_fields@ == b.custom_fields@
}

/// Whether a trigger fires only once per combination of filter values, by default.
pub fn default_trigger_once() -> (b: bool)
    ensures
        !b,
{
    false
}

/// Which events start a workflow.
pub struct EventTriggerConfig {
    /// Event kind or group wildcard, e.g. `DeviceMetric` or `Device*`.
    pub event_type: String,
    pub filters: Option<EventFilters>,
    pub trigger_once: bool,
}

impl EventTriggerConfig {
    /// A configuration for events of the given type, without filters.
    pub fn new(event_type: &str) -> (c: Self)
        ensures
            c.event_type@ == event_type@,
            c.filters is None,
            !c.trigger_once,
    {
        EventTriggerConfig { event_type: owned(event_type), filters: None, trigger_once: false }
    }

    /// Adds filters.
    pub fn with_filters(self, filters: EventFilters) -> (c: Self)
        ensures
            c.event_type == self.event_type,
            c.filters == Some(filters),
            c.trigger_once == self.trigger_once,
    {
        EventTriggerConfig { filters: Some(filters), ..self }
    }

    /// Sets whether to trigger only once.
    pub fn with_trigger_once(self, trigger_once: bool) -> (c: Self)
        ensures
            c.event_type == self.event_type,
            c.filters == self.filters,
            c.trigger_once == trigger_once,
    {
        EventTriggerConfig { trigger_once, ..self }
    }
}

/// Watches events for one workflow and decides when it is triggered.
pub struct EventTrigger {
    config: EventTriggerConfig,
    filters: EventFilters,
    workflow_id: String,
    trigger_id: String,
    running: bool,
    seen: Table<bool>,
}

/// Whether an event triggers the workflow given the signatures already seen:
/// it must match the type and the filters, and with no filters set its
/// signature must not have been seen.
pub open spec fn fires(config: EventTriggerConfig, filters: EventFilters, seen: Set<Seq<char>>, e: NeoTalkEvent) -> bool {
    &&& (config.event_type@ == event_kind(e) || config.event_type@ == event_group(e))
    &&& spec_matches_filters(e, filters)
    &&& !(filters.spec_is_empty() && seen.contains(spec_signature(e)))
}

impl EventTrigger {
    /// The configuration.
    pub closed spec fn config_view(&self) -> EventTriggerConfig {
        self.config
    }

    /// The filters in force (none when the configuration has none).
    pub closed spec fn filters_view(&self) -> EventFilters {
        self.filters
    }

    /// The signatures of events that triggered the workflow.
    pub closed spec fn seen_view(&self) -> Set<Seq<char>> {
        self.seen@.dom()
    }

    /// The trigger id, `event:<workflow>:<suffix>`.
    pub closed spec fn id_view(&self) -> Seq<char> {
        self.trigger_id@
    }

    /// The workflow that the trigger starts.
    pub closed spec fn workflow_view(&self) -> Seq<char> {
        self.workflow_id@
    }

    /// Whether the trigger is watching events.
    pub closed spec fn running_view(&self) -> bool {
        self.running
    }

    /// A stopped trigger for a workflow; `unique` distinguishes it from
    /// other triggers of the same workflow.
    pub fn new(workflow_id: &str, config: EventTriggerConfig, unique: &str) -> (t: Self)
        ensures
            t.id_view() == "event:"@ + workflow_id@ + ":"@ + unique@,
            t.workflow_view() == workflow_id@,
            t.config_view() == config,
            config.filters is None ==> t.filters_view().spec_is_empty(),
            config.filters matches Some(f) ==> same_filters(t.filters_view(), f),
            !t.running_view(),
            t.seen_view() == Set::<Seq<char>>::empty(),
    {
        let filters = match &config.filters {
            Some(f) => f.duplicate(),
            None => EventFilters::new(),
        };
        let t = EventTrigger {
            config,
            filters,
            workflow_id: owned(workflow_id),
            trigger_id: cat(cat3("event:", workflow_id, ":").as_str(), unique),
            running: false,
            seen: Table::new(),
        };
        t
    }

    /// The trigger id.
    pub fn id(&self) -> (s: &str)
        ensures
            s@ == self.id_view(),
    {
        self.trigger_id.as_str()
    }

    /// The workflow id.
    pub fn workflow_id(&self) -> (s: &str)
        ensures
            s@ == self.workflow_view(),
    {
        self.workflow_id.as_str()
    }

    /// Whether the trigger is watching events.
    pub fn is_running(&self) -> (b: bool)
        ensures
            b == self.running_view(),
    {
        self.running
    }

    /// Starts watching; returns whether it was stopped before.
    pub fn start(&mut self) -> (started: bool)
        ensures
            started == !old(self).running_view(),
            final(self).running_view(),
            final(self).seen_view() == old(self).seen_view(),
            final(self).config_view() == old(self).config_view(),
            final(self).filters_view() == old(self).filters_view(),
    {
        if self.running {
            return false;
        }
        self.running = true;
        true
    }

    /// Stops watching.
    pub fn stop(&mut self)
        ensures
            !final(self).running_view(),
            final(self).seen_view() == old(self).seen_view(),
            final(self).config_view() == old(self).config_view(),
            final(self).filters_view() == old(self).filters_view(),
    {
        self.running = false;
    }

    /// Decides whether an event received triggers the workflow, and records
    /// the signature of an event that does.
    pub fn on_event(&mut self, event: &NeoTalkEvent) -> (fired: bool)
        ensures
            fired == fires(old(self).config_view(), old(self).filters_view(), old(self).seen_view(), *event),
            fired ==> final(self).seen_view() == old(self).seen_view().insert(spec_signature(*event)),
            final(self).id_view() == old(self).id_view(),
            final(self).workflow_view() == old(self).workflow_view(),
            !fired ==> final(self).seen_view() == old(self).seen_view(),
            final(self).config_view() == old(self).config_view(),
            final(self).filters_view() == old(self).filters_view(),
            final(self).running_view() == old(self).running_view(),
    {
        if !matches_event_type(event, self.config.event_type.as_str()) {
            return false;
        }
        if !matches_filters(event, &self.filters) {
            return false;
        }
        let signature = event_signature(event);
        if self.filters.is_empty() && self.seen.contains_key(signature.as_str()) {
            return false;
        }
        self.seen.insert(signature, true);
        assert(self.seen@.dom() =~= old(self).seen@.dom().insert(spec_signature(*event)));
        true
    }
}

/// Keeps the event triggers of all workflows.
pub struct EventTriggerManager {
    triggers: Vec<EventTrigger>,
    running: bool,
}

impl EventTriggerManager {
    /// The triggers, in registration order.
    pub closed spec fn triggers_view(&self) -> Seq<EventTrigger> {
        self.triggers@
    }

    /// Whether the manager has been started.
    pub closed spec fn running_view(&self) -> bool {
        self.running
    }

    /// A manager with no triggers, stopped.
    pub fn new() -> (m: Self)
        ensures
            m.triggers_view().len() == 0,
            !m.running_view(),
    {
        EventTriggerManager { triggers: Vec::new(), running: false }
    }

    /// Registers a trigger for a workflow; returns its id.
    pub fn register_trigger(&mut self, workflow_id: &str, config: EventTriggerConfig, unique: &str) -> (id: String)
        ensures
            final(self).triggers_view().len() == old(self).triggers_view().len() + 1,
            final(self).triggers_view().subrange(0, old(self).triggers_view().len() as int) == old(self).triggers_view(),
            final(self).triggers_view().last().workflow_view() == workflow_id@,
            final(self).triggers_view().last().config_view() == config,
            id@ == final(self).triggers_view().last().id_view(),
            final(self).running_view() == old(self).running_view(),
    {
        let t = EventTrigger::new(workflow_id, config, unique);
        let id = t.trigger_id.clone();
        self.triggers.push(t);
        assert(self.triggers@.subrange(0, old(self).triggers@.len() as int) =~= old(self).triggers@);
        id
    }

    /// Starts the manager and every trigger; does nothing when already running.
    pub fn start_all(&mut self)
        ensures
            final(self).running_view(),
            final(self).triggers_view().len() == old(self).triggers_view().len(),
            !old(self).running_view() ==> forall|i: int| 0 <= i < final(self).triggers_view().len()
                ==> (#[trigger] final(self).triggers_view()[i]).running_view(),
            old(self).running_view() ==> final(self).triggers_view() == old(self).triggers_view(),
    {
        if self.running {
            return;
        }
        self.running = true;
        let mut i: usize = 0;
        while i < self.triggers.len()
            invariant
                i <= self.triggers@.len(),
                self.triggers@.len() == old(self).triggers@.len(),
                self.running,
                forall|j: int| 0 <= j < i ==> (#[trigger] self.triggers@[j]).running,
            decreases self.triggers@.len() - i,
        {
            let mut t = self.triggers.remove(i);
            t.running = true;
            self.triggers.insert(i, t);
            i = i + 1;
        }
    }

    /// Stops the manager and every trigger.
    pub fn stop_all(&mut self)
        ensures
            !final(self).running_view(),
            final(self).triggers_view().len() == old(self).triggers_view().len(),
            forall|i: int| 0 <= i < final(self).triggers_view().len() ==> !(#[trigger] final(self).triggers_view()[i]).running_view(),
    {
        self.running = false;
        let mut i: usize = 0;
        while i < self.triggers.len()
            invariant
                i <= self.triggers@.len(),
                self.triggers@.len() == old(self).triggers@.len(),
                !self.running,
                forall|j: int| 0 <= j < i ==> !(#[trigger] self.triggers@[j]).running,
            decreases self.triggers@.len() - i,
        {
            let mut t = self.triggers.remove(i);
            t.running = false;
            self.triggers.insert(i, t);
            i = i + 1;
        }
    }

    /// Whether the manager has been started.
    pub fn is_running(&self) -> (b: bool)
        ensures
            b == self.running_view(),
    {
        self.running
    }

    /// The number of registered triggers.
    pub fn len(&self) -> (n: usize)
        ensures
            n == self.triggers_view().len(),
    {
        self.triggers.len()
    }

    /// The ids of all triggers, in registration order.
    pub fn trigger_ids(&self) -> (r: Vec<String>)
        ensures
            r@.len() == self.triggers_view().len(),
            forall|i: int| 0 <= i < r@.len() ==> #[trigger] r@[i]@ == self.triggers_view()[i].id_view(),
    {
        let mut r: Vec<String> = Vec::new();
        let mut i: usize = 0;
        while i < self.triggers.len()
            invariant
                i <= self.triggers@.len(),
                r@.len() == i,
                forall|j: int| 0 <= j < i ==> #[trigger] r@[j]@ == self.triggers@[j].trigger_id@,
            decreases self.triggers@.len() - i,
        {
            r.push(self.triggers[i].trigger_id.clone());
            i = i + 1;
        }
        r
    }

    /// The ids of the triggers of one workflow, in registration order.
    pub fn get_workflow_triggers(&self, workflow_id: &str) -> (r: Vec<String>)
        ensures
            r@.map_values(|s: String| s@) == trigger_ids_of(self.triggers_view(), workflow_id@),
    {
        let mut r: Vec<String> = Vec::new();
        let mut i: usize = 0;
        while i < self.triggers.len()
            invariant
                i <= self.triggers@.len(),
                r@.map_values(|s: String| s@) == trigger_ids_of(self.triggers@.subrange(0, i as int), workflow_id@),
            decreases self.triggers@.len() - i,
        {
            let ghost prev = r@;
            assert(self.triggers@.subrange(0, i + 1).drop_last() =~= self.triggers@.subrange(0, i as int));
            if same_text(self.triggers[i].workflow_id.as_str(), workflow_id) {
                r.push(self.triggers[i].trigger_id.clone());
                assert(r@.map_values(|s: String| s@) =~= prev.map_values(|s: String| s@).push(self.triggers@[i as int].trigger_id@));
            }
            i = i + 1;
        }
        assert(self.triggers@.subrange(0, i as int) =~= self.triggers@);
        r
    }

    /// Passes an event to every running trigger; returns the ids of the
    /// workflows triggered, in registration order.
    pub fn dispatch(&mut self, event: &NeoTalkEvent) -> (fired: Vec<String>)
        ensures
            fired@.map_values(|s: String| s@) == fired_workflows(old(self).triggers_view(), *event),
            final(self).triggers_view().len() == old(self).triggers_view().len(),
            forall|i: int| 0 <= i < final(self).triggers_view().len() ==>
                after_event(old(self).triggers_view()[i], #[trigger] final(self).triggers_view()[i], *event),
            final(self).running_view() == old(self).running_view(),
    {
        let ghost start = self.triggers@;
        let mut fired: Vec<String> = Vec::new();
        let mut i: usize = 0;
        while i < self.triggers.len()
            invariant
                i <= self.triggers@.len(),
                self.triggers@.len() == start.len(),
                start == old(self).triggers@,
                self.running == old(self).running,
                forall|j: int| 0 <= j < i ==> after_event(start[j], #[trigger] self.triggers@[j], *event),
                forall|j: int| i <= j < start.len() ==> #[trigger] self.triggers@[j] == start[j],
                fired@.map_values(|s: String| s@) == fired_workflows(start.subrange(0, i as int), *event),
            decreases self.triggers@.len() - i,
        {
            let ghost before = self.triggers@;
            let ghost prev = fired@;
            let mut t = self.triggers.remove(i);
            assert(t == start[i as int]);
            if t.running && t.on_event(event) {
                fired.push(t.workflow_id.clone());
                assert(fired@.map_values(|s: String| s@) =~= prev.map_values(|s: String| s@).push(start[i as int].workflow_view()));
            } else {
                assert(fired@.map_values(|s: String| s@) =~= prev.map_values(|s: String| s@));
            }
            assert(after_event(start[i as int], t, *event));
            self.triggers.insert(i, t);
            assert(start.subrange(0, i + 1).drop_last() =~= start.subrange(0, i as int));
            assert forall|j: int| 0 <= j < i + 1 implies after_event(start[j], #[trigger] self.triggers@[j], *event) by {
                if j < i {
                    assert(self.triggers@[j] == before[j]);
                }
            }
            assert forall|j: int| i + 1 <= j < start.len() implies #[trigger] self.triggers@[j] == start[j] by {
                assert(self.triggers@[j] == before[j]);
            }
            i = i + 1;
        }
        assert(start.subrange(0, i as int) =~= start);
        fired
    }
}

/// The workflows that an event triggers, in order: those of the running
/// triggers that it fires.
pub open spec fn fired_workflows(ts: Seq<EventTrigger>, e: NeoTalkEvent) -> Seq<Seq<char>>
    decreases ts.len(),
{
    if ts.len() == 0 {
        Seq::<Seq<char>>::empty()
    } else {
        let r = fired_workflows(ts.drop_last(), e);
        let t = ts.last();
        if t.running_view() && fires(t.config_view(), t.filters_view(), t.seen_view(), e) { r.push(t.workflow_view()) } else { r }
    }
}

/// A trigger after an event passed by: unchanged, but a running trigger
/// that the event fires remembers the event's signature.
pub open spec fn after_event(before: EventTrigger, after: EventTrigger, e: NeoTalkEvent) -> bool {
    &&& after.id_view() == before.id_view()
    &&& after.workflow_view() == before.workflow_view()
    &&& after.config_view() == before.config_view()
    &&& after.filters_view() == before.filters_view()
    &&& after.running_view() == before.running_view()
    &&& after.seen_view() == if before.running_view() && fires(before.config_view(), before.filters_view(), before.seen_view(), e) {
        before.seen_view().insert(spec_signature(e))
    } else {
        before.seen_view()
    }
}

/// The ids of the triggers of one workflow, in order.
pub open spec fn trigger_ids_of(t: Seq<EventTrigger>, workflow_id: Seq<char>) -> Seq<Seq<char>>
    decreases t.len(),
{
    if t.len() == 0 {
        Seq::<Seq<char>>::empty()
    } else {
        let r = trigger_ids_of(t.drop_last(), workflow_id);
        if t.last().workflow_view() == workflow_id { r.push(t.last().id_view()) } else { r }
    }
}

} // verus!
