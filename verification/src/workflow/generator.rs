//! Drafting a workflow from a natural-language description by simple rules:
//! what triggers it, which devices it touches, what it does and under which
//! condition.
use vstd::prelude::*;
use crate::json::Json;
use crate::table::Table;
use crate::text::{
    cat, cat3, chars_of, contains_text, owned, spec_contains, spec_lowercase, spec_trim, starts_with_text,
    string_of, to_lowercase, trim_chars, u64_text, decimal,
};
use crate::ids::new_uuid;
use crate::workflow::templates::{opt_text, texts};

verus! {

/// How a drafted workflow is started.
#[derive(Clone, Copy, Debug, PartialEq, Eq, Structural)]
pub enum WorkflowTriggerType {
    Cron,
    Device,
    Manual,
}

/// What a drafted workflow does; a custom action names its command.
#[derive(Debug)]
pub enum WorkflowAction {
    TurnOn,
    TurnOff,
    Alert,
    Report,
    Custom(String),
}

/// An action as plain values.
pub ghost enum ActionView {
    TurnOn,
    TurnOff,
    Alert,
    Report,
    Custom(Seq<char>),
}

impl View for WorkflowAction {
    type V = ActionView;

    open spec fn view(&self) -> ActionView {
        match self {
            WorkflowAction::TurnOn => ActionView::TurnOn,
            WorkflowAction::TurnOff => ActionView::TurnOff,
            WorkflowAction::Alert => ActionView::Alert,
            WorkflowAction::Report => ActionView::Report,
            WorkflowAction::Custom(c) => ActionView::Custom(c@),
        }
    }
}

/// A threshold on a metric that gates the action.
pub struct Condition {
    pub metric: String,
    pub operator: String,
    pub threshold: u32,
}

/// What the rules read from a description.
pub struct ExtractedWorkflowInfo {
    pub name: String,
    pub description: String,
    pub trigger_type: WorkflowTriggerType,
    pub cron_expression: Option<String>,
    pub devices: Vec<String>,
    pub action: WorkflowAction,
    pub condition: Option<Condition>,
}

/// A device known to the caller.
pub struct DeviceInfo {
    pub id: String,
    pub name: String,
    pub device_type: String,
}

/// What the caller knows about its installation.
pub struct ValidationContext {
    pub devices: Table<DeviceInfo>,
    pub metrics: Vec<String>,
    pub alert_channels: Vec<String>,
}

/// An empty context.
impl Default for ValidationContext {
    fn default() -> (c: Self)
        ensures
            c.devices@ == Map::<Seq<char>, DeviceInfo>::empty(),
            c.metrics@.len() == 0,
            c.alert_channels@.len() == 0,
    {
        ValidationContext { devices: Table::new(), metrics: Vec::new(), alert_channels: Vec::new() }
    }
}

/// Drafts workflows from descriptions by simple rules.
pub struct WorkflowGenerator;

/// A change the user may want to make to a draft.
pub struct SuggestedEdit {
    pub field: String,
    pub current_value: String,
    pub suggested_value: String,
    pub reason: String,
}

/// A drafted workflow: the document, an explanation, a confidence in
/// percent, suggested edits and warnings.
pub struct GeneratedWorkflow {
    pub workflow: Json,
    pub explanation: String,
    pub confidence_percent: u32,
    pub suggested_edits: Vec<SuggestedEdit>,
    pub warnings: Vec<String>,
}

// ---------------------------------------------------------------- reading

/// How the workflow is triggered, read from the lower-cased description.
pub open spec fn spec_trigger(lower: Seq<char>) -> WorkflowTriggerType {
    if spec_contains(lower, "定时"@) || spec_contains(lower, "每天"@) || spec_contains(lower, "cron"@) {
        WorkflowTriggerType::Cron
    } else if spec_contains(lower, "当"@) || spec_contains(lower, "时"@) || spec_contains(lower, "如果"@) {
        WorkflowTriggerType::Device
    } else {
        WorkflowTriggerType::Manual
    }
}

/// The schedule, read from the lower-cased description.
pub open spec fn spec_cron(lower: Seq<char>) -> Option<Seq<char>> {
    if spec_contains(lower, "每5分钟"@) || spec_contains(lower, "5分钟"@) {
        Some("*/5 * * * *"@)
    } else if spec_contains(lower, "每小时"@) || spec_contains(lower, "1小时"@) {
        Some("0 * * * *"@)
    } else if spec_contains(lower, "每天"@) {
        if spec_contains(lower, "8点"@) || spec_contains(lower, "早上"@) {
            Some("0 8 * * *"@)
        } else if spec_contains(lower, "18点"@) || spec_contains(lower, "晚上"@) {
            Some("0 18 * * *"@)
        } else {
            Some("0 0 * * *"@)
        }
    } else {
        None
    }
}

/// The devices named in the description (as written, not lower-cased).
pub open spec fn spec_devices(desc: Seq<char>) -> Seq<Seq<char>> {
    let first: Seq<Seq<char>> = if spec_contains(desc, "设备"@) { seq!["device1"@] } else { Seq::empty() };
    if spec_contains(desc, "传感器"@) || spec_contains(desc, "sensor"@) {
        first.push("sensor1"@)
    } else {
        first
    }
}

/// The action, read from the lower-cased description.
pub open spec fn spec_action(lower: Seq<char>) -> ActionView {
    if spec_contains(lower, "开灯"@) || spec_contains(lower, "打开"@) {
        ActionView::TurnOn
    } else if spec_contains(lower, "关灯"@) || spec_contains(lower, "关闭"@) {
        ActionView::TurnOff
    } else if spec_contains(lower, "告警"@) || spec_contains(lower, "通知"@) {
        ActionView::Alert
    } else if spec_contains(lower, "上报"@) || spec_contains(lower, "发送"@) {
        ActionView::Report
    } else {
        ActionView::Custom("custom_action"@)
    }
}

/// Whether the description speaks of exceeding something.
pub open spec fn exceeds(lower: Seq<char>) -> bool {
    spec_contains(lower, "超过"@) || spec_contains(lower, "大于"@)
}

/// The metric and threshold of the condition (always with `>`), read from
/// the lower-cased description.
pub open spec fn spec_condition(lower: Seq<char>) -> Option<(Seq<char>, nat)> {
    if spec_contains(lower, "温度"@) && exceeds(lower) {
        Some(("temperature"@, 50))
    } else if spec_contains(lower, "湿度"@) && exceeds(lower) {
        Some(("humidity"@, 80))
    } else {
        None
    }
}

/// A condition as its metric and threshold, with `>` as its operator.
pub open spec fn condition_view(c: Option<Condition>) -> Option<(Seq<char>, nat)> {
    match c {
        Some(c) => Some((c.metric@, c.threshold as nat)),
        None => None,
    }
}

/// Whether a condition uses `>`.
pub open spec fn greater_than(c: Option<Condition>) -> bool {
    c matches Some(c) ==> c.operator@ == ">"@
}

/// Whether a character ends the name part of a description.
pub open spec fn is_name_break(c: char) -> bool {
    c == '，' || c == ',' || c == '\n'
}

/// The position of the first name break at or after `i`, or the length.
pub open spec fn name_end(s: Seq<char>, i: int) -> int
    decreases s.len() - i,
{
    if i < 0 || i >= s.len() {
        s.len() as int
    } else if is_name_break(s[i]) {
        i
    } else {
        name_end(s, i + 1)
    }
}

/// The name of a drafted workflow: the description up to its first comma or
/// line break, trimmed, and cut to 17 characters and `...` beyond 20.
pub open spec fn spec_name(desc: Seq<char>) -> Seq<char> {
    let first = spec_trim(desc.subrange(0, name_end(desc, 0)));
    if first.len() <= 20 {
        first
    } else {
        first.subrange(0, 17) + "..."@
    }
}

/// Whether `x` is what the rules read from `desc`.
pub open spec fn read_from(x: ExtractedWorkflowInfo, desc: Seq<char>) -> bool {
    let lower = spec_lowercase(desc);
    &&& x.name@ == spec_name(desc)
    &&& x.description@ == desc
    &&& x.trigger_type == spec_trigger(lower)
    &&& opt_text(x.cron_expression) == spec_cron(lower)
    &&& texts(x.devices@) == spec_devices(desc)
    &&& x.action@ == spec_action(lower)
    &&& condition_view(x.condition) == spec_condition(lower)
    &&& greater_than(x.condition)
}

proof fn lemma_name_end(s: Seq<char>, i: int)
    requires
        0 <= i <= s.len(),
    ensures
        i <= name_end(s, i) <= s.len(),
        forall|j: int| i <= j < name_end(s, i) ==> !is_name_break(#[trigger] s[j]),
        name_end(s, i) < s.len() ==> is_name_break(s[name_end(s, i)]),
    decreases s.len() - i,
{
    if i < s.len() && !is_name_break(s[i]) {
        lemma_name_end(s, i + 1);
    }
}

fn contains_any(s: &str, a: &str, b: &str, c: &str) -> (r: bool)
    ensures
        r == (spec_contains(s@, a@) || spec_contains(s@, b@) || spec_contains(s@, c@)),
{
    contains_text(s, a) || contains_text(s, b) || contains_text(s, c)
}

impl WorkflowGenerator {
    /// The name of the workflow drafted from a description.
    pub fn extract_name(desc: &str) -> (r: String)
        ensures
            r@ == spec_name(desc@),
    {
        let v = chars_of(desc);
        let mut end: usize = 0;
        proof {
            lemma_name_end(v@, 0);
        }
        while end < v.len() && !(v[end] == '，' || v[end] == ',' || v[end] == '\n')
            invariant
                v@ == desc@,
                end <= v@.len(),
                name_end(v@, 0) == name_end(v@, end as int),
            decreases v@.len() - end,
        {
            end = end + 1;
        }
        let mut head: Vec<char> = Vec::new();
        let mut k: usize = 0;
        while k < end
            invariant
                k <= end <= v@.len(),
                head@ == v@.subrange(0, k as int),
            decreases end - k,
        {
            head.push(v[k]);
            k = k + 1;
            assert(head@ =~= v@.subrange(0, k as int));
        }
        let first = trim_chars(&head);
        let fv = chars_of(first.as_str());
        if fv.len() <= 20 {
            first
        } else {
            let mut short: Vec<char> = Vec::new();
            let mut i: usize = 0;
            while i < 17
                invariant
                    i <= 17 < fv@.len(),
                    short@ == fv@.subrange(0, i as int),
                decreases 17 - i,
            {
                short.push(fv[i]);
                i = i + 1;
                assert(short@ =~= fv@.subrange(0, i as int));
            }
            let s = string_of(short.as_slice());
            cat(s.as_str(), "...")
        }
    }
}

impl WorkflowGenerator {
    /// The devices named in a description.
    pub fn extract_devices_from_text(desc: &str) -> (r: Result<Vec<String>, String>)
        ensures
            r matches Ok(d) && texts(d@) == spec_devices(desc@),
    {
        let mut devices: Vec<String> = Vec::new();
        if contains_text(desc, "设备") {
            devices.push(owned("device1"));
        }
        if contains_text(desc, "传感器") || contains_text(desc, "sensor") {
            devices.push(owned("sensor1"));
        }
        assert(texts(devices@) =~= spec_devices(desc@));
        Ok(devices)
    }
}

impl WorkflowGenerator {
    /// Reads trigger, schedule, devices, action and condition from a description.
    pub fn extract_workflow_info(desc: &str) -> (r: Result<ExtractedWorkflowInfo, String>)
        ensures
            r matches Ok(x) && read_from(x, desc@),
    {
        let lowered = to_lowercase(desc);
        let lower = lowered.as_str();
        let trigger_type = if contains_any(lower, "定时", "每天", "cron") {
            WorkflowTriggerType::Cron
        } else if contains_any(lower, "当", "时", "如果") {
            WorkflowTriggerType::Device
        } else {
            WorkflowTriggerType::Manual
        };
        let cron_expression = if contains_text(lower, "每5分钟") || contains_text(lower, "5分钟") {
            Some(owned("*/5 * * * *"))
        } else if contains_text(lower, "每小时") || contains_text(lower, "1小时") {
            Some(owned("0 * * * *"))
        } else if contains_text(lower, "每天") {
            if contains_text(lower, "8点") || contains_text(lower, "早上") {
                Some(owned("0 8 * * *"))
            } else if contains_text(lower, "18点") || contains_text(lower, "晚上") {
                Some(owned("0 18 * * *"))
            } else {
                Some(owned("0 0 * * *"))
            }
        } else {
            None
        };
        let devices = match WorkflowGenerator::extract_devices_from_text(desc) {
            Ok(d) => d,
            Err(e) => return Err(e),
        };
        let action = if contains_text(lower, "开灯") || contains_text(lower, "打开") {
            WorkflowAction::TurnOn
        } else if contains_text(lower, "关灯") || contains_text(lower, "关闭") {
            WorkflowAction::TurnOff
        } else if contains_text(lower, "告警") || contains_text(lower, "通知") {
            WorkflowAction::Alert
        } else if contains_text(lower, "上报") || contains_text(lower, "发送") {
            WorkflowAction::Report
        } else {
            WorkflowAction::Custom(owned("custom_action"))
        };
        let exceeding = contains_text(lower, "超过") || contains_text(lower, "大于");
        let condition = if contains_text(lower, "温度") && exceeding {
            Some(Condition { metric: owned("temperature"), operator: owned(">"), threshold: 50 })
        } else if contains_text(lower, "湿度") && exceeding {
            Some(Condition { metric: owned("humidity"), operator: owned(">"), threshold: 80 })
        } else {
            None
        };
        Ok(ExtractedWorkflowInfo {
            name: WorkflowGenerator::extract_name(desc),
            description: owned(desc),
            trigger_type,
            cron_expression,
            devices,
            action,
            condition,
        })
    }
}


// ---------------------------------------------------------------- the document

/// Whether `j` is an object whose members are strings, with these keys and
/// texts in this order.
pub open spec fn text_object(j: Json, pairs: Seq<(Seq<char>, Seq<char>)>) -> bool {
    j matches Json::Object(m) && m@.len() == pairs.len() && forall|i: int|
        0 <= i < pairs.len() ==> (#[trigger] m@[i]).0@ == pairs[i].0 && m@[i].1.text() == Some(pairs[i].1)
}

/// The first named device, or `device1`.
pub open spec fn first_device(x: ExtractedWorkflowInfo) -> Seq<char> {
    if x.devices@.len() > 0 { x.devices@[0]@ } else { "device1"@ }
}

/// The second named device, or `device1`.
pub open spec fn second_device(x: ExtractedWorkflowInfo) -> Seq<char> {
    if x.devices@.len() > 1 { x.devices@[1]@ } else { "device1"@ }
}

/// A step that sends a command to a device.
pub open spec fn command_step(id: Seq<char>, device: Seq<char>, command: Seq<char>) -> Seq<(Seq<char>, Seq<char>)> {
    seq![("type"@, "send_command"@), ("id"@, id), ("device_id"@, device), ("command"@, command)]
}

/// A step that writes a log message at level info.
pub open spec fn log_step(id: Seq<char>, message: Seq<char>) -> Seq<(Seq<char>, Seq<char>)> {
    seq![("type"@, "log"@), ("id"@, id), ("message"@, message), ("level"@, "info"@)]
}

/// The step that carries out the action when the condition holds.
pub open spec fn gated_action_step(x: ExtractedWorkflowInfo) -> Seq<(Seq<char>, Seq<char>)> {
    match x.action@ {
        ActionView::TurnOn => command_step("turn_on"@, second_device(x), "on"@),
        ActionView::TurnOff => command_step("turn_off"@, second_device(x), "off"@),
        ActionView::Alert => seq![
            ("type"@, "send_alert"@),
            ("id"@, "send_alert"@),
            ("severity"@, "warning"@),
            ("title"@, "工作流告警"@),
            ("message"@, x.name@ + " 触发告警"@),
        ],
        ActionView::Report => log_step("log_report"@, "数据已上报"@),
        ActionView::Custom(c) => log_step("custom_log"@, "执行: "@ + c),
    }
}

/// The only step of a workflow without a condition.
pub open spec fn plain_action_step(x: ExtractedWorkflowInfo) -> Seq<(Seq<char>, Seq<char>)> {
    match x.action@ {
        ActionView::TurnOn => command_step("turn_on"@, first_device(x), "on"@),
        ActionView::TurnOff => command_step("turn_off"@, first_device(x), "off"@),
        _ => log_step("log"@, "执行工作流"@),
    }
}

/// The step that reads the metric of the condition.
pub open spec fn query_step(x: ExtractedWorkflowInfo, metric: Seq<char>) -> Seq<(Seq<char>, Seq<char>)> {
    seq![("type"@, "device_query"@), ("id"@, "check_"@ + metric), ("device_id"@, first_device(x)), ("metric"@, metric)]
}

/// The expression of the condition step.
pub open spec fn condition_expression(metric: Seq<char>, operator: Seq<char>, threshold: nat) -> Seq<char> {
    "${check_"@ + metric + "}_"@ + metric + " "@ + operator + " "@ + decimal(threshold)
}

/// Whether `j` is the condition step: it holds the expression, the gated
/// action and no alternative.
pub open spec fn is_condition_step(j: Json, x: ExtractedWorkflowInfo, c: Condition) -> bool {
    j matches Json::Object(m) && m@.len() == 5
        && m@[0].0@ == "type"@ && m@[0].1.text() == Some("condition"@)
        && m@[1].0@ == "id"@ && m@[1].1.text() == Some("evaluate_condition"@)
        && m@[2].0@ == "condition"@ && m@[2].1.text() == Some(condition_expression(c.metric@, c.operator@, c.threshold as nat))
        && m@[3].0@ == "then_steps"@ && (m@[3].1 matches Json::Array(t) && t@.len() == 1 && text_object(t@[0], gated_action_step(x)))
        && m@[4].0@ == "else_steps"@ && (m@[4].1 matches Json::Array(e) && e@.len() == 0)
}

/// Whether `steps` are the steps drafted for `x`.
pub open spec fn are_steps(steps: Seq<Json>, x: ExtractedWorkflowInfo) -> bool {
    match x.condition {
        Some(c) => steps.len() == 2 && text_object(steps[0], query_step(x, c.metric@)) && is_condition_step(steps[1], x, c),
        None => steps.len() == 1 && text_object(steps[0], plain_action_step(x)),
    }
}

/// The members of the trigger drafted for `x`.
pub open spec fn trigger_members(x: ExtractedWorkflowInfo) -> Seq<(Seq<char>, Seq<char>)> {
    match x.trigger_type {
        WorkflowTriggerType::Cron => seq![
            ("type"@, "cron"@),
            ("id"@, "cron_trigger"@),
            ("expression"@, match opt_text(x.cron_expression) { Some(e) => e, None => "0 * * * *"@ }),
            ("timezone"@, "Asia/Shanghai"@),
        ],
        WorkflowTriggerType::Device => seq![
            ("type"@, "device"@),
            ("id"@, "device_trigger"@),
            ("device_id"@, first_device(x)),
            ("metric"@, match x.condition { Some(c) => c.metric@, None => "value"@ }),
            ("condition"@, match x.condition { Some(c) => c.operator@ + " "@ + decimal(c.threshold as nat), None => "changed"@ }),
        ],
        WorkflowTriggerType::Manual => seq![("type"@, "manual"@), ("id"@, "manual_trigger"@)],
    }
}

/// Whether `j` is the workflow document drafted for `x` under the id `id`.
pub open spec fn is_document(j: Json, x: ExtractedWorkflowInfo, id: Seq<char>) -> bool {
    j matches Json::Object(m) && m@.len() == 7
        && m@[0].0@ == "id"@ && m@[0].1.text() == Some(id)
        && m@[1].0@ == "name"@ && m@[1].1.text() == Some(x.name@)
        && m@[2].0@ == "description"@ && m@[2].1.text() == Some(x.description@)
        && m@[3].0@ == "steps"@ && (m@[3].1 matches Json::Array(s) && are_steps(s@, x))
        && m@[4].0@ == "triggers"@ && (m@[4].1 matches Json::Array(t) && t@.len() == 1 && text_object(t@[0], trigger_members(x)))
        && m@[5].0@ == "enabled"@ && m@[5].1 == Json::Bool(true)
        && m@[6].0@ == "timeout_seconds"@ && m@[6].1 == Json::Int(300)
}

fn pair(key: &str, value: &str) -> (p: (String, Json))
    ensures
        p.0@ == key@,
        p.1.text() == Some(value@),
{
    (owned(key), Json::Str(owned(value)))
}

fn command_json(id: &str, device: &str, command: &str) -> (j: Json)
    ensures
        text_object(j, command_step(id@, device@, command@)),
{
    let mut m: Vec<(String, Json)> = Vec::new();
    m.push(pair("type", "send_command"));
    m.push(pair("id", id));
    m.push(pair("device_id", device));
    m.push(pair("command", command));
    Json::Object(m)
}

fn log_json(id: &str, message: &str) -> (j: Json)
    ensures
        text_object(j, log_step(id@, message@)),
{
    let mut m: Vec<(String, Json)> = Vec::new();
    m.push(pair("type", "log"));
    m.push(pair("id", id));
    m.push(pair("message", message));
    m.push(pair("level", "info"));
    Json::Object(m)
}

fn device_at<'a>(x: &'a ExtractedWorkflowInfo, i: usize) -> (d: &'a str)
    ensures
        d@ == (if x.devices@.len() > i { x.devices@[i as int]@ } else { "device1"@ }),
{
    if x.devices.len() > i { x.devices[i].as_str() } else { "device1" }
}

fn gated_action_json(x: &ExtractedWorkflowInfo) -> (j: Json)
    ensures
        text_object(j, gated_action_step(*x)),
{
    match &x.action {
        WorkflowAction::TurnOn => command_json("turn_on", device_at(x, 1), "on"),
        WorkflowAction::TurnOff => command_json("turn_off", device_at(x, 1), "off"),
        WorkflowAction::Alert => {
            let mut m: Vec<(String, Json)> = Vec::new();
            m.push(pair("type", "send_alert"));
            m.push(pair("id", "send_alert"));
            m.push(pair("severity", "warning"));
            m.push(pair("title", "工作流告警"));
            let message = cat(x.name.as_str(), " 触发告警");
            m.push(pair("message", message.as_str()));
            Json::Object(m)
        },
        WorkflowAction::Report => log_json("log_report", "数据已上报"),
        WorkflowAction::Custom(c) => {
            let message = cat("执行: ", c.as_str());
            log_json("custom_log", message.as_str())
        },
    }
}

fn plain_action_json(x: &ExtractedWorkflowInfo) -> (j: Json)
    ensures
        text_object(j, plain_action_step(*x)),
{
    match &x.action {
        WorkflowAction::TurnOn => command_json("turn_on", device_at(x, 0), "on"),
        WorkflowAction::TurnOff => command_json("turn_off", device_at(x, 0), "off"),
        _ => log_json("log", "执行工作流"),
    }
}

fn steps_json(x: &ExtractedWorkflowInfo) -> (s: Vec<Json>)
    ensures
        are_steps(s@, *x),
{
    let mut steps: Vec<Json> = Vec::new();
    match &x.condition {
        Some(c) => {
            let mut q: Vec<(String, Json)> = Vec::new();
            q.push(pair("type", "device_query"));
            let qid = cat("check_", c.metric.as_str());
            q.push(pair("id", qid.as_str()));
            q.push(pair("device_id", device_at(x, 0)));
            q.push(pair("metric", c.metric.as_str()));
            steps.push(Json::Object(q));
            let mut expr = cat3("${check_", c.metric.as_str(), "}_");
            expr.append(c.metric.as_str());
            expr.append(" ");
            expr.append(c.operator.as_str());
            expr.append(" ");
            let t = u64_text(c.threshold as u64);
            expr.append(t.as_str());
            let mut then_steps: Vec<Json> = Vec::new();
            then_steps.push(gated_action_json(x));
            let mut k: Vec<(String, Json)> = Vec::new();
            k.push(pair("type", "condition"));
            k.push(pair("id", "evaluate_condition"));
            k.push(pair("condition", expr.as_str()));
            k.push((owned("then_steps"), Json::Array(then_steps)));
            k.push((owned("else_steps"), Json::Array(Vec::new())));
            steps.push(Json::Object(k));
        },
        None => {
            steps.push(plain_action_json(x));
        },
    }
    steps
}

fn trigger_json(x: &ExtractedWorkflowInfo) -> (j: Json)
    ensures
        text_object(j, trigger_members(*x)),
{
    let mut m: Vec<(String, Json)> = Vec::new();
    match x.trigger_type {
        WorkflowTriggerType::Cron => {
            m.push(pair("type", "cron"));
            m.push(pair("id", "cron_trigger"));
            let e: &str = match &x.cron_expression {
                Some(e) => e.as_str(),
                None => "0 * * * *",
            };
            m.push(pair("expression", e));
            m.push(pair("timezone", "Asia/Shanghai"));
        },
        WorkflowTriggerType::Device => {
            m.push(pair("type", "device"));
            m.push(pair("id", "device_trigger"));
            m.push(pair("device_id", device_at(x, 0)));
            match &x.condition {
                Some(c) => {
                    m.push(pair("metric", c.metric.as_str()));
                    let t = u64_text(c.threshold as u64);
                    let cond = cat3(c.operator.as_str(), " ", t.as_str());
                    m.push(pair("condition", cond.as_str()));
                },
                None => {
                    m.push(pair("metric", "value"));
                    m.push(pair("condition", "changed"));
                },
            }
        },
        WorkflowTriggerType::Manual => {
            m.push(pair("type", "manual"));
            m.push(pair("id", "manual_trigger"));
        },
    }
    Json::Object(m)
}

impl WorkflowGenerator {
    /// The workflow document drafted from what was read, under the id `id`.
    pub fn build_workflow_document(extracted: &ExtractedWorkflowInfo, id: &str) -> (j: Json)
        ensures
            is_document(j, *extracted, id@),
    {
        let mut m: Vec<(String, Json)> = Vec::new();
        m.push(pair("id", id));
        m.push(pair("name", extracted.name.as_str()));
        m.push(pair("description", extracted.description.as_str()));
        m.push((owned("steps"), Json::Array(steps_json(extracted))));
        let mut triggers: Vec<Json> = Vec::new();
        triggers.push(trigger_json(extracted));
        m.push((owned("triggers"), Json::Array(triggers)));
        m.push((owned("enabled"), Json::Bool(true)));
        m.push((owned("timeout_seconds"), Json::Int(300)));
        Json::Object(m)
    }
}


// ---------------------------------------------------------------- the draft

/// The words for a trigger type in an explanation.
pub open spec fn trigger_words(t: WorkflowTriggerType) -> Seq<char> {
    match t {
        WorkflowTriggerType::Cron => "定时"@,
        WorkflowTriggerType::Device => "设备事件"@,
        WorkflowTriggerType::Manual => "手动"@,
    }
}

/// The words for an action in an explanation.
pub open spec fn action_words(a: ActionView) -> Seq<char> {
    match a {
        ActionView::TurnOn => "开启设备"@,
        ActionView::TurnOff => "关闭设备"@,
        ActionView::Alert => "发送告警"@,
        ActionView::Report => "数据上报"@,
        ActionView::Custom(_) => "自定义操作"@,
    }
}

/// The explanation of a draft: its name, trigger and action.
pub open spec fn spec_explanation(x: ExtractedWorkflowInfo) -> Seq<char> {
    "工作流 \""@ + x.name@ + "\": "@ + trigger_words(x.trigger_type) + "触发器，"@ + action_words(x.action@) + "动作"@
}

/// The confidence in a draft, in percent: 50, plus 20 when devices are
/// named, 15 with a condition and 15 with a schedule, at most 100.
pub open spec fn spec_confidence(x: ExtractedWorkflowInfo) -> nat {
    let c = 50 + (if x.devices@.len() > 0 { 20nat } else { 0nat }) + (if x.condition is Some { 15nat } else { 0nat })
        + (if x.cron_expression is Some { 15nat } else { 0nat });
    if c > 100 { 100 } else { c }
}

/// Whether a device named in a draft may not exist: the context does not
/// know it and it is none of the placeholders `device…` and `sensor…`.
pub open spec fn doubtful(d: Seq<char>, context: ValidationContext) -> bool {
    !context.devices@.dom().contains(d) && !(d.len() >= 6 && d.subrange(0, 6) == "device"@)
        && !(d.len() >= 6 && d.subrange(0, 6) == "sensor"@)
}

/// The warning about a device that may not exist.
pub open spec fn device_warning(d: Seq<char>) -> Seq<char> {
    "设备 '"@ + d + "' 可能不存在"@
}

/// The warnings about the devices `ds`, in order.
pub open spec fn spec_warnings(ds: Seq<Seq<char>>, context: ValidationContext) -> Seq<Seq<char>>
    decreases ds.len(),
{
    if ds.len() == 0 {
        Seq::empty()
    } else {
        let w = spec_warnings(ds.drop_last(), context);
        if doubtful(ds.last(), context) { w.push(device_warning(ds.last())) } else { w }
    }
}

/// A suggested edit as text: field, current value, suggested value, reason.
pub open spec fn edit_view(e: SuggestedEdit) -> (Seq<char>, Seq<char>, Seq<char>, Seq<char>) {
    (e.field@, e.current_value@, e.suggested_value@, e.reason@)
}

/// Whether `edits` are the edits suggested for `x`: a device when none is
/// named and the context knows one, then a schedule for a timed trigger
/// without one.
pub open spec fn are_suggestions(edits: Seq<SuggestedEdit>, x: ExtractedWorkflowInfo, context: ValidationContext) -> bool {
    let device_edit = x.devices@.len() == 0 && context.devices@.dom().len() > 0;
    let cron_edit = x.cron_expression is None && x.trigger_type == WorkflowTriggerType::Cron;
    let cron_view = ("cron_expression"@, "null"@, "0 * * * *"@, "定时触发器需要Cron表达式"@);
    &&& edits.len() == (if device_edit { 1int } else { 0 }) + (if cron_edit { 1int } else { 0 })
    &&& device_edit ==> exists|k: Seq<char>| #[trigger] context.devices@.dom().contains(k)
        && edit_view(edits[0]) == ("devices"@, "[]"@, "[\""@ + k + "\"]"@, "需要至少指定一个设备"@)
    &&& cron_edit ==> edit_view(edits[edits.len() - 1]) == cron_view
}

impl WorkflowGenerator {
    /// The explanation of a draft.
    pub fn generate_explanation(extracted: &ExtractedWorkflowInfo) -> (s: String)
        ensures
            s@ == spec_explanation(*extracted),
    {
        let trigger = match extracted.trigger_type {
            WorkflowTriggerType::Cron => "定时",
            WorkflowTriggerType::Device => "设备事件",
            WorkflowTriggerType::Manual => "手动",
        };
        let action = match &extracted.action {
            WorkflowAction::TurnOn => "开启设备",
            WorkflowAction::TurnOff => "关闭设备",
            WorkflowAction::Alert => "发送告警",
            WorkflowAction::Report => "数据上报",
            WorkflowAction::Custom(_) => "自定义操作",
        };
        let mut s = cat3("工作流 \"", extracted.name.as_str(), "\": ");
        s.append(trigger);
        s.append("触发器，");
        s.append(action);
        s.append("动作");
        s
    }
}

impl WorkflowGenerator {
    /// The confidence in a draft, in percent.
    pub fn calculate_confidence(extracted: &ExtractedWorkflowInfo) -> (c: u32)
        ensures
            c as nat == spec_confidence(*extracted),
    {
        let mut c: u32 = 50;
        if extracted.devices.len() > 0 {
            c = c + 20;
        }
        if extracted.condition.is_some() {
            c = c + 15;
        }
        if extracted.cron_expression.is_some() {
            c = c + 15;
        }
        if c > 100 { 100 } else { c }
    }
}

impl WorkflowGenerator {
    /// The edits suggested for a draft.
    pub fn generate_suggestions(extracted: &ExtractedWorkflowInfo, context: &ValidationContext) -> (r: Vec<SuggestedEdit>)
        ensures
            are_suggestions(r@, *extracted, *context),
    {
        let mut r: Vec<SuggestedEdit> = Vec::new();
        let known = context.devices.len();
        if extracted.devices.len() == 0 && known > 0 {
            let first = context.devices.key_at(0);
            let suggested = cat3("[\"", first.as_str(), "\"]");
            r.push(SuggestedEdit {
                field: owned("devices"),
                current_value: owned("[]"),
                suggested_value: suggested,
                reason: owned("需要至少指定一个设备"),
            });
        }
        if extracted.cron_expression.is_none() && extracted.trigger_type == WorkflowTriggerType::Cron {
            r.push(SuggestedEdit {
                field: owned("cron_expression"),
                current_value: owned("null"),
                suggested_value: owned("0 * * * *"),
                reason: owned("定时触发器需要Cron表达式"),
            });
        }
        r
    }
}

impl WorkflowGenerator {
    /// The warnings about the devices of a draft.
    pub fn validate_workflow(extracted: &ExtractedWorkflowInfo, context: &ValidationContext) -> (w: Vec<String>)
        ensures
            texts(w@) == spec_warnings(texts(extracted.devices@), *context),
    {
        let ghost ds = texts(extracted.devices@);
        let mut w: Vec<String> = Vec::new();
        let n = extracted.devices.len();
        let mut i: usize = 0;
        while i < n
            invariant
                n == extracted.devices@.len(),
                ds == texts(extracted.devices@),
                i <= n,
                texts(w@) == spec_warnings(ds.subrange(0, i as int), *context),
            decreases n - i,
        {
            let d = extracted.devices[i].as_str();
            proof {
                assert(ds.subrange(0, i + 1).drop_last() =~= ds.subrange(0, i as int));
                assert(ds.subrange(0, i + 1).last() == d@);
                reveal_strlit("device");
                reveal_strlit("sensor");
            }
            if !context.devices.contains_key(d) && !starts_with_text(d, "device") && !starts_with_text(d, "sensor") {
                let ghost wb = w@;
                w.push(cat3("设备 '", d, "' 可能不存在"));
                assert(texts(w@) =~= texts(wb).push(device_warning(d@)));
            }
            i = i + 1;
        }
        assert(ds.subrange(0, n as int) =~= ds);
        w
    }
}

impl WorkflowGenerator {
    /// Drafts a workflow from a description under a fresh random id.
    pub fn generate(description: &str, context: &ValidationContext) -> (r: Result<GeneratedWorkflow, String>)
        ensures
            r matches Ok(g) && exists|x: ExtractedWorkflowInfo, id: Seq<char>| {
                &&& read_from(x, description@)
                &&& id.len() == 36
                &&& is_document(g.workflow, x, id)
                &&& g.explanation@ == spec_explanation(x)
                &&& g.confidence_percent as nat == spec_confidence(x)
                &&& are_suggestions(g.suggested_edits@, x, *context)
                &&& texts(g.warnings@) == spec_warnings(texts(x.devices@), *context)
            },
    {
        let extracted = match WorkflowGenerator::extract_workflow_info(description) {
            Ok(x) => x,
            Err(e) => return Err(e),
        };
        let id = new_uuid();
        let workflow = WorkflowGenerator::build_workflow_document(&extracted, id.as_str());
        let g = GeneratedWorkflow {
            workflow,
            explanation: WorkflowGenerator::generate_explanation(&extracted),
            confidence_percent: WorkflowGenerator::calculate_confidence(&extracted),
            suggested_edits: WorkflowGenerator::generate_suggestions(&extracted, context),
            warnings: WorkflowGenerator::validate_workflow(&extracted, context),
        };
        assert(is_document(g.workflow, extracted, id@));
        Ok(g)
    }
}

} // verus!
