//! Rules from natural language: reading the metric, the comparison, the
//! threshold, how long the condition must last and what to do out of a
//! sentence such as "温度超过50度时告警", and writing the rule in the DSL.
use vstd::prelude::*;
use crate::json::{has_text, member_of, Json};
use crate::text::{
    cat, cat3, contains_text, decimal, join, join_texts, milli_string, milli_text, owned, parse_milli,
    parse_milli_text, parse_unsigned, parse_unsigned_text, spec_contains, spec_lowercase,
    to_lowercase, u64_text, same_text, milli_display, milli_display_string,
};
use crate::tools::builtin::{invalid, is_count, required_text_arg, text_arg};
use crate::tools::catalog::{ToolCategory, ToolRelationships, UsageScenario};
use crate::tools::discovery::{is_text_array, scenario, scenario_view, strings_in};
use crate::tools::error::ToolError;
use crate::tools::tool::{array_property, boolean_property, object_schema, requires_names, string_property, ToolOutput};
use crate::workflow::templates::texts;

verus! {

/// A number followed by a unit of temperature or percentage.
pub const THRESHOLD_WITH_UNIT: &'static str = "(\\d+\\.?\\d\x2a)\\s\x2a(度|°|℃|%|摄氏度|百分比)";

/// Any number.
pub const ANY_NUMBER: &'static str = "(\\d+\\.?\\d\x2a)";

/// A whole number followed by a unit of time.
pub const DURATION: &'static str = "(\\d+)\\s\x2a(秒|second|分钟|minute|小时|hour)";

/// The groups that the first match of the regular expression `pattern`
/// in `text` captures (`regex::Regex::captures`), group 0 being the whole
/// match; none when nothing matches or the pattern is not valid.
pub uninterp spec fn spec_captures(pattern: Seq<char>, text: Seq<char>) -> Option<Seq<Option<Seq<char>>>>;

/// The characters of optional strings.
pub open spec fn opt_texts(v: Seq<Option<String>>) -> Seq<Option<Seq<char>>> {
    v.map_values(|o: Option<String>| match o {
        Some(s) => Some(s@),
        None => None,
    })
}

/// Captures the groups of the first match of `pattern` in `text`
/// (`regex::Regex::new` and `Regex::captures`); the result is named by
/// `spec_captures`, a function of the pattern and the text alone.
#[verifier::external_body]
fn captures(pattern: &str, text: &str) -> (r: Option<Vec<Option<String>>>)
    ensures
        r is None <==> spec_captures(pattern@, text@) is None,
        r matches Some(v) ==> spec_captures(pattern@, text@) == Some(opt_texts(v@)),
{
    match regex::Regex::new(pattern) {
        Ok(re) => re.captures(text).map(|c| c.iter().map(|m| m.map(|x| x.as_str().to_string())).collect()),
        Err(_) => None,
    }
}

/// Group `i` of a capture, when there was a match and the group took part.
pub open spec fn group(c: Option<Seq<Option<Seq<char>>>>, i: int) -> Option<Seq<char>> {
    match c {
        Some(g) => if 0 <= i < g.len() { g[i] } else { None },
        None => None,
    }
}

fn group_of(c: &Option<Vec<Option<String>>>, i: usize) -> (r: Option<String>)
    ensures
        r matches Some(s) ==> group(match c { Some(v) => Some(opt_texts(v@)), None => None }, i as int) == Some(s@),
        r is None ==> group(match c { Some(v) => Some(opt_texts(v@)), None => None }, i as int) is None,
{
    match c {
        Some(v) => {
            if i < v.len() {
                match &v[i] {
                    Some(s) => Some(s.clone()),
                    None => None,
                }
            } else {
                None
            }
        },
        None => None,
    }
}

/// A captured number in thousandths, fifty when it does not read as one.
pub open spec fn number_or_fifty(t: Option<Seq<char>>) -> int {
    match t {
        Some(s) => match parse_milli(s) {
            Some(v) => v,
            None => 50000,
        },
        None => 50000,
    }
}

/// The threshold of a description, in thousandths: the number before a
/// unit, else the first number, else fifty.
pub open spec fn threshold_of(desc: Seq<char>) -> int {
    match spec_captures(THRESHOLD_WITH_UNIT@, desc) {
        Some(g) => number_or_fifty(group(Some(g), 1)),
        None => match spec_captures(ANY_NUMBER@, desc) {
            Some(g) => number_or_fifty(group(Some(g), 1)),
            None => 50000,
        },
    }
}

/// The comparison a description asks for; "greater than" by default.
pub open spec fn operator_of(desc: Seq<char>) -> Seq<char> {
    if spec_contains(desc, "超过"@) || spec_contains(desc, "大于"@) || spec_contains(desc, "高于"@) {
        ">"@
    } else if spec_contains(desc, "低于"@) || spec_contains(desc, "小于"@) || spec_contains(desc, "少于"@) {
        "<"@
    } else if spec_contains(desc, "至少"@) || spec_contains(desc, "大于等于"@) {
        ">="@
    } else if spec_contains(desc, "不超过"@) || spec_contains(desc, "小于等于"@) {
        "<="@
    } else {
        ">"@
    }
}

/// The device and metric a description is about; the living-room
/// temperature by default.
pub open spec fn device_metric_of(desc: Seq<char>) -> (Seq<char>, Seq<char>) {
    if spec_contains(desc, "温度"@) {
        ("sensor_temp_living"@, "temperature"@)
    } else if spec_contains(desc, "湿度"@) {
        ("sensor_humidity_living"@, "humidity"@)
    } else if spec_contains(desc, "光"@) || spec_contains(desc, "亮度"@) {
        ("sensor_light_living"@, "illuminance"@)
    } else if spec_contains(desc, "二氧化碳"@) || spec_contains(desc, "CO2"@) {
        ("sensor_co2_living"@, "co2"@)
    } else {
        ("sensor_temp_living"@, "temperature"@)
    }
}

/// Which sensor a description names: temperature wins over humidity, both
/// over light (光 or 亮度), all three over CO2 (二氧化碳 or CO2); a
/// description naming none of them is about the living-room temperature.
pub proof fn lemma_device_metric_choice(desc: Seq<char>)
    ensures
        spec_contains(desc, "温度"@) ==> device_metric_of(desc) == ("sensor_temp_living"@, "temperature"@),
        !spec_contains(desc, "温度"@) && spec_contains(desc, "湿度"@)
            ==> device_metric_of(desc) == ("sensor_humidity_living"@, "humidity"@),
        !spec_contains(desc, "温度"@) && !spec_contains(desc, "湿度"@)
            && (spec_contains(desc, "光"@) || spec_contains(desc, "亮度"@))
            ==> device_metric_of(desc) == ("sensor_light_living"@, "illuminance"@),
        !spec_contains(desc, "温度"@) && !spec_contains(desc, "湿度"@) && !spec_contains(desc, "光"@)
            && !spec_contains(desc, "亮度"@) && (spec_contains(desc, "二氧化碳"@) || spec_contains(desc, "CO2"@))
            ==> device_metric_of(desc) == ("sensor_co2_living"@, "co2"@),
        !spec_contains(desc, "温度"@) && !spec_contains(desc, "湿度"@) && !spec_contains(desc, "光"@)
            && !spec_contains(desc, "亮度"@) && !spec_contains(desc, "二氧化碳"@) && !spec_contains(desc, "CO2"@)
            ==> device_metric_of(desc) == ("sensor_temp_living"@, "temperature"@),
{
}

/// An action of a rule: its type and its parameters.
pub struct RuleActionDef {
    pub action_type: String,
    pub params: Json,
}

/// An action as its type and the text members of its parameters.
pub open spec fn is_action(a: RuleActionDef, spec: (Seq<char>, Seq<(Seq<char>, Seq<char>)>)) -> bool {
    &&& a.action_type@ == spec.0
    &&& a.params matches Json::Object(o) && o@.len() == spec.1.len()
        && forall|i: int| 0 <= i < o@.len() ==> #[trigger] has_text(o@, i, spec.1[i].0, spec.1[i].1)
}

/// The actions a description asks for: a notification when it mentions an
/// alarm, notice or reminder, then one device command, and a plain
/// notification when there is nothing else.
pub open spec fn actions_of(desc: Seq<char>) -> Seq<(Seq<char>, Seq<(Seq<char>, Seq<char>)>)> {
    let notify: Seq<(Seq<char>, Seq<(Seq<char>, Seq<char>)>)> =
        if spec_contains(desc, "告警"@) || spec_contains(desc, "通知"@) || spec_contains(desc, "提醒"@) {
            seq![("notify"@, seq![("message"@, "规则触发告警"@)])]
        } else {
            Seq::empty()
        };
    let exec: Seq<(Seq<char>, Seq<(Seq<char>, Seq<char>)>)> =
        if spec_contains(desc, "开风扇"@) || spec_contains(desc, "启动风扇"@) {
            seq![("execute"@, seq![("device"@, "fan_living"@), ("command"@, "turn_on"@)])]
        } else if spec_contains(desc, "开空调"@) {
            seq![("execute"@, seq![("device"@, "ac_living"@), ("command"@, "turn_on"@)])]
        } else if spec_contains(desc, "开灯"@) {
            seq![("execute"@, seq![("device"@, "light_living"@), ("command"@, "turn_on"@)])]
        } else if spec_contains(desc, "关"@) {
            seq![("execute"@, seq![("device"@, "unknown"@), ("command"@, "turn_off"@)])]
        } else {
            Seq::empty()
        };
    if notify.len() + exec.len() == 0 {
        seq![("notify"@, seq![("message"@, "规则已触发"@)])]
    } else {
        notify + exec
    }
}

/// The seconds a description asks a condition to last: a number with a
/// unit of time (saturating), five minutes when it says "持续", else none.
pub open spec fn duration_of(desc: Seq<char>) -> Option<u64> {
    match spec_captures(DURATION@, desc) {
        Some(g) => {
            let value: nat = match group(Some(g), 1) {
                Some(t) => match parse_unsigned(t, u64::MAX as nat) {
                    Some(v) => v,
                    None => 1,
                },
                None => 1,
            };
            let unit = match group(Some(g), 2) {
                Some(u) => u,
                None => Seq::empty(),
            };
            if unit == "秒"@ || unit == "second"@ || unit == "seconds"@ {
                Some(value as u64)
            } else if unit == "分钟"@ || unit == "minute"@ || unit == "minutes"@ {
                Some(if value * 60 > u64::MAX { u64::MAX } else { (value * 60) as u64 })
            } else if unit == "小时"@ || unit == "hour"@ || unit == "hours"@ {
                Some(if value * 3600 > u64::MAX { u64::MAX } else { (value * 3600) as u64 })
            } else {
                None
            }
        },
        None => if spec_contains(desc, "持续"@) { Some(300) } else { None },
    }
}

/// How a rule name says the comparison.
pub open spec fn operator_words(op: Seq<char>) -> Seq<char> {
    if op == ">"@ {
        "超过"@
    } else if op == "<"@ {
        "低于"@
    } else if op == ">="@ {
        "达到"@
    } else if op == "<="@ {
        "不超过"@
    } else {
        "变化"@
    }
}

/// The name of a rule on the metric, comparison and threshold.
pub open spec fn rule_name(metric: Seq<char>, threshold: int, op: Seq<char>) -> Seq<char> {
    metric + operator_words(op) + milli_display(threshold) + "告警"@
}

/// The FOR clause of a duration in seconds, in whole hours, minutes or seconds.
pub open spec fn for_clause(d: Option<u64>) -> Seq<char> {
    match d {
        Some(x) => {
            let (v, unit) = if x >= 3600 {
                ((x / 3600) as nat, "hours"@)
            } else if x >= 60 {
                ((x / 60) as nat, "minutes"@)
            } else {
                (x as nat, "seconds"@)
            };
            "FOR "@ + decimal(v) + " "@ + unit + "\n"@
        },
        None => Seq::empty(),
    }
}

/// The DSL line of an action.
pub open spec fn action_line(a: RuleActionDef) -> Seq<char> {
    if a.action_type@ == "notify"@ {
        "  NOTIFY \""@ + (match a.params.text_at("message"@) {
            Some(m) => m,
            None => "规则触发"@,
        }) + "\"\n"@
    } else if a.action_type@ == "execute"@ {
        "  EXECUTE "@ + (match a.params.text_at("device"@) {
            Some(d) => d,
            None => "unknown"@,
        }) + "."@ + (match a.params.text_at("command"@) {
            Some(c) => c,
            None => "turn_on"@,
        }) + "\n"@
    } else if a.action_type@ == "log"@ {
        "  LOG alert\n"@
    } else {
        Seq::empty()
    }
}

/// The DSL lines of the actions.
pub open spec fn action_lines(actions: Seq<RuleActionDef>) -> Seq<char>
    decreases actions.len(),
{
    if actions.len() == 0 {
        Seq::empty()
    } else {
        action_lines(actions.drop_last()) + action_line(actions.last())
    }
}

/// A rule in the DSL.
pub open spec fn rule_dsl(name: Seq<char>, device: Seq<char>, metric: Seq<char>, op: Seq<char>, threshold: int, duration: Option<u64>, actions: Seq<RuleActionDef>) -> Seq<char> {
    "RULE \""@ + name + "\"\n"@ + "WHEN "@ + device + "."@ + metric + " "@ + op + " "@ + milli_display(threshold) + "\n"@
        + for_clause(duration) + "DO\n"@ + action_lines(actions) + "END"@
}

/// A rule read out of a description.
pub struct ExtractedRuleDefinition {
    pub name: String,
    pub description: String,
    pub device_id: String,
    pub metric: String,
    pub operator: String,
    /// The threshold, in thousandths.
    pub threshold_milli: i64,
    /// How long the condition must last, in seconds.
    pub for_duration: Option<u64>,
    pub actions: Vec<RuleActionDef>,
    pub dsl: String,
    /// How sure the reading is, in thousandths.
    pub confidence_milli: i64,
    pub missing_info: Vec<String>,
}

/// The tool `rule.from_context`.
pub struct RuleFromContextTool {
    pub registry: crate::tools::discovery::MockDeviceRegistry,
}


/// The text of the first member under `key`.
pub open spec fn member_text(o: Seq<(String, Json)>, key: Seq<char>) -> Option<Seq<char>> {
    match member_of(o, key) {
        Some(v) => v.text(),
        None => None,
    }
}

/// The first text paired with `key`.
pub open spec fn lookup(pairs: Seq<(Seq<char>, Seq<char>)>, key: Seq<char>) -> Option<Seq<char>>
    decreases pairs.len(),
{
    if pairs.len() == 0 {
        None
    } else if pairs[0].0 == key {
        Some(pairs[0].1)
    } else {
        lookup(pairs.drop_first(), key)
    }
}

/// The DSL line of an action given as its type and parameters.
pub open spec fn spec_action_line(t: (Seq<char>, Seq<(Seq<char>, Seq<char>)>)) -> Seq<char> {
    if t.0 == "notify"@ {
        "  NOTIFY \""@ + (match lookup(t.1, "message"@) {
            Some(m) => m,
            None => "规则触发"@,
        }) + "\"\n"@
    } else if t.0 == "execute"@ {
        "  EXECUTE "@ + (match lookup(t.1, "device"@) {
            Some(d) => d,
            None => "unknown"@,
        }) + "."@ + (match lookup(t.1, "command"@) {
            Some(c) => c,
            None => "turn_on"@,
        }) + "\n"@
    } else if t.0 == "log"@ {
        "  LOG alert\n"@
    } else {
        Seq::empty()
    }
}

/// The DSL lines of actions given as types and parameters.
pub open spec fn spec_action_lines(ts: Seq<(Seq<char>, Seq<(Seq<char>, Seq<char>)>)>) -> Seq<char>
    decreases ts.len(),
{
    if ts.len() == 0 {
        Seq::empty()
    } else {
        spec_action_lines(ts.drop_last()) + spec_action_line(ts.last())
    }
}

/// What is missing from a rule.
pub open spec fn missing_of(device: Seq<char>, metric: Seq<char>, n_actions: nat) -> Seq<Seq<char>> {
    (if device.len() == 0 { seq!["设备ID未指定"@] } else { Seq::empty() })
        + (if metric.len() == 0 { seq!["监控指标未指定"@] } else { Seq::empty() })
        + (if n_actions == 0 { seq!["触发动作未指定"@] } else { Seq::empty() })
}

/// Whether `r` is the rule read out of the (lower-cased) description `d`.
pub open spec fn is_extracted(r: ExtractedRuleDefinition, d: Seq<char>) -> bool {
    let (dev, met) = device_metric_of(d);
    let op = operator_of(d);
    let th = threshold_of(d);
    let acts = actions_of(d);
    let dur = duration_of(d);
    let missing = missing_of(dev, met, acts.len());
    &&& r.name@ == rule_name(met, th, op)
    &&& r.description@ == "当"@ + met + op + milli_display(th) + "时触发"@
    &&& r.device_id@ == dev
    &&& r.metric@ == met
    &&& r.operator@ == op
    &&& r.threshold_milli == th
    &&& r.for_duration == dur
    &&& r.actions@.len() == acts.len()
    &&& (forall|i: int| 0 <= i < acts.len() ==> is_action(#[trigger] r.actions@[i], acts[i]))
    &&& r.dsl@ == "RULE \""@ + r.name@ + "\"\n"@ + "WHEN "@ + dev + "."@ + met + " "@ + op + " "@ + milli_display(th)
        + "\n"@ + for_clause(dur) + "DO\n"@ + spec_action_lines(acts) + "END"@
    &&& texts(r.missing_info@) == missing
    &&& r.confidence_milli == (if missing.len() == 0 { 900i64 } else { 500i64 })
}

proof fn lemma_lookup(o: Seq<(String, Json)>, pairs: Seq<(Seq<char>, Seq<char>)>, key: Seq<char>)
    requires
        o.len() == pairs.len(),
        forall|i: int| 0 <= i < o.len() ==> #[trigger] has_text(o, i, pairs[i].0, pairs[i].1),
    ensures
        member_text(o, key) == lookup(pairs, key),
    decreases o.len(),
{
    if o.len() > 0 {
        assert(has_text(o, 0, pairs[0].0, pairs[0].1));
        let o2 = o.drop_first();
        let p2 = pairs.drop_first();
        assert forall|i: int| 0 <= i < o2.len() implies #[trigger] has_text(o2, i, p2[i].0, p2[i].1) by {
            assert(has_text(o, i + 1, pairs[i + 1].0, pairs[i + 1].1));
        }
        lemma_lookup(o2, p2, key);
    }
}


proof fn lemma_action_lines(actions: Seq<RuleActionDef>, ts: Seq<(Seq<char>, Seq<(Seq<char>, Seq<char>)>)>)
    requires
        actions.len() == ts.len(),
        forall|i: int| 0 <= i < ts.len() ==> is_action(#[trigger] actions[i], ts[i]),
    ensures
        action_lines(actions) == spec_action_lines(ts),
    decreases ts.len(),
{
    if ts.len() > 0 {
        let n = ts.len() - 1;
        assert forall|i: int| 0 <= i < n implies is_action(#[trigger] actions.drop_last()[i], ts.drop_last()[i]) by {
            assert(is_action(actions[i], ts[i]));
        }
        lemma_action_lines(actions.drop_last(), ts.drop_last());
        let a = actions.last();
        let t = ts.last();
        assert(is_action(actions[n], ts[n]));
        let o = a.params->Object_0;
        lemma_lookup(o@, t.1, "message"@);
        lemma_lookup(o@, t.1, "device"@);
        lemma_lookup(o@, t.1, "command"@);
    }
}

fn text_pair(key: &str, value: &str) -> (m: (String, Json))
    ensures
        m.0@ == key@,
        m.1.text() == Some(value@),
{
    (owned(key), Json::Str(owned(value)))
}

fn notify_action(message: &str) -> (a: RuleActionDef)
    ensures
        is_action(a, ("notify"@, seq![("message"@, message@)])),
{
    let mut o: Vec<(String, Json)> = Vec::new();
    o.push(text_pair("message", message));
    RuleActionDef { action_type: owned("notify"), params: Json::Object(o) }
}

fn execute_action(device: &str, command: &str) -> (a: RuleActionDef)
    ensures
        is_action(a, ("execute"@, seq![("device"@, device@), ("command"@, command@)])),
{
    let mut o: Vec<(String, Json)> = Vec::new();
    o.push(text_pair("device", device));
    o.push(text_pair("command", command));
    RuleActionDef { action_type: owned("execute"), params: Json::Object(o) }
}

fn number_or_fifty_of(t: Option<String>) -> (v: i64)
    ensures
        v == number_or_fifty(match t { Some(s) => Some(s@), None => None }),
{
    match t {
        Some(s) => match parse_milli_text(s.as_str()) {
            Some(v) => v,
            None => 50000,
        },
        None => 50000,
    }
}

fn for_text(d: Option<u64>) -> (s: String)
    ensures
        s@ == for_clause(d),
{
    match d {
        Some(x) => {
            let (v, unit) = if x >= 3600 {
                (x / 3600, "hours")
            } else if x >= 60 {
                (x / 60, "minutes")
            } else {
                (x, "seconds")
            };
            let mut s = cat("FOR ", u64_text(v).as_str());
            s.append(" ");
            s.append(unit);
            s.append("\n");
            s
        },
        None => String::new(),
    }
}

fn action_text(a: &RuleActionDef) -> (s: String)
    ensures
        s@ == action_line(*a),
{
    if same_text(a.action_type.as_str(), "notify") {
        let m: &str = match a.params.str_at("message") {
            Some(x) => x.as_str(),
            None => "规则触发",
        };
        cat3("  NOTIFY \"", m, "\"\n")
    } else if same_text(a.action_type.as_str(), "execute") {
        let d: &str = match a.params.str_at("device") {
            Some(x) => x.as_str(),
            None => "unknown",
        };
        let c: &str = match a.params.str_at("command") {
            Some(x) => x.as_str(),
            None => "turn_on",
        };
        let mut s = cat("  EXECUTE ", d);
        s.append(".");
        s.append(c);
        s.append("\n");
        s
    } else if same_text(a.action_type.as_str(), "log") {
        owned("  LOG alert\n")
    } else {
        String::new()
    }
}

impl RuleFromContextTool {
    /// The tool over the given registry.
    pub fn new(registry: crate::tools::discovery::MockDeviceRegistry) -> (t: Self)
        ensures
            t.registry == registry,
    {
        RuleFromContextTool { registry }
    }

    /// The tool over the sample devices.
    pub fn mock() -> (t: Self) {
        RuleFromContextTool { registry: crate::tools::discovery::MockDeviceRegistry::new() }
    }

    /// The threshold of a description, in thousandths.
    pub fn extract_threshold(&self, desc: &str) -> (v: i64)
        ensures
            v == threshold_of(desc@),
    {
        let c1 = captures(THRESHOLD_WITH_UNIT, desc);
        match &c1 {
            Some(_) => number_or_fifty_of(group_of(&c1, 1)),
            None => {
                let c2 = captures(ANY_NUMBER, desc);
                match &c2 {
                    Some(_) => number_or_fifty_of(group_of(&c2, 1)),
                    None => 50000,
                }
            },
        }
    }

    /// The comparison of a description.
    pub fn extract_operator(&self, desc: &str) -> (op: String)
        ensures
            op@ == operator_of(desc@),
    {
        if contains_text(desc, "超过") || contains_text(desc, "大于") || contains_text(desc, "高于") {
            owned(">")
        } else if contains_text(desc, "低于") || contains_text(desc, "小于") || contains_text(desc, "少于") {
            owned("<")
        } else if contains_text(desc, "至少") || contains_text(desc, "大于等于") {
            owned(">=")
        } else if contains_text(desc, "不超过") || contains_text(desc, "小于等于") {
            owned("<=")
        } else {
            owned(">")
        }
    }

    /// The device and metric of a description.
    pub fn extract_device_metric(&self, desc: &str) -> (r: (String, String))
        ensures
            (r.0@, r.1@) == device_metric_of(desc@),
    {
        if contains_text(desc, "温度") {
            (owned("sensor_temp_living"), owned("temperature"))
        } else if contains_text(desc, "湿度") {
            (owned("sensor_humidity_living"), owned("humidity"))
        } else if contains_text(desc, "光") || contains_text(desc, "亮度") {
            (owned("sensor_light_living"), owned("illuminance"))
        } else if contains_text(desc, "二氧化碳") || contains_text(desc, "CO2") {
            (owned("sensor_co2_living"), owned("co2"))
        } else {
            (owned("sensor_temp_living"), owned("temperature"))
        }
    }

    /// The actions of a description.
    pub fn extract_actions(&self, desc: &str) -> (v: Vec<RuleActionDef>)
        ensures
            v@.len() == actions_of(desc@).len(),
            forall|i: int| 0 <= i < v@.len() ==> is_action(#[trigger] v@[i], actions_of(desc@)[i]),
    {
        let mut v: Vec<RuleActionDef> = Vec::new();
        if contains_text(desc, "告警") || contains_text(desc, "通知") || contains_text(desc, "提醒") {
            v.push(notify_action("规则触发告警"));
        }
        if contains_text(desc, "开风扇") || contains_text(desc, "启动风扇") {
            v.push(execute_action("fan_living", "turn_on"));
        } else if contains_text(desc, "开空调") {
            v.push(execute_action("ac_living", "turn_on"));
        } else if contains_text(desc, "开灯") {
            v.push(execute_action("light_living", "turn_on"));
        } else if contains_text(desc, "关") {
            v.push(execute_action("unknown", "turn_off"));
        }
        if v.len() == 0 {
            v.push(notify_action("规则已触发"));
        }
        v
    }

    /// The duration of a description, in seconds.
    pub fn extract_duration(&self, desc: &str) -> (d: Option<u64>)
        ensures
            d == duration_of(desc@),
    {
        let c = captures(DURATION, desc);
        match &c {
            Some(_) => {
                let value: u64 = match group_of(&c, 1) {
                    Some(t) => match parse_unsigned_text(t.as_str(), u64::MAX) {
                        Some(v) => v,
                        None => 1,
                    },
                    None => 1,
                };
                let unit = match group_of(&c, 2) {
                    Some(u) => u,
                    None => String::new(),
                };
                let u = unit.as_str();
                if same_text(u, "秒") || same_text(u, "second") || same_text(u, "seconds") {
                    Some(value)
                } else if same_text(u, "分钟") || same_text(u, "minute") || same_text(u, "minutes") {
                    Some(if value > u64::MAX / 60 { u64::MAX } else { value * 60 })
                } else if same_text(u, "小时") || same_text(u, "hour") || same_text(u, "hours") {
                    Some(if value > u64::MAX / 3600 { u64::MAX } else { value * 3600 })
                } else {
                    None
                }
            },
            None => {
                if contains_text(desc, "持续") {
                    Some(300)
                } else {
                    None
                }
            },
        }
    }

    /// The name of a rule on the metric, threshold and comparison.
    pub fn generate_rule_name(&self, metric: &str, threshold: i64, operator: &str) -> (s: String)
        ensures
            s@ == rule_name(metric@, threshold as int, operator@),
    {
        let words = if same_text(operator, ">") {
            "超过"
        } else if same_text(operator, "<") {
            "低于"
        } else if same_text(operator, ">=") {
            "达到"
        } else if same_text(operator, "<=") {
            "不超过"
        } else {
            "变化"
        };
        let mut s = cat(metric, words);
        s.append(milli_display_string(threshold).as_str());
        s.append("告警");
        s
    }

    /// The rule in the DSL.
    pub fn generate_dsl(
        &self,
        name: &str,
        device_id: &str,
        metric: &str,
        operator: &str,
        threshold: i64,
        for_duration: Option<u64>,
        actions: &[RuleActionDef],
    ) -> (s: String)
        ensures
            s@ == rule_dsl(name@, device_id@, metric@, operator@, threshold as int, for_duration, actions@),
    {
        let mut s = cat3("RULE \"", name, "\"\n");
        s.append("WHEN ");
        s.append(device_id);
        s.append(".");
        s.append(metric);
        s.append(" ");
        s.append(operator);
        s.append(" ");
        s.append(milli_display_string(threshold).as_str());
        s.append("\n");
        s.append(for_text(for_duration).as_str());
        s.append("DO\n");
        let ghost head = s@;
        let mut i: usize = 0;
        while i < actions.len()
            invariant
                i <= actions@.len(),
                s@ == head + action_lines(actions@.subrange(0, i as int)),
            decreases actions@.len() - i,
        {
            assert(actions@.subrange(0, i + 1).drop_last() =~= actions@.subrange(0, i as int));
            s.append(action_text(&actions[i]).as_str());
            i = i + 1;
        }
        assert(actions@.subrange(0, i as int) =~= actions@);
        s.append("END");
        s
    }

    /// The rule that a description asks for, read from its lower-cased text.
    pub fn extract_from_description(&self, description: &str) -> (r: ExtractedRuleDefinition)
        ensures
            is_extracted(r, spec_lowercase(description@)),
    {
        let lower = to_lowercase(description);
        let d = lower.as_str();
        let threshold = self.extract_threshold(d);
        let operator = self.extract_operator(d);
        let (device_id, metric) = self.extract_device_metric(d);
        let actions = self.extract_actions(d);
        let for_duration = self.extract_duration(d);
        let name = self.generate_rule_name(metric.as_str(), threshold, operator.as_str());
        let mut text = cat3("当", metric.as_str(), operator.as_str());
        text.append(milli_display_string(threshold).as_str());
        text.append("时触发");
        let dsl = self.generate_dsl(
            name.as_str(), device_id.as_str(), metric.as_str(), operator.as_str(), threshold, for_duration,
            actions.as_slice(),
        );
        proof {
            lemma_action_lines(actions@, actions_of(d@));
        }
        let mut missing_info: Vec<String> = Vec::new();
        if device_id.as_str().unicode_len() == 0 {
            missing_info.push(owned("设备ID未指定"));
        }
        if metric.as_str().unicode_len() == 0 {
            missing_info.push(owned("监控指标未指定"));
        }
        if actions.len() == 0 {
            missing_info.push(owned("触发动作未指定"));
        }
        assert(texts(missing_info@) =~= missing_of(device_id@, metric@, actions@.len()));
        let confidence_milli: i64 = if missing_info.len() == 0 { 900 } else { 500 };
        ExtractedRuleDefinition {
            name,
            description: text,
            device_id,
            metric,
            operator,
            threshold_milli: threshold,
            for_duration,
            actions,
            dsl,
            confidence_milli,
            missing_info,
        }
    }
}


/// Whether `j` is the JSON object of an action given as its type and parameters.
pub open spec fn is_action_obj(j: Json, t: (Seq<char>, Seq<(Seq<char>, Seq<char>)>)) -> bool {
    j matches Json::Object(o) && o@.len() == 2 && has_text(o@, 0, "action_type"@, t.0) && o@[1].0@ == "params"@
        && (o@[1].1 matches Json::Object(p) && p@.len() == t.1.len()
            && forall|i: int| 0 <= i < p@.len() ==> #[trigger] has_text(p@, i, t.1[i].0, t.1[i].1))
}

/// Whether `j` holds an optional number (`null` for none).
pub open spec fn is_opt_count(j: Json, d: Option<u64>) -> bool {
    match d {
        Some(n) => is_count(j, n as nat),
        None => j == Json::Null,
    }
}

/// The warning that the rule's device is not among the devices of the context.
pub open spec fn context_warning(device: Seq<char>) -> Seq<char> {
    "警告: 指定设备 '"@ + device + "' 不在上下文设备列表中"@
}

/// Whether the context lists devices without the rule's device.
pub open spec fn device_outside(context: Option<Json>, device: Seq<char>) -> bool {
    match context {
        Some(Json::Array(a)) => !strings_in(a@).contains(device),
        _ => false,
    }
}

/// Whether `j` is what `rule.from_context` answers for the lower-cased
/// description `d` and the devices of the context.
pub open spec fn is_rule_response(j: Json, d: Seq<char>, context: Option<Json>) -> bool {
    let (dev, met) = device_metric_of(d);
    let op = operator_of(d);
    let th = threshold_of(d);
    let acts = actions_of(d);
    let dur = duration_of(d);
    let base = missing_of(dev, met, acts.len());
    let warn = device_outside(context, dev);
    let missing = if warn { base.push(context_warning(dev)) } else { base };
    let base_conf: int = if base.len() == 0 { 900 } else { 500 };
    let conf: int = if warn { if base_conf - 200 > 100 { base_conf - 200 } else { 100 } } else { base_conf };
    let name = rule_name(met, th, op);
    let dsl = "RULE \""@ + name + "\"\n"@ + "WHEN "@ + dev + "."@ + met + " "@ + op + " "@ + milli_display(th)
        + "\n"@ + for_clause(dur) + "DO\n"@ + spec_action_lines(acts) + "END"@;
    let steps = if missing.len() == 0 {
        seq!["确认无误后，调用 create_rule 创建规则"@]
    } else {
        seq!["请补充缺失信息: "@ + join(missing, ", "@)]
    };
    j matches Json::Object(o) && o@.len() == 4
        && o@[0].0@ == "rule"@ && (o@[0].1 matches Json::Object(r) && r@.len() == 7
            && has_text(r@, 0, "name"@, name)
            && has_text(r@, 1, "description"@, "当"@ + met + op + milli_display(th) + "时触发"@)
            && has_text(r@, 2, "dsl"@, dsl)
            && has_text(r@, 3, "device_id"@, dev)
            && has_text(r@, 4, "metric"@, met)
            && r@[5].0@ == "condition"@ && (r@[5].1 matches Json::Object(c) && c@.len() == 3
                && has_text(c@, 0, "operator"@, op)
                && c@[1].0@ == "threshold"@ && (c@[1].1 matches Json::Real(t) && t@ == milli_text(th))
                && c@[2].0@ == "for_duration"@ && is_opt_count(c@[2].1, dur))
            && r@[6].0@ == "actions"@ && (r@[6].1 matches Json::Array(a) && a@.len() == acts.len()
                && forall|i: int| 0 <= i < a@.len() ==> is_action_obj(#[trigger] a@[i], acts[i])))
        && o@[1].0@ == "confidence"@ && (o@[1].1 matches Json::Real(t) && t@ == milli_text(conf))
        && o@[2].0@ == "missing_info"@ && is_text_array(o@[2].1, missing)
        && o@[3].0@ == "next_steps"@ && is_text_array(o@[3].1, steps)
}

/// The scenarios in which `rule.from_context` helps.
pub open spec fn rule_scenarios() -> Seq<(Seq<char>, Seq<char>, Option<Seq<char>>)> {
    seq![
        ("从自然语言创建高温告警规则"@, "温度超过50度时告警"@, Some("\x7b\"name\": \"rule.from_context\", \"arguments\": \x7b\"description\": \"温度超过50度时告警\"\x7d\x7d"@)),
        ("创建带持续时间和动作的规则"@, "温度持续5分钟超过30度时开风扇"@, Some("\x7b\"name\": \"rule.from_context\", \"arguments\": \x7b\"description\": \"温度持续5分钟超过30度时开风扇\"\x7d\x7d"@)),
        ("创建多动作规则"@, "湿度低于30%时告警并开启加湿器"@, Some("\x7b\"name\": \"rule.from_context\", \"arguments\": \x7b\"description\": \"湿度低于30%时告警并开启加湿器\"\x7d\x7d"@)),
    ]
}

fn u64_json(n: u64) -> (j: Json)
    ensures
        is_count(j, n as nat),
{
    if n <= i64::MAX as u64 {
        Json::Int(n as i64)
    } else {
        Json::Real(u64_text(n))
    }
}

fn action_json(a: &RuleActionDef, Ghost(t): Ghost<(Seq<char>, Seq<(Seq<char>, Seq<char>)>)>) -> (j: Json)
    requires
        is_action(*a, t),
    ensures
        is_action_obj(j, t),
{
    let mut p: Vec<(String, Json)> = Vec::new();
    match &a.params {
        Json::Object(m) => {
            let mut i: usize = 0;
            while i < m.len()
                invariant
                    a.params == Json::Object(*m),
                    is_action(*a, t),
                    m@.len() == t.1.len(),
                    forall|k: int| 0 <= k < m@.len() ==> #[trigger] has_text(m@, k, t.1[k].0, t.1[k].1),
                    i <= m@.len(),
                    p@.len() == i,
                    forall|k: int| 0 <= k < i ==> #[trigger] has_text(p@, k, t.1[k].0, t.1[k].1),
                decreases m@.len() - i,
            {
                assert(has_text(m@, i as int, t.1[i as int].0, t.1[i as int].1));
                let ghost prev = p@;
                let v = match m[i].1.as_text() {
                    Some(x) => Json::Str(x.clone()),
                    None => Json::Null,
                };
                p.push((m[i].0.clone(), v));
                assert forall|k: int| 0 <= k < i + 1 implies #[trigger] has_text(p@, k, t.1[k].0, t.1[k].1) by {
                    if k < i {
                        assert(has_text(prev, k, t.1[k].0, t.1[k].1));
                        assert(p@[k] == prev[k]);
                    }
                }
                i = i + 1;
            }
        },
        _ => {},
    }
    let mut o: Vec<(String, Json)> = Vec::new();
    o.push((owned("action_type"), Json::Str(a.action_type.clone())));
    o.push((owned("params"), Json::Object(p)));
    Json::Object(o)
}

fn text_array(v: &Vec<String>) -> (j: Json)
    ensures
        is_text_array(j, texts(v@)),
{
    let mut a: Vec<Json> = Vec::new();
    let mut i: usize = 0;
    while i < v.len()
        invariant
            i <= v@.len(),
            a@.len() == i,
            forall|k: int| 0 <= k < i ==> (#[trigger] a@[k]).text() == Some(v@[k]@),
        decreases v@.len() - i,
    {
        a.push(Json::Str(v[i].clone()));
        i = i + 1;
    }
    Json::Array(a)
}

fn contains_device(ids: &Vec<String>, device: &str) -> (b: bool)
    ensures
        b == texts(ids@).contains(device@),
{
    let mut i: usize = 0;
    while i < ids.len()
        invariant
            i <= ids@.len(),
            forall|k: int| 0 <= k < i ==> #[trigger] ids@[k]@ != device@,
        decreases ids@.len() - i,
    {
        if same_text(ids[i].as_str(), device) {
            assert(texts(ids@)[i as int] == device@);
            return true;
        }
        i = i + 1;
    }
    proof {
        if texts(ids@).contains(device@) {
            let k = choose|k: int| 0 <= k < texts(ids@).len() && texts(ids@)[k] == device@;
            assert(ids@[k]@ == device@);
        }
    }
    false
}

impl RuleFromContextTool {
    /// The name under which the model calls the tool.
    pub fn name(&self) -> (s: &'static str)
        ensures
            s@ == "rule.from_context"@,
    {
        "rule.from_context"
    }

    /// What the tool does, for the model.
    pub fn description(&self) -> (s: &'static str)
        ensures
            s@ == "从自然语言描述中提取规则信息，生成结构化的规则定义和DSL。支持从对话上下文中理解用户意图，自动提取：- 监控设备和指标（如：温度、湿度）- 触发条件（如：超过50度）- 持续时间（如：持续5分钟）- 触发动作（如：告警、开启设备）用法示例: - '温度超过50度时告警' → 生成高温告警规则 - '温度持续5分钟超过30度时开风扇' → 生成带持续时间的规则"@,
    {
        "从自然语言描述中提取规则信息，生成结构化的规则定义和DSL。支持从对话上下文中理解用户意图，自动提取：- 监控设备和指标（如：温度、湿度）- 触发条件（如：超过50度）- 持续时间（如：持续5分钟）- 触发动作（如：告警、开启设备）用法示例: - '温度超过50度时告警' → 生成高温告警规则 - '温度持续5分钟超过30度时开风扇' → 生成带持续时间的规则"
    }

    /// The category of the tool.
    pub fn category(&self) -> (c: ToolCategory)
        ensures
            c == ToolCategory::Rule,
    {
        ToolCategory::Rule
    }

    /// The schema of the arguments; the description is required.
    pub fn parameters(&self) -> (j: Json)
        ensures
            requires_names(j, seq!["description"@]),
    {
        let mut props: Vec<(String, Json)> = Vec::new();
        props.push((owned("description"), string_property("自然语言规则描述，如'温度超过50度时告警'")));
        props.push((owned("context_devices"), array_property("string", "可选：上下文中的设备ID列表，用于验证")));
        props.push((owned("confirm"), boolean_property("是否确认创建规则，默认false仅预览")));
        let mut required: Vec<String> = Vec::new();
        required.push(owned("description"));
        assert(required@.map_values(|s: String| s@) =~= seq!["description"@]);
        object_schema(Json::Object(props), required)
    }

    /// The situations in which the tool helps.
    pub fn scenarios(&self) -> (v: Vec<UsageScenario>)
        ensures
            v@.map_values(|u: UsageScenario| scenario_view(u)) == rule_scenarios(),
    {
        let mut v: Vec<UsageScenario> = Vec::new();
        v.push(scenario("从自然语言创建高温告警规则", "温度超过50度时告警", "\x7b\"name\": \"rule.from_context\", \"arguments\": \x7b\"description\": \"温度超过50度时告警\"\x7d\x7d"));
        v.push(scenario("创建带持续时间和动作的规则", "温度持续5分钟超过30度时开风扇", "\x7b\"name\": \"rule.from_context\", \"arguments\": \x7b\"description\": \"温度持续5分钟超过30度时开风扇\"\x7d\x7d"));
        v.push(scenario("创建多动作规则", "湿度低于30%时告警并开启加湿器", "\x7b\"name\": \"rule.from_context\", \"arguments\": \x7b\"description\": \"湿度低于30%时告警并开启加湿器\"\x7d\x7d"));
        assert(v@.map_values(|u: UsageScenario| scenario_view(u)) =~= rule_scenarios());
        v
    }

    /// What to call before the tool and what its output feeds.
    pub fn relationships(&self) -> (r: ToolRelationships)
        ensures
            texts(r.call_after@) == seq!["device.discover"@],
            texts(r.output_to@) == seq!["create_rule"@],
            r.exclusive_with@.len() == 0,
    {
        let mut call_after: Vec<String> = Vec::new();
        call_after.push(owned("device.discover"));
        let mut output_to: Vec<String> = Vec::new();
        output_to.push(owned("create_rule"));
        assert(texts(call_after@) =~= seq!["device.discover"@]);
        assert(texts(output_to@) =~= seq!["create_rule"@]);
        ToolRelationships { call_after, output_to, exclusive_with: Vec::new() }
    }

    /// Reads a rule out of the description of the arguments and answers it
    /// with its DSL, the confidence, what is missing and what to do next; a
    /// device outside the devices of the context lowers the confidence.
    pub fn execute(&self, args: &Json) -> (r: Result<ToolOutput, ToolError>)
        ensures
            match text_arg(seq!["description"@], *args, "description"@, "description must be a string"@) {
                Err(m) => invalid(r, m),
                Ok(desc) => r matches Ok(o) && o.success && o.error is None && o.metadata is None
                    && is_rule_response(o.data, spec_lowercase(desc), args.member("context_devices"@)),
            },
    {
        let schema = self.parameters();
        let ghost names = seq!["description"@];
        let desc = match required_text_arg(&schema, Ghost(names), args, "description", "description must be a string") {
            Ok(d) => d,
            Err(e) => {
                return Err(e);
            },
        };
        let rule = self.extract_from_description(desc.as_str());
        let ghost d = spec_lowercase(desc@);
        let mut missing = rule.missing_info;
        let mut confidence = rule.confidence_milli;
        match args.get("context_devices") {
            Some(Json::Array(a)) => {
                let ids = crate::tools::control::text_strings(a);
                if !contains_device(&ids, rule.device_id.as_str()) {
                    let ghost before = missing@;
                    missing.push(cat3("警告: 指定设备 '", rule.device_id.as_str(), "' 不在上下文设备列表中"));
                    assert(texts(missing@) =~= texts(before).push(context_warning(rule.device_id@)));
                    confidence = if confidence - 200 > 100 { confidence - 200 } else { 100 };
                }
            },
            _ => {},
        }
        let steps_text = if missing.len() == 0 {
            owned("确认无误后，调用 create_rule 创建规则")
        } else {
            cat("请补充缺失信息: ", join_texts(&missing, ", ").as_str())
        };
        let mut steps: Vec<String> = Vec::new();
        steps.push(steps_text);
        let ghost acts = actions_of(d);
        let mut actions_json: Vec<Json> = Vec::new();
        let mut i: usize = 0;
        while i < rule.actions.len()
            invariant
                i <= rule.actions@.len(),
                rule.actions@.len() == acts.len(),
                forall|k: int| 0 <= k < acts.len() ==> is_action(#[trigger] rule.actions@[k], acts[k]),
                actions_json@.len() == i,
                forall|k: int| 0 <= k < i ==> is_action_obj(#[trigger] actions_json@[k], acts[k]),
            decreases rule.actions@.len() - i,
        {
            actions_json.push(action_json(&rule.actions[i], Ghost(acts[i as int])));
            i = i + 1;
        }
        let for_duration = match rule.for_duration {
            Some(n) => u64_json(n),
            None => Json::Null,
        };
        let mut condition: Vec<(String, Json)> = Vec::new();
        condition.push(text_pair("operator", rule.operator.as_str()));
        condition.push((owned("threshold"), Json::Real(milli_string(rule.threshold_milli))));
        condition.push((owned("for_duration"), for_duration));
        let mut body: Vec<(String, Json)> = Vec::new();
        body.push(text_pair("name", rule.name.as_str()));
        body.push(text_pair("description", rule.description.as_str()));
        body.push(text_pair("dsl", rule.dsl.as_str()));
        body.push(text_pair("device_id", rule.device_id.as_str()));
        body.push(text_pair("metric", rule.metric.as_str()));
        body.push((owned("condition"), Json::Object(condition)));
        body.push((owned("actions"), Json::Array(actions_json)));
        let mut o: Vec<(String, Json)> = Vec::new();
        o.push((owned("rule"), Json::Object(body)));
        o.push((owned("confidence"), Json::Real(milli_string(confidence))));
        o.push((owned("missing_info"), text_array(&missing)));
        o.push((owned("next_steps"), text_array(&steps)));
        proof {
            if missing@.len() > 0 {
                assert(texts(steps@) =~= seq!["请补充缺失信息: "@ + join(texts(missing@), ", "@)]);
            } else {
                assert(texts(steps@) =~= seq!["确认无误后，调用 create_rule 创建规则"@]);
            }
        }
        Ok(ToolOutput::success(Json::Object(o)))
    }
}

impl Default for RuleFromContextTool {
    fn default() -> (t: Self) {
        Self::mock()
    }
}

} // verus!
