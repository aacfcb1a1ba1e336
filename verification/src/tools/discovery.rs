//! Device discovery: the mock device registry, grouping devices for display,
//! and the `device.discover` tool that lists, filters, groups and counts them.
use vstd::prelude::*;
use crate::json::{has_text, member_of, same, Json};
use crate::sort::{ascending, sorted_distinct};
use crate::table::{distinct_keys, Table};
use crate::text::{milli_string, milli_text, owned, same_text, spec_contains};
use crate::tools::devices::{
    calculate_summary, has_all, holds_tally, locations_of, metric_view, online_count, readings, same_device,
    same_devices, spec_matches, tally, types_of, CommandInfo, DeviceCapabilities, DeviceFilter, DeviceGroup,
    DeviceInfo, MetricInfo, ParameterInfo,
};
use crate::tools::builtin::{count, is_count};
use crate::tools::catalog::{ToolCategory, UsageScenario};
use crate::tools::error::ToolError;
use crate::tools::tool::{
    array_property, boolean_property, is_property, object_schema, requires_names, string_property, ToolOutput,
};
use crate::workflow::templates::{opt_text, texts};

verus! {

// ------------------------------------------------------------ device JSON

/// Whether `j` is the JSON object of a metric.
pub open spec fn is_metric_obj(j: Json, m: MetricInfo) -> bool {
    j matches Json::Object(o) && o@.len() == 4 && has_text(o@, 0, "name"@, m.name@)
        && has_text(o@, 1, "display_name"@, m.display_name@) && has_text(o@, 2, "unit"@, m.unit@)
        && has_text(o@, 3, "data_type"@, m.data_type@)
}

/// Whether `j` holds the optional JSON value `v` (`null` for none).
pub open spec fn is_opt_json(j: Json, v: Option<Json>) -> bool {
    match v {
        Some(x) => same(j, x),
        None => j == Json::Null,
    }
}

/// Whether `j` is the JSON object of a command parameter.
pub open spec fn is_param_obj(j: Json, p: ParameterInfo) -> bool {
    j matches Json::Object(o) && o@.len() == 4 && has_text(o@, 0, "name"@, p.name@)
        && has_text(o@, 1, "display_name"@, p.display_name@) && has_text(o@, 2, "data_type"@, p.data_type@)
        && o@[3].0@ == "default_value"@ && is_opt_json(o@[3].1, p.default_value)
}

/// Whether `j` is the JSON object of a command.
pub open spec fn is_command_obj(j: Json, c: CommandInfo) -> bool {
    j matches Json::Object(o) && o@.len() == 3 && has_text(o@, 0, "name"@, c.name@)
        && has_text(o@, 1, "display_name"@, c.display_name@) && o@[2].0@ == "parameters"@
        && (o@[2].1 matches Json::Array(ps) && ps@.len() == c.parameters@.len()
            && forall|i: int| 0 <= i < ps@.len() ==> is_param_obj(#[trigger] ps@[i], c.parameters@[i]))
}

/// Whether `j` is the JSON object of capabilities with these metrics and commands.
pub open spec fn is_caps_obj(j: Json, metrics: Seq<MetricInfo>, commands: Seq<CommandInfo>) -> bool {
    j matches Json::Object(o) && o@.len() == 2 && o@[0].0@ == "metrics"@ && o@[1].0@ == "commands"@
        && (o@[0].1 matches Json::Array(ms) && ms@.len() == metrics.len()
            && forall|i: int| 0 <= i < ms@.len() ==> is_metric_obj(#[trigger] ms@[i], metrics[i]))
        && (o@[1].1 matches Json::Array(cs) && cs@.len() == commands.len()
            && forall|i: int| 0 <= i < cs@.len() ==> is_command_obj(#[trigger] cs@[i], commands[i]))
}

/// Whether `j` holds the readings: an object of numbers, or `null` for none.
pub open spec fn is_readings_json(j: Json, r: Option<Seq<(Seq<char>, i64)>>) -> bool {
    match r {
        Some(items) => j matches Json::Object(o) && o@.len() == items.len() && forall|i: int|
            0 <= i < o@.len() ==> (#[trigger] o@[i]).0@ == items[i].0
                && (o@[i].1 matches Json::Real(t) && t@ == milli_text(items[i].1 as int)),
        None => j == Json::Null,
    }
}

/// Whether `j` is an array of the given texts.
pub open spec fn is_text_array(j: Json, ts: Seq<Seq<char>>) -> bool {
    j matches Json::Array(a) && a@.len() == ts.len() && forall|i: int| 0 <= i < a@.len() ==> (#[trigger] a@[i]).text() == Some(ts[i])
}

/// Whether `j` holds an optional text (`null` for none).
pub open spec fn is_opt_text(j: Json, t: Option<Seq<char>>) -> bool {
    match t {
        Some(s) => j.text() == Some(s),
        None => j == Json::Null,
    }
}

/// Whether `j` is the JSON object of a device; without data its readings
/// are `null`, without capabilities its metrics and commands are empty.
pub open spec fn is_device_obj(j: Json, d: DeviceInfo, with_data: bool, with_caps: bool) -> bool {
    j matches Json::Object(o) && o@.len() == 8 && has_text(o@, 0, "id"@, d.id@)
        && has_text(o@, 1, "name"@, d.name@) && has_text(o@, 2, "device_type"@, d.device_type@)
        && o@[3].0@ == "location"@ && is_opt_text(o@[3].1, opt_text(d.location))
        && has_text(o@, 4, "status"@, d.status@)
        && o@[5].0@ == "tags"@ && is_text_array(o@[5].1, texts(d.tags@))
        && o@[6].0@ == "capabilities"@ && (if with_caps {
            is_caps_obj(o@[6].1, d.capabilities.metrics@, d.capabilities.commands@)
        } else {
            is_caps_obj(o@[6].1, Seq::empty(), Seq::empty())
        })
        && o@[7].0@ == "latest_data"@ && is_readings_json(o@[7].1, if with_data { readings(d.latest_data) } else { None })
}

fn text_member(key: &str, value: &str) -> (m: (String, Json))
    ensures
        m.0@ == key@,
        m.1.text() == Some(value@),
{
    (owned(key), Json::Str(owned(value)))
}

impl MetricInfo {
    /// The metric as a JSON object.
    pub fn to_json(&self) -> (j: Json)
        ensures
            is_metric_obj(j, *self),
    {
        let mut o: Vec<(String, Json)> = Vec::new();
        o.push(text_member("name", self.name.as_str()));
        o.push(text_member("display_name", self.display_name.as_str()));
        o.push(text_member("unit", self.unit.as_str()));
        o.push(text_member("data_type", self.data_type.as_str()));
        Json::Object(o)
    }
}

impl ParameterInfo {
    /// The parameter as a JSON object.
    pub fn to_json(&self) -> (j: Json)
        ensures
            is_param_obj(j, *self),
    {
        let d = match &self.default_value {
            Some(v) => v.copy(),
            None => Json::Null,
        };
        let mut o: Vec<(String, Json)> = Vec::new();
        o.push(text_member("name", self.name.as_str()));
        o.push(text_member("display_name", self.display_name.as_str()));
        o.push(text_member("data_type", self.data_type.as_str()));
        o.push((owned("default_value"), d));
        Json::Object(o)
    }
}

impl CommandInfo {
    /// The command as a JSON object.
    pub fn to_json(&self) -> (j: Json)
        ensures
            is_command_obj(j, *self),
    {
        let mut ps: Vec<Json> = Vec::new();
        let mut i: usize = 0;
        while i < self.parameters.len()
            invariant
                i <= self.parameters@.len(),
                ps@.len() == i,
                forall|k: int| 0 <= k < i ==> is_param_obj(#[trigger] ps@[k], self.parameters@[k]),
            decreases self.parameters@.len() - i,
        {
            ps.push(self.parameters[i].to_json());
            i = i + 1;
        }
        let mut o: Vec<(String, Json)> = Vec::new();
        o.push(text_member("name", self.name.as_str()));
        o.push(text_member("display_name", self.display_name.as_str()));
        o.push((owned("parameters"), Json::Array(ps)));
        Json::Object(o)
    }
}

fn metrics_array(ms: &Vec<MetricInfo>) -> (j: Json)
    ensures
        j matches Json::Array(a) && a@.len() == ms@.len()
            && forall|i: int| 0 <= i < a@.len() ==> is_metric_obj(#[trigger] a@[i], ms@[i]),
{
    let mut a: Vec<Json> = Vec::new();
    let mut i: usize = 0;
    while i < ms.len()
        invariant
            i <= ms@.len(),
            a@.len() == i,
            forall|k: int| 0 <= k < i ==> is_metric_obj(#[trigger] a@[k], ms@[k]),
        decreases ms@.len() - i,
    {
        a.push(ms[i].to_json());
        i = i + 1;
    }
    Json::Array(a)
}

fn commands_array(cs: &Vec<CommandInfo>) -> (j: Json)
    ensures
        j matches Json::Array(a) && a@.len() == cs@.len()
            && forall|i: int| 0 <= i < a@.len() ==> is_command_obj(#[trigger] a@[i], cs@[i]),
{
    let mut a: Vec<Json> = Vec::new();
    let mut i: usize = 0;
    while i < cs.len()
        invariant
            i <= cs@.len(),
            a@.len() == i,
            forall|k: int| 0 <= k < i ==> is_command_obj(#[trigger] a@[k], cs@[k]),
        decreases cs@.len() - i,
    {
        a.push(cs[i].to_json());
        i = i + 1;
    }
    Json::Array(a)
}

impl DeviceCapabilities {
    /// The capabilities as a JSON object.
    pub fn to_json(&self) -> (j: Json)
        ensures
            is_caps_obj(j, self.metrics@, self.commands@),
    {
        let mut o: Vec<(String, Json)> = Vec::new();
        o.push((owned("metrics"), metrics_array(&self.metrics)));
        o.push((owned("commands"), commands_array(&self.commands)));
        Json::Object(o)
    }
}

fn empty_caps_json() -> (j: Json)
    ensures
        is_caps_obj(j, Seq::empty(), Seq::empty()),
{
    let mut o: Vec<(String, Json)> = Vec::new();
    o.push((owned("metrics"), Json::Array(Vec::new())));
    o.push((owned("commands"), Json::Array(Vec::new())));
    Json::Object(o)
}

fn readings_json(t: &Table<i64>) -> (j: Json)
    ensures
        is_readings_json(j, Some(t.items())),
{
    let mut o: Vec<(String, Json)> = Vec::new();
    let n = t.len();
    let mut i: usize = 0;
    while i < n
        invariant
            n == t.items().len(),
            i <= n,
            o@.len() == i,
            forall|k: int| 0 <= k < i ==> (#[trigger] o@[k]).0@ == t.items()[k].0
                && (o@[k].1 matches Json::Real(s) && s@ == milli_text(t.items()[k].1 as int)),
        decreases n - i,
    {
        let k = t.key_at(i);
        let v = t.value_at(i);
        o.push((k.clone(), Json::Real(milli_string(*v))));
        i = i + 1;
    }
    Json::Object(o)
}

fn texts_array(ts: &Vec<String>) -> (j: Json)
    ensures
        is_text_array(j, texts(ts@)),
{
    let mut a: Vec<Json> = Vec::new();
    let mut i: usize = 0;
    while i < ts.len()
        invariant
            i <= ts@.len(),
            a@.len() == i,
            forall|k: int| 0 <= k < i ==> (#[trigger] a@[k]).text() == Some(ts@[k]@),
        decreases ts@.len() - i,
    {
        a.push(Json::Str(ts[i].clone()));
        i = i + 1;
    }
    Json::Array(a)
}

impl DeviceInfo {
    /// The device as a JSON object, with or without its latest readings
    /// and its capabilities.
    pub fn to_json(&self, with_data: bool, with_caps: bool) -> (j: Json)
        ensures
            is_device_obj(j, *self, with_data, with_caps),
    {
        let location = match &self.location {
            Some(l) => Json::Str(l.clone()),
            None => Json::Null,
        };
        let caps = if with_caps { self.capabilities.to_json() } else { empty_caps_json() };
        let data = if with_data {
            match &self.latest_data {
                Some(t) => readings_json(t),
                None => Json::Null,
            }
        } else {
            Json::Null
        };
        let mut o: Vec<(String, Json)> = Vec::new();
        o.push(text_member("id", self.id.as_str()));
        o.push(text_member("name", self.name.as_str()));
        o.push(text_member("device_type", self.device_type.as_str()));
        o.push((owned("location"), location));
        o.push(text_member("status", self.status.as_str()));
        o.push((owned("tags"), texts_array(&self.tags)));
        o.push((owned("capabilities"), caps));
        o.push((owned("latest_data"), data));
        Json::Object(o)
    }
}


// ------------------------------------------------------------ grouping

/// The name of the group that a device falls in when grouping by `group_by`.
pub open spec fn group_key(d: DeviceInfo, group_by: Seq<char>) -> Seq<char> {
    if group_by == "type"@ {
        d.device_type@
    } else if group_by == "location"@ {
        match d.location {
            Some(l) => l@,
            None => "未知"@,
        }
    } else if group_by == "status"@ {
        if d.status@ == "online"@ {
            "在线"@
        } else if d.status@ == "offline"@ {
            "离线"@
        } else {
            d.status@
        }
    } else {
        "其他"@
    }
}

/// Whether a device falls in the group named `name`.
pub open spec fn in_group(group_by: Seq<char>, name: Seq<char>) -> spec_fn(DeviceInfo) -> bool {
    |d: DeviceInfo| group_key(d, group_by) == name
}

/// The names of the groups, in order.
pub open spec fn group_names(gs: Seq<DeviceGroup>) -> Seq<Seq<char>> {
    gs.map_values(|g: DeviceGroup| g.name@)
}

/// Whether some group has the given name.
pub open spec fn has_group(gs: Seq<DeviceGroup>, name: Seq<char>) -> bool {
    exists|g: int| 0 <= g < gs.len() && #[trigger] gs[g].name@ == name
}

/// Filtering one more item keeps it exactly when it passes.
pub proof fn lemma_filter_step<A>(s: Seq<A>, p: spec_fn(A) -> bool, i: int)
    requires
        0 <= i < s.len(),
    ensures
        s.subrange(0, i + 1).filter(p) == (if p(s[i]) {
            s.subrange(0, i).filter(p).push(s[i])
        } else {
            s.subrange(0, i).filter(p)
        }),
{
    reveal(Seq::filter);
    assert(s.subrange(0, i + 1).drop_last() =~= s.subrange(0, i));
}

fn key_of(d: &DeviceInfo, group_by: &str) -> (k: String)
    ensures
        k@ == group_key(*d, group_by@),
{
    if same_text(group_by, "type") {
        d.device_type.clone()
    } else if same_text(group_by, "location") {
        match &d.location {
            Some(l) => l.clone(),
            None => owned("未知"),
        }
    } else if same_text(group_by, "status") {
        if same_text(d.status.as_str(), "online") {
            owned("在线")
        } else if same_text(d.status.as_str(), "offline") {
            owned("离线")
        } else {
            d.status.clone()
        }
    } else {
        owned("其他")
    }
}

/// Copies of all the devices.
pub fn copy_devices(devices: &[DeviceInfo]) -> (r: Vec<DeviceInfo>)
    ensures
        same_devices(r@, devices@),
{
    let mut r: Vec<DeviceInfo> = Vec::new();
    let mut i: usize = 0;
    while i < devices.len()
        invariant
            i <= devices@.len(),
            r@.len() == i,
            forall|k: int| 0 <= k < i ==> same_device(#[trigger] r@[k], devices@[k]),
        decreases devices@.len() - i,
    {
        r.push(devices[i].copy());
        i = i + 1;
    }
    r
}

fn devices_in(devices: &[DeviceInfo], group_by: &str, name: &str) -> (r: Vec<DeviceInfo>)
    ensures
        same_devices(r@, devices@.filter(in_group(group_by@, name@))),
{
    let ghost p = in_group(group_by@, name@);
    let mut r: Vec<DeviceInfo> = Vec::new();
    let mut i: usize = 0;
    proof {
        reveal(Seq::filter);
        assert(devices@.subrange(0, 0) =~= Seq::<DeviceInfo>::empty());
    }
    while i < devices.len()
        invariant
            i <= devices@.len(),
            p == in_group(group_by@, name@),
            same_devices(r@, devices@.subrange(0, i as int).filter(p)),
        decreases devices@.len() - i,
    {
        proof {
            lemma_filter_step(devices@, p, i as int);
        }
        let k = key_of(&devices[i], group_by);
        if same_text(k.as_str(), name) {
            r.push(devices[i].copy());
        }
        i = i + 1;
    }
    assert(devices@.subrange(0, i as int) =~= devices@);
    r
}

/// Gathers the devices into groups by type, location or status, named and
/// sorted by name; with "none" (or no devices) all of them form one group.
pub fn group_devices(devices: &[DeviceInfo], group_by: &str) -> (r: Vec<DeviceGroup>)
    ensures
        (group_by@ == "none"@ || devices@.len() == 0) ==> (r@.len() == 1 && r@[0].name@ == "所有设备"@
            && r@[0].count == devices@.len() && same_devices(r@[0].devices@, devices@)),
        !(group_by@ == "none"@ || devices@.len() == 0) ==> ascending(group_names(r@)),
        !(group_by@ == "none"@ || devices@.len() == 0) ==> forall|g: int| 0 <= g < r@.len()
            ==> (#[trigger] r@[g]).count == r@[g].devices@.len() && r@[g].count > 0
                && same_devices(r@[g].devices@, devices@.filter(in_group(group_by@, r@[g].name@))),
        !(group_by@ == "none"@ || devices@.len() == 0) ==> forall|i: int| 0 <= i < devices@.len()
            ==> has_group(r@, group_key(#[trigger] devices@[i], group_by@)),
{
    if same_text(group_by, "none") || devices.len() == 0 {
        let all = copy_devices(devices);
        let mut r: Vec<DeviceGroup> = Vec::new();
        r.push(DeviceGroup { name: owned("所有设备"), count: devices.len(), devices: all });
        return r;
    }
    let mut keys: Vec<String> = Vec::new();
    let mut i: usize = 0;
    while i < devices.len()
        invariant
            i <= devices@.len(),
            keys@.len() == i,
            forall|k: int| 0 <= k < i ==> (#[trigger] keys@[k])@ == group_key(devices@[k], group_by@),
        decreases devices@.len() - i,
    {
        keys.push(key_of(&devices[i], group_by));
        i = i + 1;
    }
    let ghost kv = keys@.map_values(|s: String| s@);
    let names = sorted_distinct(keys);
    let ghost nv = names@.map_values(|s: String| s@);
    let mut r: Vec<DeviceGroup> = Vec::new();
    let mut g: usize = 0;
    while g < names.len()
        invariant
            g <= names@.len(),
            r@.len() == g,
            nv == names@.map_values(|s: String| s@),
            forall|k: int| 0 <= k < g ==> (#[trigger] r@[k]).name@ == names@[k]@ && r@[k].count == r@[k].devices@.len()
                && same_devices(r@[k].devices@, devices@.filter(in_group(group_by@, names@[k]@))),
        decreases names@.len() - g,
    {
        let ds = devices_in(devices, group_by, names[g].as_str());
        let count = ds.len();
        r.push(DeviceGroup { name: names[g].clone(), count, devices: ds });
        g = g + 1;
    }
    proof {
        assert(group_names(r@) =~= nv);
        assert forall|k: int| 0 <= k < r@.len() implies (#[trigger] r@[k]).count > 0 by {
            assert(nv.to_set().contains(nv[k]));
            assert(kv.to_set().contains(nv[k]));
            let i = choose|i: int| 0 <= i < kv.len() && kv[i] == nv[k];
            assert(kv[i] == keys@[i]@);
            let p = in_group(group_by@, names@[k]@);
            assert(p(devices@[i]));
            devices@.lemma_filter_contains(p, i);
        }
        assert forall|i: int| 0 <= i < devices@.len() implies has_group(r@, group_key(#[trigger] devices@[i], group_by@)) by {
            assert(kv[i] == group_key(devices@[i], group_by@));
            assert(kv.to_set().contains(kv[i]));
            assert(nv.to_set().contains(kv[i]));
            let g = choose|g: int| 0 <= g < nv.len() && nv[g] == kv[i];
            assert(r@[g].name@ == nv[g]);
        }
    }
    r
}


// ------------------------------------------------------------ mock registry

/// A command parameter as its texts and default value.
pub open spec fn param_view(p: ParameterInfo) -> (Seq<char>, Seq<char>, Seq<char>, Option<Json>) {
    (p.name@, p.display_name@, p.data_type@, p.default_value)
}

/// A command as its texts and parameters.
pub open spec fn command_view(c: CommandInfo) -> (Seq<char>, Seq<char>, Seq<(Seq<char>, Seq<char>, Seq<char>, Option<Json>)>) {
    (c.name@, c.display_name@, c.parameters@.map_values(|p: ParameterInfo| param_view(p)))
}

/// The mock devices: id, name, type, location, status and tags.
pub open spec fn mock_rows() -> Seq<(Seq<char>, Seq<char>, Seq<char>, Seq<char>, Seq<char>, Seq<Seq<char>>)> {
    seq![
        ("sensor_temp_living"@, "客厅温度传感器"@, "DHT22"@, "客厅"@, "online"@, seq!["sensor"@, "temperature"@]),
        ("light_living_main"@, "客厅主灯"@, "SmartBulb"@, "客厅"@, "online"@, seq!["actuator"@, "light"@]),
        ("sensor_temp_bedroom"@, "卧室温度传感器"@, "DHT22"@, "卧室"@, "online"@, seq!["sensor"@, "temperature"@]),
        ("ac_bedroom"@, "卧室空调"@, "AirConditioner"@, "卧室"@, "online"@, seq!["actuator"@, "hvac"@]),
        ("sensor_temp_kitchen"@, "厨房温度传感器"@, "DHT22"@, "厨房"@, "online"@, seq!["sensor"@, "temperature"@]),
        ("light_kitchen"@, "厨房灯"@, "SmartBulb"@, "厨房"@, "online"@, seq!["actuator"@, "light"@]),
        ("light_bathroom"@, "浴室灯"@, "SmartBulb"@, "浴室"@, "offline"@, seq!["actuator"@, "light"@]),
    ]
}

/// The temperature metric.
pub open spec fn temperature_metric() -> (Seq<char>, Seq<char>, Seq<char>, Seq<char>) {
    ("temperature"@, "温度"@, "°C"@, "float"@)
}

/// The humidity metric.
pub open spec fn humidity_metric() -> (Seq<char>, Seq<char>, Seq<char>, Seq<char>) {
    ("humidity"@, "湿度"@, "%"@, "float"@)
}

/// The metrics of each mock device.
pub open spec fn mock_metrics() -> Seq<Seq<(Seq<char>, Seq<char>, Seq<char>, Seq<char>)>> {
    seq![
        seq![temperature_metric(), humidity_metric()],
        seq![("state"@, "状态"@, ""@, "boolean"@), ("brightness"@, "亮度"@, "%"@, "integer"@)],
        seq![temperature_metric(), humidity_metric()],
        seq![
            ("power_state"@, "电源状态"@, ""@, "boolean"@),
            ("current_temp"@, "当前温度"@, "°C"@, "float"@),
            ("target_temp"@, "目标温度"@, "°C"@, "float"@),
        ],
        seq![temperature_metric()],
        Seq::empty(),
        Seq::empty(),
    ]
}

/// Switching on and off, without parameters.
pub open spec fn switch_commands() -> Seq<(Seq<char>, Seq<char>, Seq<(Seq<char>, Seq<char>, Seq<char>, Option<Json>)>)> {
    seq![("turn_on"@, "打开"@, Seq::empty()), ("turn_off"@, "关闭"@, Seq::empty())]
}

/// The commands of each mock device.
pub open spec fn mock_commands() -> Seq<Seq<(Seq<char>, Seq<char>, Seq<(Seq<char>, Seq<char>, Seq<char>, Option<Json>)>)>> {
    seq![
        Seq::empty(),
        switch_commands().push(("set_brightness"@, "设置亮度"@, seq![("brightness"@, "亮度"@, "integer"@, Some(Json::Int(100)))])),
        Seq::empty(),
        switch_commands().push(("set_temperature"@, "设置温度"@, seq![("temperature"@, "温度"@, "float"@, Some(Json::Int(24)))])),
        Seq::empty(),
        switch_commands(),
        switch_commands(),
    ]
}

/// The latest readings of each mock device, in thousandths.
pub open spec fn mock_readings() -> Seq<Option<Seq<(Seq<char>, i64)>>> {
    seq![
        Some(seq![("temperature"@, 26500i64), ("humidity"@, 60000i64)]),
        Some(seq![("state"@, 0i64), ("brightness"@, 0i64)]),
        Some(seq![("temperature"@, 24000i64), ("humidity"@, 55000i64)]),
        Some(seq![("power_state"@, 0i64), ("current_temp"@, 24000i64), ("target_temp"@, 24000i64)]),
        Some(seq![("temperature"@, 28000i64)]),
        None,
        None,
    ]
}

/// Whether `d` is the mock device at position `i`.
pub open spec fn is_mock_device(d: DeviceInfo, i: int) -> bool {
    let row = mock_rows()[i];
    &&& d.id@ == row.0
    &&& d.name@ == row.1
    &&& d.device_type@ == row.2
    &&& opt_text(d.location) == Some(row.3)
    &&& d.status@ == row.4
    &&& texts(d.tags@) == row.5
    &&& d.capabilities.metrics@.map_values(|m: MetricInfo| metric_view(m)) == mock_metrics()[i]
    &&& d.capabilities.commands@.map_values(|c: CommandInfo| command_view(c)) == mock_commands()[i]
    &&& readings(d.latest_data) == mock_readings()[i]
}

fn metric(name: &str, display_name: &str, unit: &str, data_type: &str) -> (m: MetricInfo)
    ensures
        metric_view(m) == (name@, display_name@, unit@, data_type@),
{
    MetricInfo { name: owned(name), display_name: owned(display_name), unit: owned(unit), data_type: owned(data_type) }
}

fn command(name: &str, display_name: &str, parameters: Vec<ParameterInfo>) -> (c: CommandInfo)
    ensures
        c.name@ == name@,
        c.display_name@ == display_name@,
        c.parameters == parameters,
{
    CommandInfo { name: owned(name), display_name: owned(display_name), parameters }
}

fn int_param(name: &str, display_name: &str, data_type: &str, default: i64) -> (p: ParameterInfo)
    ensures
        param_view(p) == (name@, display_name@, data_type@, Some(Json::Int(default))),
{
    ParameterInfo {
        name: owned(name),
        display_name: owned(display_name),
        data_type: owned(data_type),
        default_value: Some(Json::Int(default)),
    }
}

fn switches() -> (cs: Vec<CommandInfo>)
    ensures
        cs@.map_values(|c: CommandInfo| command_view(c)) == switch_commands(),
{
    let mut cs: Vec<CommandInfo> = Vec::new();
    cs.push(command("turn_on", "打开", Vec::new()));
    cs.push(command("turn_off", "关闭", Vec::new()));
    assert(cs@[0].parameters@.map_values(|p: ParameterInfo| param_view(p)) =~= Seq::empty());
    assert(cs@[1].parameters@.map_values(|p: ParameterInfo| param_view(p)) =~= Seq::empty());
    assert(cs@.map_values(|c: CommandInfo| command_view(c)) =~= switch_commands());
    cs
}

fn pair(a: &str, b: &str) -> (v: Vec<String>)
    ensures
        texts(v@) == seq![a@, b@],
{
    let mut v: Vec<String> = Vec::new();
    v.push(owned(a));
    v.push(owned(b));
    assert(texts(v@) =~= seq![a@, b@]);
    v
}

fn readings1(k: &str, v: i64) -> (t: Table<i64>)
    ensures
        t.items() == seq![(k@, v)],
{
    let mut t: Table<i64> = Table::new();
    t.insert(owned(k), v);
    assert(t.items() =~= seq![(k@, v)]);
    t
}

fn readings2(k1: &str, v1: i64, k2: &str, v2: i64) -> (t: Table<i64>)
    requires
        k1@ != k2@,
    ensures
        t.items() == seq![(k1@, v1), (k2@, v2)],
{
    let mut t = readings1(k1, v1);
    t.insert(owned(k2), v2);
    assert(t.items() =~= seq![(k1@, v1), (k2@, v2)]);
    t
}

fn readings3(k1: &str, v1: i64, k2: &str, v2: i64, k3: &str, v3: i64) -> (t: Table<i64>)
    requires
        k1@ != k2@,
        k1@ != k3@,
        k2@ != k3@,
    ensures
        t.items() == seq![(k1@, v1), (k2@, v2), (k3@, v3)],
{
    let mut t = readings2(k1, v1, k2, v2);
    t.insert(owned(k3), v3);
    assert(t.items() =~= seq![(k1@, v1), (k2@, v2), (k3@, v3)]);
    t
}

fn device(
    id: &str,
    name: &str,
    device_type: &str,
    location: &str,
    status: &str,
    tags: Vec<String>,
    metrics: Vec<MetricInfo>,
    commands: Vec<CommandInfo>,
    latest_data: Option<Table<i64>>,
) -> (d: DeviceInfo)
    ensures
        d.id@ == id@,
        d.name@ == name@,
        d.device_type@ == device_type@,
        opt_text(d.location) == Some(location@),
        d.status@ == status@,
        d.tags == tags,
        d.capabilities.metrics == metrics,
        d.capabilities.commands == commands,
        d.latest_data == latest_data,
{
    DeviceInfo {
        id: owned(id),
        name: owned(name),
        device_type: owned(device_type),
        location: Some(owned(location)),
        status: owned(status),
        tags,
        capabilities: DeviceCapabilities { metrics, commands },
        latest_data,
    }
}

fn temperature_humidity() -> (ms: Vec<MetricInfo>)
    ensures
        ms@.map_values(|m: MetricInfo| metric_view(m)) == seq![temperature_metric(), humidity_metric()],
{
    let mut ms: Vec<MetricInfo> = Vec::new();
    ms.push(metric("temperature", "温度", "°C", "float"));
    ms.push(metric("humidity", "湿度", "%", "float"));
    assert(ms@.map_values(|m: MetricInfo| metric_view(m)) =~= seq![temperature_metric(), humidity_metric()]);
    ms
}

proof fn lemma_reading_keys_differ()
    ensures
        "temperature"@ != "humidity"@,
        "state"@ != "brightness"@,
        "power_state"@ != "current_temp"@,
        "power_state"@ != "target_temp"@,
        "current_temp"@ != "target_temp"@,
{
    assert("temperature"@.len() == 11 && "humidity"@.len() == 8) by {
        reveal_strlit("temperature");
        reveal_strlit("humidity");
    }
    assert("state"@.len() == 5 && "brightness"@.len() == 10) by {
        reveal_strlit("state");
        reveal_strlit("brightness");
    }
    assert("power_state"@.len() == 11 && "current_temp"@.len() == 12 && "target_temp"@.len() == 11) by {
        reveal_strlit("power_state");
        reveal_strlit("current_temp");
        reveal_strlit("target_temp");
    }
    assert("power_state"@[0] == 'p' && "target_temp"@[0] == 't') by {
        reveal_strlit("power_state");
        reveal_strlit("target_temp");
    }
}

fn living_sensor() -> (d: DeviceInfo)
    ensures
        is_mock_device(d, 0),
{
    proof {
        lemma_reading_keys_differ();
    }
    let d = device(
        "sensor_temp_living", "客厅温度传感器", "DHT22", "客厅", "online", pair("sensor", "temperature"),
        temperature_humidity(), Vec::new(), Some(readings2("temperature", 26500, "humidity", 60000)),
    );
    assert(d.capabilities.commands@.map_values(|c: CommandInfo| command_view(c)) =~= Seq::empty());
    d
}

fn living_light() -> (d: DeviceInfo)
    ensures
        is_mock_device(d, 1),
{
    proof {
        lemma_reading_keys_differ();
    }
    let mut ms: Vec<MetricInfo> = Vec::new();
    ms.push(metric("state", "状态", "", "boolean"));
    ms.push(metric("brightness", "亮度", "%", "integer"));
    let mut cs = switches();
    let mut ps: Vec<ParameterInfo> = Vec::new();
    ps.push(int_param("brightness", "亮度", "integer", 100));
    let ghost before = cs@;
    cs.push(command("set_brightness", "设置亮度", ps));
    let d = device(
        "light_living_main", "客厅主灯", "SmartBulb", "客厅", "online", pair("actuator", "light"), ms, cs,
        Some(readings2("state", 0, "brightness", 0)),
    );
    assert(d.capabilities.metrics@.map_values(|m: MetricInfo| metric_view(m)) =~= mock_metrics()[1]);
    assert(cs@.last().parameters@.map_values(|p: ParameterInfo| param_view(p)) =~= seq![("brightness"@, "亮度"@, "integer"@, Some(Json::Int(100)))]);
    assert(cs@.map_values(|c: CommandInfo| command_view(c)) =~= before.map_values(|c: CommandInfo| command_view(c)).push(command_view(cs@.last())));
    assert(d.capabilities.commands@.map_values(|c: CommandInfo| command_view(c)) =~= mock_commands()[1]);
    d
}

fn bedroom_sensor() -> (d: DeviceInfo)
    ensures
        is_mock_device(d, 2),
{
    proof {
        lemma_reading_keys_differ();
    }
    let d = device(
        "sensor_temp_bedroom", "卧室温度传感器", "DHT22", "卧室", "online", pair("sensor", "temperature"),
        temperature_humidity(), Vec::new(), Some(readings2("temperature", 24000, "humidity", 55000)),
    );
    assert(d.capabilities.commands@.map_values(|c: CommandInfo| command_view(c)) =~= Seq::empty());
    d
}

fn bedroom_ac() -> (d: DeviceInfo)
    ensures
        is_mock_device(d, 3),
{
    proof {
        lemma_reading_keys_differ();
    }
    let mut ms: Vec<MetricInfo> = Vec::new();
    ms.push(metric("power_state", "电源状态", "", "boolean"));
    ms.push(metric("current_temp", "当前温度", "°C", "float"));
    ms.push(metric("target_temp", "目标温度", "°C", "float"));
    let mut cs = switches();
    let mut ps: Vec<ParameterInfo> = Vec::new();
    ps.push(int_param("temperature", "温度", "float", 24));
    let ghost before = cs@;
    cs.push(command("set_temperature", "设置温度", ps));
    let d = device(
        "ac_bedroom", "卧室空调", "AirConditioner", "卧室", "online", pair("actuator", "hvac"), ms, cs,
        Some(readings3("power_state", 0, "current_temp", 24000, "target_temp", 24000)),
    );
    assert(d.capabilities.metrics@.map_values(|m: MetricInfo| metric_view(m)) =~= mock_metrics()[3]);
    assert(cs@.last().parameters@.map_values(|p: ParameterInfo| param_view(p)) =~= seq![("temperature"@, "温度"@, "float"@, Some(Json::Int(24)))]);
    assert(cs@.map_values(|c: CommandInfo| command_view(c)) =~= before.map_values(|c: CommandInfo| command_view(c)).push(command_view(cs@.last())));
    assert(d.capabilities.commands@.map_values(|c: CommandInfo| command_view(c)) =~= mock_commands()[3]);
    d
}

fn kitchen_sensor() -> (d: DeviceInfo)
    ensures
        is_mock_device(d, 4),
{
    let mut ms: Vec<MetricInfo> = Vec::new();
    ms.push(metric("temperature", "温度", "°C", "float"));
    let d = device(
        "sensor_temp_kitchen", "厨房温度传感器", "DHT22", "厨房", "online", pair("sensor", "temperature"), ms,
        Vec::new(), Some(readings1("temperature", 28000)),
    );
    assert(d.capabilities.metrics@.map_values(|m: MetricInfo| metric_view(m)) =~= mock_metrics()[4]);
    assert(d.capabilities.commands@.map_values(|c: CommandInfo| command_view(c)) =~= Seq::empty());
    d
}

fn light(id: &str, name: &str, location: &str, status: &str) -> (d: DeviceInfo)
    ensures
        d.id@ == id@,
        d.name@ == name@,
        d.device_type@ == "SmartBulb"@,
        opt_text(d.location) == Some(location@),
        d.status@ == status@,
        texts(d.tags@) == seq!["actuator"@, "light"@],
        d.capabilities.metrics@.map_values(|m: MetricInfo| metric_view(m)) == Seq::<(Seq<char>, Seq<char>, Seq<char>, Seq<char>)>::empty(),
        d.capabilities.commands@.map_values(|c: CommandInfo| command_view(c)) == switch_commands(),
        d.latest_data is None,
{
    let d = device(id, name, "SmartBulb", location, status, pair("actuator", "light"), Vec::new(), switches(), None);
    assert(d.capabilities.metrics@.map_values(|m: MetricInfo| metric_view(m)) =~= Seq::empty());
    d
}

/// A registry of devices held in memory, filled with sample devices.
pub struct MockDeviceRegistry {
    devices: Vec<DeviceInfo>,
}

/// The ids of the devices, in order.
pub open spec fn ids_of(ds: Seq<DeviceInfo>) -> Seq<Seq<char>> {
    ds.map_values(|d: DeviceInfo| d.id@)
}

/// The first position of `id` among `ids`.
pub open spec fn first_index(ids: Seq<Seq<char>>, id: Seq<char>) -> Option<int> {
    if exists|k: int| 0 <= k < ids.len() && #[trigger] ids[k] == id {
        Some(choose|k: int| 0 <= k < ids.len() && ids[k] == id && forall|j: int| 0 <= j < k ==> #[trigger] ids[j] != id)
    } else {
        None
    }
}

/// The position of the first device with the given id.
pub open spec fn first_with_id(ds: Seq<DeviceInfo>, id: Seq<char>) -> Option<int> {
    first_index(ids_of(ds), id)
}

/// The first position of an id holds that id.
pub proof fn lemma_first_index_range(ids: Seq<Seq<char>>, id: Seq<char>)
    ensures
        first_index(ids, id) matches Some(k) ==> 0 <= k < ids.len() && ids[k] == id,
{
    if exists|k: int| 0 <= k < ids.len() && #[trigger] ids[k] == id {
        lemma_first_exists(ids, id, ids.len() as int);
    }
}

proof fn lemma_first_exists(ids: Seq<Seq<char>>, id: Seq<char>, n: int)
    requires
        0 <= n <= ids.len(),
        exists|k: int| 0 <= k < n && #[trigger] ids[k] == id,
    ensures
        exists|k: int| 0 <= k < ids.len() && ids[k] == id && forall|j: int| 0 <= j < k ==> #[trigger] ids[j] != id,
    decreases n,
{
    if exists|k: int| 0 <= k < n - 1 && #[trigger] ids[k] == id {
        lemma_first_exists(ids, id, n - 1);
    } else {
        let k = choose|k: int| 0 <= k < n && #[trigger] ids[k] == id;
        assert(k == n - 1);
        assert(forall|j: int| 0 <= j < k ==> #[trigger] ids[j] != id);
    }
}

/// The first position found by a scan is the one `first_index` names.
pub proof fn lemma_first_index(ids: Seq<Seq<char>>, id: Seq<char>, k: int)
    requires
        0 <= k < ids.len(),
        ids[k] == id,
        forall|j: int| 0 <= j < k ==> #[trigger] ids[j] != id,
    ensures
        first_index(ids, id) == Some(k),
{
    assert(exists|k: int| 0 <= k < ids.len() && #[trigger] ids[k] == id);
    let c = choose|c: int| 0 <= c < ids.len() && ids[c] == id && forall|j: int| 0 <= j < c ==> #[trigger] ids[j] != id;
    if c < k {
        assert(ids[c] != id);
    } else if k < c {
        assert(ids[k] != id);
    }
}

fn position_of(ds: &Vec<DeviceInfo>, id: &str) -> (r: Option<usize>)
    ensures
        r matches Some(k) ==> k < ds@.len() && ds@[k as int].id@ == id@
            && forall|j: int| 0 <= j < k ==> #[trigger] ds@[j].id@ != id@,
        r is None ==> forall|j: int| 0 <= j < ds@.len() ==> #[trigger] ds@[j].id@ != id@,
{
    let mut i: usize = 0;
    while i < ds.len()
        invariant
            i <= ds@.len(),
            forall|j: int| 0 <= j < i ==> #[trigger] ds@[j].id@ != id@,
        decreases ds@.len() - i,
    {
        if same_text(ds[i].id.as_str(), id) {
            return Some(i);
        }
        i = i + 1;
    }
    None
}

impl MockDeviceRegistry {
    /// The devices, in order.
    pub closed spec fn devices(&self) -> Seq<DeviceInfo> {
        self.devices@
    }

    /// A registry with the seven sample devices: sensors, lights and an air
    /// conditioner in the living room, bedroom, kitchen and bathroom.
    pub fn new() -> (r: Self)
        ensures
            r.devices().len() == 7,
            forall|i: int| 0 <= i < 7 ==> is_mock_device(#[trigger] r.devices()[i], i),
    {
        let mut devices: Vec<DeviceInfo> = Vec::new();
        devices.push(living_sensor());
        devices.push(living_light());
        devices.push(bedroom_sensor());
        devices.push(bedroom_ac());
        devices.push(kitchen_sensor());
        let d5 = light("light_kitchen", "厨房灯", "厨房", "online");
        assert(is_mock_device(d5, 5));
        devices.push(d5);
        let d6 = light("light_bathroom", "浴室灯", "浴室", "offline");
        assert(is_mock_device(d6, 6));
        devices.push(d6);
        MockDeviceRegistry { devices }
    }

    /// The devices themselves.
    pub fn device_list(&self) -> (r: &Vec<DeviceInfo>)
        ensures
            r@ == self.devices(),
    {
        &self.devices
    }

    /// Copies of all devices.
    pub fn get_all(&self) -> (r: Vec<DeviceInfo>)
        ensures
            same_devices(r@, self.devices()),
    {
        copy_devices(self.devices.as_slice())
    }

    /// A copy of the first device with the given id.
    pub fn find_by_id(&self, id: &str) -> (r: Option<DeviceInfo>)
        ensures
            r is None <==> first_with_id(self.devices(), id@) is None,
            r matches Some(d) ==> (first_with_id(self.devices(), id@) matches Some(k) && same_device(d, self.devices()[k])),
    {
        let ghost ids = ids_of(self.devices());
        match position_of(&self.devices, id) {
            Some(k) => {
                proof {
                    assert forall|j: int| 0 <= j < k implies #[trigger] ids[j] != id@ by {
                        assert(self.devices()[j].id@ != id@);
                    }
                    lemma_first_index(ids, id@, k as int);
                }
                Some(self.devices[k].copy())
            },
            None => {
                proof {
                    if exists|k: int| 0 <= k < ids.len() && #[trigger] ids[k] == id@ {
                        let k = choose|k: int| 0 <= k < ids.len() && #[trigger] ids[k] == id@;
                        assert(self.devices()[k].id@ != id@);
                    }
                }
                None
            },
        }
    }

    fn find_where(&self, f: &DeviceFilter) -> (r: Vec<DeviceInfo>)
        ensures
            same_devices(r@, self.devices().filter(|d: DeviceInfo| spec_matches(*f, d))),
    {
        let ghost p = |d: DeviceInfo| spec_matches(*f, d);
        let ghost ds = self.devices();
        let mut r: Vec<DeviceInfo> = Vec::new();
        let mut i: usize = 0;
        proof {
            reveal(Seq::filter);
            assert(ds.subrange(0, 0) =~= Seq::<DeviceInfo>::empty());
        }
        while i < self.devices.len()
            invariant
                i <= ds.len(),
                ds == self.devices@,
                p == (|d: DeviceInfo| spec_matches(*f, d)),
                same_devices(r@, ds.subrange(0, i as int).filter(p)),
            decreases ds.len() - i,
        {
            proof {
                lemma_filter_step(ds, p, i as int);
            }
            if f.matches(&self.devices[i]) {
                r.push(self.devices[i].copy());
            }
            i = i + 1;
        }
        assert(ds.subrange(0, i as int) =~= ds);
        r
    }

    /// Copies of the devices that meet the filter.
    pub fn find_by_filter(&self, filter: &DeviceFilter) -> (r: Vec<DeviceInfo>)
        ensures
            same_devices(r@, self.devices().filter(|d: DeviceInfo| spec_matches(*filter, d))),
    {
        self.find_where(filter)
    }

    /// Copies of the devices at the location.
    pub fn find_by_location(&self, location: &str) -> (r: Vec<DeviceInfo>)
        ensures
            same_devices(r@, self.devices().filter(|d: DeviceInfo| opt_text(d.location) == Some(location@))),
    {
        let mut f = DeviceFilter::new();
        f.location = Some(owned(location));
        let r = self.find_where(&f);
        assert((|d: DeviceInfo| spec_matches(f, d)) =~= (|d: DeviceInfo| opt_text(d.location) == Some(location@)));
        r
    }

    /// Copies of the devices of the type.
    pub fn find_by_type(&self, device_type: &str) -> (r: Vec<DeviceInfo>)
        ensures
            same_devices(r@, self.devices().filter(|d: DeviceInfo| d.device_type@ == device_type@)),
    {
        let mut f = DeviceFilter::new();
        f.device_type = Some(owned(device_type));
        let r = self.find_where(&f);
        assert((|d: DeviceInfo| spec_matches(f, d)) =~= (|d: DeviceInfo| d.device_type@ == device_type@));
        r
    }

    /// Copies of the devices with the tag.
    pub fn find_by_tag(&self, tag: &str) -> (r: Vec<DeviceInfo>)
        ensures
            same_devices(r@, self.devices().filter(|d: DeviceInfo| texts(d.tags@).contains(tag@))),
    {
        let mut f = DeviceFilter::new();
        let mut ts: Vec<String> = Vec::new();
        ts.push(owned(tag));
        f.tags = Some(ts);
        let r = self.find_where(&f);
        assert forall|d: DeviceInfo| #[trigger] spec_matches(f, d) == texts(d.tags@).contains(tag@) by {
            assert(texts(ts@) =~= seq![tag@]);
            if texts(d.tags@).contains(tag@) {
                assert(has_all(texts(d.tags@), texts(ts@)));
            }
            if has_all(texts(d.tags@), texts(ts@)) {
                assert(texts(d.tags@).contains(texts(ts@)[0]));
            }
        }
        assert((|d: DeviceInfo| spec_matches(f, d)) =~= (|d: DeviceInfo| texts(d.tags@).contains(tag@)));
        r
    }

    /// Replaces the latest readings of the first device with the id; no
    /// device has it, nothing changes.
    pub fn update_device_data(&mut self, id: &str, data: Table<i64>)
        ensures
            first_with_id(old(self).devices(), id@) is None ==> final(self).devices() == old(self).devices(),
            first_with_id(old(self).devices(), id@) matches Some(k) ==> {
                &&& final(self).devices().len() == old(self).devices().len()
                &&& forall|j: int| 0 <= j < old(self).devices().len() && j != k
                    ==> #[trigger] final(self).devices()[j] == old(self).devices()[j]
                &&& final(self).devices()[k].latest_data == Some(data)
                &&& final(self).devices()[k].id == old(self).devices()[k].id
                &&& final(self).devices()[k].name == old(self).devices()[k].name
                &&& final(self).devices()[k].device_type == old(self).devices()[k].device_type
                &&& final(self).devices()[k].location == old(self).devices()[k].location
                &&& final(self).devices()[k].status == old(self).devices()[k].status
                &&& final(self).devices()[k].tags == old(self).devices()[k].tags
                &&& final(self).devices()[k].capabilities == old(self).devices()[k].capabilities
            },
    {
        let ghost ds = self.devices();
        let ghost ids = ids_of(ds);
        match position_of(&self.devices, id) {
            Some(k) => {
                proof {
                    assert forall|j: int| 0 <= j < k implies #[trigger] ids[j] != id@ by {
                        assert(ds[j].id@ != id@);
                    }
                    lemma_first_index(ids, id@, k as int);
                }
                let mut d = self.devices.remove(k);
                d.latest_data = Some(data);
                self.devices.insert(k, d);
            },
            None => {
                proof {
                    if exists|k: int| 0 <= k < ids.len() && #[trigger] ids[k] == id@ {
                        let k = choose|k: int| 0 <= k < ids.len() && #[trigger] ids[k] == id@;
                        assert(ds[k].id@ != id@);
                    }
                }
            },
        }
    }
}

impl Default for MockDeviceRegistry {
    fn default() -> (r: Self)
        ensures
            r.devices().len() == 7,
            forall|i: int| 0 <= i < 7 ==> is_mock_device(#[trigger] r.devices()[i], i),
    {
        Self::new()
    }
}


// ------------------------------------------------------------ device.discover

/// The strings among JSON values, in order.
pub open spec fn strings_in(a: Seq<Json>) -> Seq<Seq<char>>
    decreases a.len(),
{
    if a.len() == 0 {
        Seq::empty()
    } else {
        let p = strings_in(a.drop_last());
        match a.last().text() {
            Some(t) => p.push(t),
            None => p,
        }
    }
}

/// A filter as texts: type, location, status, tags and name fragment.
pub open spec fn filter_view(f: DeviceFilter) -> (Option<Seq<char>>, Option<Seq<char>>, Option<Seq<char>>, Option<Seq<Seq<char>>>, Option<Seq<char>>) {
    (
        opt_text(f.device_type),
        opt_text(f.location),
        opt_text(f.status),
        match f.tags {
            Some(ts) => Some(texts(ts@)),
            None => None,
        },
        opt_text(f.name_contains),
    )
}

/// The filter that the arguments of `device.discover` give: the string
/// members of the object under "filter", and its strings under "tags".
pub open spec fn filter_from_args(args: Json) -> (Option<Seq<char>>, Option<Seq<char>>, Option<Seq<char>>, Option<Seq<Seq<char>>>, Option<Seq<char>>) {
    match args.member("filter"@) {
        Some(fo) => if fo is Object {
            (
                fo.text_at("type"@),
                fo.text_at("location"@),
                fo.text_at("status"@),
                match fo.member("tags"@) {
                    Some(Json::Array(a)) => Some(strings_in(a@)),
                    _ => None,
                },
                fo.text_at("name_contains"@),
            )
        } else {
            (None, None, None, None, None)
        },
        None => (None, None, None, None, None),
    }
}

/// Whether a device meets a filter given as texts.
pub open spec fn view_matches(
    f: (Option<Seq<char>>, Option<Seq<char>>, Option<Seq<char>>, Option<Seq<Seq<char>>>, Option<Seq<char>>),
    d: DeviceInfo,
) -> bool {
    &&& (f.0 matches Some(t) ==> d.device_type@ == t)
    &&& (f.1 matches Some(l) ==> opt_text(d.location) == Some(l))
    &&& (f.2 matches Some(s) ==> d.status@ == s)
    &&& (f.3 matches Some(ts) ==> has_all(texts(d.tags@), ts))
    &&& (f.4 matches Some(n) ==> spec_contains(d.name@, n) || spec_contains(d.id@, n))
}

/// Whether a filter given as texts restricts anything.
pub open spec fn filter_restricts(
    f: (Option<Seq<char>>, Option<Seq<char>>, Option<Seq<char>>, Option<Seq<Seq<char>>>, Option<Seq<char>>),
) -> bool {
    !(f.0 is None && f.1 is None && f.2 is None && f.3 is None && f.4 is None)
}

/// A flag of the arguments, true when absent or not a boolean.
pub open spec fn flag_or_true(args: Json, key: Seq<char>) -> bool {
    match args.bool_at(key) {
        Some(b) => b,
        None => true,
    }
}

/// How the arguments ask to group devices ("none" when they do not say).
pub open spec fn group_by_of(args: Json) -> Seq<char> {
    match args.text_at("group_by"@) {
        Some(t) => t,
        None => "none"@,
    }
}

/// The name of a group object.
pub open spec fn name_of(j: Json) -> Seq<char> {
    match j.text_at("name"@) {
        Some(t) => t,
        None => Seq::empty(),
    }
}

/// Whether `j` is the JSON object of a group with these members.
pub open spec fn is_group_obj(j: Json, name: Seq<char>, members: Seq<DeviceInfo>, with_data: bool, with_caps: bool) -> bool {
    j matches Json::Object(o) && o@.len() == 3 && has_text(o@, 0, "name"@, name)
        && o@[1].0@ == "count"@ && is_count(o@[1].1, members.len())
        && o@[2].0@ == "devices"@ && (o@[2].1 matches Json::Array(a) && a@.len() == members.len()
            && forall|i: int| 0 <= i < a@.len() ==> is_device_obj(#[trigger] a@[i], members[i], with_data, with_caps))
}

/// Whether `j` is the array of groups of the devices `ds` grouped by
/// `group_by`: one group of all of them for "none" (or no devices), else
/// one non-empty group per name, in ascending order of names.
pub open spec fn is_groups_json(j: Json, ds: Seq<DeviceInfo>, group_by: Seq<char>, with_data: bool, with_caps: bool) -> bool {
    j matches Json::Array(gs) && if group_by == "none"@ || ds.len() == 0 {
        gs@.len() == 1 && is_group_obj(gs@[0], "所有设备"@, ds, with_data, with_caps)
    } else {
        &&& ascending(gs@.map_values(|g: Json| name_of(g)))
        &&& forall|k: int| 0 <= k < gs@.len() ==> is_group_obj(#[trigger] gs@[k], name_of(gs@[k]),
                ds.filter(in_group(group_by, name_of(gs@[k]))), with_data, with_caps)
                && ds.filter(in_group(group_by, name_of(gs@[k]))).len() > 0
        &&& forall|i: int| 0 <= i < ds.len() ==> has_named(gs@, group_key(#[trigger] ds[i], group_by))
    }
}

/// Whether some group object has the given name.
pub open spec fn has_named(gs: Seq<Json>, name: Seq<char>) -> bool {
    exists|k: int| 0 <= k < gs.len() && name_of(#[trigger] gs[k]) == name
}

/// Whether `j` is an object holding the counts of `m`, each key once.
pub open spec fn is_counts_obj(j: Json, m: Map<Seq<char>, nat>) -> bool {
    j matches Json::Object(o)
        && (forall|i: int| 0 <= i < o@.len() ==> m.contains_key((#[trigger] o@[i]).0@) && is_count(o@[i].1, m[o@[i].0@]))
        && (forall|i: int, k: int| 0 <= i < k < o@.len() ==> (#[trigger] o@[i]).0@ != (#[trigger] o@[k]).0@)
        && (forall|key: Seq<char>| #[trigger] m.contains_key(key) ==> exists|i: int| 0 <= i < o@.len() && (#[trigger] o@[i]).0@ == key)
}

/// Whether `j` is the summary of the devices: how many, online and not, and
/// how many of each type and at each location.
pub open spec fn is_summary_json(j: Json, ds: Seq<DeviceInfo>) -> bool {
    j matches Json::Object(o) && o@.len() == 5
        && o@[0].0@ == "total"@ && is_count(o@[0].1, ds.len())
        && o@[1].0@ == "online"@ && is_count(o@[1].1, online_count(ds))
        && o@[2].0@ == "offline"@ && is_count(o@[2].1, (ds.len() - online_count(ds)) as nat)
        && o@[3].0@ == "by_type"@ && is_counts_obj(o@[3].1, tally(types_of(ds)))
        && o@[4].0@ == "by_location"@ && is_counts_obj(o@[4].1, tally(locations_of(ds)))
}

/// Whether `j` is what `device.discover` answers for these devices.
pub open spec fn is_discover_json(j: Json, ds: Seq<DeviceInfo>, group_by: Seq<char>, with_data: bool, with_caps: bool, applied: bool) -> bool {
    j matches Json::Object(o) && o@.len() == 3
        && o@[0].0@ == "groups"@ && is_groups_json(o@[0].1, ds, group_by, with_data, with_caps)
        && o@[1].0@ == "summary"@ && is_summary_json(o@[1].1, ds)
        && o@[2].0@ == "filter_applied"@ && o@[2].1 == Json::Bool(applied)
}

/// The devices at the given positions.
pub open spec fn picked(ds: Seq<DeviceInfo>, pos: Seq<usize>) -> Seq<DeviceInfo> {
    pos.map_values(|i: usize| ds[i as int])
}

fn strings(a: &Vec<Json>) -> (r: Vec<String>)
    ensures
        texts(r@) == strings_in(a@),
{
    let mut r: Vec<String> = Vec::new();
    let mut i: usize = 0;
    while i < a.len()
        invariant
            i <= a@.len(),
            texts(r@) == strings_in(a@.subrange(0, i as int)),
        decreases a@.len() - i,
    {
        let ghost prev = r@;
        assert(a@.subrange(0, i + 1).drop_last() =~= a@.subrange(0, i as int));
        match a[i].as_text() {
            Some(t) => {
                r.push(t.clone());
                assert(texts(r@) =~= texts(prev).push(t@));
            },
            None => {},
        }
        i = i + 1;
    }
    assert(a@.subrange(0, i as int) =~= a@);
    r
}

fn copy_opt(o: Option<&String>) -> (r: Option<String>)
    ensures
        opt_text(r) == (match o { Some(s) => Some(s@), None => None::<Seq<char>> }),
{
    match o {
        Some(s) => Some(s.clone()),
        None => None,
    }
}

/// The filter given by the arguments of `device.discover`.
pub fn parse_filter(args: &Json) -> (f: DeviceFilter)
    ensures
        filter_view(f) == filter_from_args(*args),
{
    match args.get("filter") {
        Some(fo) => {
            if fo.is_object() {
                let tags = match fo.get("tags") {
                    Some(Json::Array(a)) => Some(strings(a)),
                    _ => None,
                };
                DeviceFilter {
                    device_type: copy_opt(fo.str_at("type")),
                    location: copy_opt(fo.str_at("location")),
                    status: copy_opt(fo.str_at("status")),
                    tags,
                    name_contains: copy_opt(fo.str_at("name_contains")),
                }
            } else {
                DeviceFilter::new()
            }
        },
        None => DeviceFilter::new(),
    }
}

fn positions(devices: &[DeviceInfo], f: &DeviceFilter) -> (pos: Vec<usize>)
    ensures
        forall|k: int| 0 <= k < pos@.len() ==> (#[trigger] pos@[k]) < devices@.len(),
        picked(devices@, pos@) == devices@.filter(|d: DeviceInfo| spec_matches(*f, d)),
{
    let ghost p = |d: DeviceInfo| spec_matches(*f, d);
    let mut pos: Vec<usize> = Vec::new();
    let mut i: usize = 0;
    proof {
        reveal(Seq::filter);
        assert(devices@.subrange(0, 0) =~= Seq::<DeviceInfo>::empty());
        assert(picked(devices@, pos@) =~= Seq::<DeviceInfo>::empty());
    }
    while i < devices.len()
        invariant
            i <= devices@.len(),
            p == (|d: DeviceInfo| spec_matches(*f, d)),
            forall|k: int| 0 <= k < pos@.len() ==> (#[trigger] pos@[k]) < i,
            picked(devices@, pos@) == devices@.subrange(0, i as int).filter(p),
        decreases devices@.len() - i,
    {
        proof {
            lemma_filter_step(devices@, p, i as int);
        }
        if f.matches(&devices[i]) {
            let ghost prev = pos@;
            pos.push(i);
            assert(picked(devices@, pos@) =~= picked(devices@, prev).push(devices@[i as int]));
        }
        i = i + 1;
    }
    assert(devices@.subrange(0, i as int) =~= devices@);
    pos
}

fn copies_at(devices: &[DeviceInfo], pos: &Vec<usize>) -> (r: Vec<DeviceInfo>)
    requires
        forall|k: int| 0 <= k < pos@.len() ==> (#[trigger] pos@[k]) < devices@.len(),
    ensures
        same_devices(r@, picked(devices@, pos@)),
{
    let mut r: Vec<DeviceInfo> = Vec::new();
    let mut k: usize = 0;
    while k < pos.len()
        invariant
            k <= pos@.len(),
            forall|j: int| 0 <= j < pos@.len() ==> (#[trigger] pos@[j]) < devices@.len(),
            r@.len() == k,
            forall|j: int| 0 <= j < k ==> same_device(#[trigger] r@[j], devices@[pos@[j] as int]),
        decreases pos@.len() - k,
    {
        r.push(devices[pos[k]].copy());
        k = k + 1;
    }
    r
}

fn group_obj(devices: &[DeviceInfo], pos: &Vec<usize>, group_by: &str, name: &str, with_data: bool, with_caps: bool) -> (j: Json)
    requires
        forall|k: int| 0 <= k < pos@.len() ==> (#[trigger] pos@[k]) < devices@.len(),
    ensures
        is_group_obj(j, name@, picked(devices@, pos@).filter(in_group(group_by@, name@)), with_data, with_caps),
{
    let ghost sel = picked(devices@, pos@);
    let ghost q = in_group(group_by@, name@);
    let mut a: Vec<Json> = Vec::new();
    let mut k: usize = 0;
    proof {
        reveal(Seq::filter);
        assert(sel.subrange(0, 0) =~= Seq::<DeviceInfo>::empty());
    }
    while k < pos.len()
        invariant
            k <= pos@.len(),
            sel == picked(devices@, pos@),
            q == in_group(group_by@, name@),
            forall|j: int| 0 <= j < pos@.len() ==> (#[trigger] pos@[j]) < devices@.len(),
            a@.len() == sel.subrange(0, k as int).filter(q).len(),
            forall|j: int| 0 <= j < a@.len() ==> is_device_obj(#[trigger] a@[j], sel.subrange(0, k as int).filter(q)[j], with_data, with_caps),
        decreases pos@.len() - k,
    {
        proof {
            lemma_filter_step(sel, q, k as int);
        }
        let d = &devices[pos[k]];
        assert(sel[k as int] == *d);
        let key = key_of(d, group_by);
        if same_text(key.as_str(), name) {
            a.push(d.to_json(with_data, with_caps));
        }
        k = k + 1;
    }
    assert(sel.subrange(0, k as int) =~= sel);
    let n = a.len();
    let mut o: Vec<(String, Json)> = Vec::new();
    o.push(text_member("name", name));
    o.push((owned("count"), count(n)));
    o.push((owned("devices"), Json::Array(a)));
    Json::Object(o)
}

fn all_obj(devices: &[DeviceInfo], pos: &Vec<usize>, with_data: bool, with_caps: bool) -> (j: Json)
    requires
        forall|k: int| 0 <= k < pos@.len() ==> (#[trigger] pos@[k]) < devices@.len(),
    ensures
        is_group_obj(j, "所有设备"@, picked(devices@, pos@), with_data, with_caps),
{
    let ghost sel = picked(devices@, pos@);
    let mut a: Vec<Json> = Vec::new();
    let mut k: usize = 0;
    while k < pos.len()
        invariant
            k <= pos@.len(),
            sel == picked(devices@, pos@),
            forall|j: int| 0 <= j < pos@.len() ==> (#[trigger] pos@[j]) < devices@.len(),
            a@.len() == k,
            forall|j: int| 0 <= j < k ==> is_device_obj(#[trigger] a@[j], sel[j], with_data, with_caps),
        decreases pos@.len() - k,
    {
        a.push(devices[pos[k]].to_json(with_data, with_caps));
        k = k + 1;
    }
    let mut o: Vec<(String, Json)> = Vec::new();
    o.push(text_member("name", "所有设备"));
    o.push((owned("count"), count(pos.len())));
    o.push((owned("devices"), Json::Array(a)));
    Json::Object(o)
}

proof fn lemma_name_of(j: Json, name: Seq<char>, ds: Seq<DeviceInfo>, with_data: bool, with_caps: bool)
    requires
        is_group_obj(j, name, ds, with_data, with_caps),
    ensures
        name_of(j) == name,
{
    let o = j->Object_0;
    assert(o@.len() > 0 && o@[0].0@ == "name"@);
    assert(member_of(o@, "name"@) == Some(o@[0].1));
}

fn groups_json(devices: &[DeviceInfo], pos: &Vec<usize>, group_by: &str, with_data: bool, with_caps: bool) -> (j: Json)
    requires
        forall|k: int| 0 <= k < pos@.len() ==> (#[trigger] pos@[k]) < devices@.len(),
    ensures
        is_groups_json(j, picked(devices@, pos@), group_by@, with_data, with_caps),
{
    let ghost sel = picked(devices@, pos@);
    if same_text(group_by, "none") || pos.len() == 0 {
        let mut gs: Vec<Json> = Vec::new();
        gs.push(all_obj(devices, pos, with_data, with_caps));
        return Json::Array(gs);
    }
    let mut keys: Vec<String> = Vec::new();
    let mut k: usize = 0;
    while k < pos.len()
        invariant
            k <= pos@.len(),
            sel == picked(devices@, pos@),
            forall|j: int| 0 <= j < pos@.len() ==> (#[trigger] pos@[j]) < devices@.len(),
            keys@.len() == k,
            forall|j: int| 0 <= j < k ==> (#[trigger] keys@[j])@ == group_key(sel[j], group_by@),
        decreases pos@.len() - k,
    {
        keys.push(key_of(&devices[pos[k]], group_by));
        k = k + 1;
    }
    let ghost kv = keys@.map_values(|s: String| s@);
    let names = sorted_distinct(keys);
    let ghost nv = names@.map_values(|s: String| s@);
    let mut gs: Vec<Json> = Vec::new();
    let mut g: usize = 0;
    while g < names.len()
        invariant
            g <= names@.len(),
            gs@.len() == g,
            sel == picked(devices@, pos@),
            nv == names@.map_values(|s: String| s@),
            forall|j: int| 0 <= j < pos@.len() ==> (#[trigger] pos@[j]) < devices@.len(),
            forall|j: int| 0 <= j < g ==> name_of(#[trigger] gs@[j]) == nv[j]
                && is_group_obj(gs@[j], nv[j], sel.filter(in_group(group_by@, nv[j])), with_data, with_caps),
        decreases names@.len() - g,
    {
        let obj = group_obj(devices, pos, group_by, names[g].as_str(), with_data, with_caps);
        proof {
            lemma_name_of(obj, nv[g as int], sel.filter(in_group(group_by@, nv[g as int])), with_data, with_caps);
        }
        gs.push(obj);
        g = g + 1;
    }
    proof {
        assert(gs@.map_values(|x: Json| name_of(x)) =~= nv);
        assert forall|j: int| 0 <= j < gs@.len() implies sel.filter(in_group(group_by@, name_of(#[trigger] gs@[j]))).len() > 0 by {
            assert(nv.to_set().contains(nv[j]));
            assert(kv.to_set().contains(nv[j]));
            let i = choose|i: int| 0 <= i < kv.len() && kv[i] == nv[j];
            assert(kv[i] == keys@[i]@);
            let p = in_group(group_by@, nv[j]);
            assert(p(sel[i]));
            sel.lemma_filter_contains(p, i);
        }
        assert forall|i: int| 0 <= i < sel.len() implies has_named(gs@, group_key(#[trigger] sel[i], group_by@)) by {
            assert(kv[i] == group_key(sel[i], group_by@));
            assert(kv.to_set().contains(kv[i]));
            assert(nv.to_set().contains(kv[i]));
            let g = choose|g: int| 0 <= g < nv.len() && nv[g] == kv[i];
            assert(name_of(gs@[g]) == nv[g]);
        }
    }
    Json::Array(gs)
}

fn counts_obj(t: &Table<usize>) -> (j: Json)
    ensures
        is_counts_obj(j, t@.map_values(|v: usize| v as nat)),
{
    let n = t.len();
    let ghost m = t@.map_values(|v: usize| v as nat);
    let mut o: Vec<(String, Json)> = Vec::new();
    let mut i: usize = 0;
    while i < n
        invariant
            n == t.items().len(),
            distinct_keys(t.items()),
            m == t@.map_values(|v: usize| v as nat),
            i <= n,
            o@.len() == i,
            forall|k: int| 0 <= k < i ==> (#[trigger] o@[k]).0@ == t.items()[k].0 && m.contains_key(o@[k].0@)
                && is_count(o@[k].1, m[o@[k].0@]),
        decreases n - i,
    {
        let k = t.key_at(i);
        let v = t.value_at(i);
        o.push((k.clone(), count(*v)));
        i = i + 1;
    }
    proof {
        assert forall|a: int, b: int| 0 <= a < b < o@.len() implies (#[trigger] o@[a]).0@ != (#[trigger] o@[b]).0@ by {
            assert(t.items()[a].0 != t.items()[b].0);
        }
        assert forall|key: Seq<char>| #[trigger] m.contains_key(key) implies exists|i: int| 0 <= i < o@.len() && (#[trigger] o@[i]).0@ == key by {
            assert(t@.dom().contains(key));
            let j = choose|j: int| 0 <= j < t.items().len() && #[trigger] t.items()[j].0 == key;
            assert(o@[j].0@ == key);
        }
    }
    let j = Json::Object(o);
    assert(j matches Json::Object(oo) && oo == o);
    j
}

proof fn lemma_counts_of(t: Table<usize>, m: Map<Seq<char>, nat>)
    requires
        holds_tally(t, m),
    ensures
        t@.map_values(|v: usize| v as nat) == m,
{
    assert(t@.map_values(|v: usize| v as nat) =~= m);
}

proof fn lemma_same_summaries(a: Seq<DeviceInfo>, b: Seq<DeviceInfo>)
    requires
        same_devices(a, b),
    ensures
        online_count(a) == online_count(b),
        types_of(a) == types_of(b),
        locations_of(a) == locations_of(b),
    decreases a.len(),
{
    if a.len() > 0 {
        lemma_same_summaries(a.drop_last(), b.drop_last());
        assert(same_device(a.last(), b.last()));
    }
    assert(types_of(a) =~= types_of(b));
}

fn summary_json(devices: &[DeviceInfo]) -> (j: Json)
    ensures
        is_summary_json(j, devices@),
{
    let s = calculate_summary(devices);
    proof {
        lemma_counts_of(s.by_type, tally(types_of(devices@)));
        lemma_counts_of(s.by_location, tally(locations_of(devices@)));
    }
    let mut o: Vec<(String, Json)> = Vec::new();
    o.push((owned("total"), count(s.total)));
    o.push((owned("online"), count(s.online)));
    o.push((owned("offline"), count(s.offline)));
    o.push((owned("by_type"), counts_obj(&s.by_type)));
    o.push((owned("by_location"), counts_obj(&s.by_location)));
    Json::Object(o)
}

/// What `device.discover` answers for the devices of a registry: the
/// devices that meet the filter of the arguments, grouped as asked, with a
/// summary of them and whether a filter was given.
pub fn discover(devices: &[DeviceInfo], args: &Json) -> (out: ToolOutput)
    ensures
        out.success,
        out.error is None,
        out.metadata is None,
        is_discover_json(
            out.data,
            devices@.filter(|d: DeviceInfo| view_matches(filter_from_args(*args), d)),
            group_by_of(*args),
            flag_or_true(*args, "include_data_preview"@),
            flag_or_true(*args, "include_capabilities"@),
            filter_restricts(filter_from_args(*args)),
        ),
{
    let filter = parse_filter(args);
    let pos = positions(devices, &filter);
    let chosen = copies_at(devices, &pos);
    let ghost sel = picked(devices@, pos@);
    proof {
        assert((|d: DeviceInfo| spec_matches(filter, d)) =~= (|d: DeviceInfo| view_matches(filter_from_args(*args), d)));
        lemma_same_summaries(chosen@, sel);
    }
    let with_data = match args.bool_at_key("include_data_preview") {
        Some(b) => b,
        None => true,
    };
    let with_caps = match args.bool_at_key("include_capabilities") {
        Some(b) => b,
        None => true,
    };
    let group_by: &str = match args.str_at("group_by") {
        Some(g) => g.as_str(),
        None => "none",
    };
    let groups = groups_json(devices, &pos, group_by, with_data, with_caps);
    let summary = summary_json(chosen.as_slice());
    let applied = filter.device_type.is_some() || filter.location.is_some() || filter.status.is_some()
        || filter.tags.is_some() || filter.name_contains.is_some();
    let mut o: Vec<(String, Json)> = Vec::new();
    o.push((owned("groups"), groups));
    o.push((owned("summary"), summary));
    o.push((owned("filter_applied"), Json::Bool(applied)));
    ToolOutput::success(Json::Object(o))
}


/// A usage scenario as its three texts.
pub open spec fn scenario_view(u: UsageScenario) -> (Seq<char>, Seq<char>, Option<Seq<char>>) {
    (u.description@, u.example_query@, opt_text(u.suggested_call))
}

/// A usage scenario with a suggested call.
pub fn scenario(description: &str, example_query: &str, suggested_call: &str) -> (u: UsageScenario)
    ensures
        scenario_view(u) == (description@, example_query@, Some(suggested_call@)),
{
    UsageScenario {
        description: owned(description),
        example_query: owned(example_query),
        suggested_call: Some(owned(suggested_call)),
    }
}

/// The scenarios in which `device.discover` helps.
pub open spec fn discover_scenarios() -> Seq<(Seq<char>, Seq<char>, Option<Seq<char>>)> {
    seq![
        ("用户询问有什么设备"@, "有什么设备？"@, Some("device.discover()"@)),
        ("用户询问特定位置的设备"@, "客厅有哪些设备？"@, Some("device.discover(\x7bfilter: \x7blocation: '客厅'\x7d, group_by: 'type'\x7d)"@)),
        ("用户询问特定类型的设备"@, "有哪些传感器？"@, Some("device.discover(\x7bfilter: \x7btags: ['sensor']\x7d, group_by: 'location'\x7d)"@)),
        ("用户询问离线设备"@, "哪些设备离线了？"@, Some("device.discover(\x7bfilter: \x7bstatus: 'offline'\x7d\x7d)"@)),
    ]
}

/// The `device.discover` tool over a registry of devices.
pub struct DeviceDiscoverTool {
    pub registry: MockDeviceRegistry,
}

impl DeviceDiscoverTool {
    /// The tool over the given registry.
    pub fn new(registry: MockDeviceRegistry) -> (t: Self)
        ensures
            t.registry == registry,
    {
        DeviceDiscoverTool { registry }
    }

    /// The tool over the sample devices.
    pub fn mock() -> (t: Self)
        ensures
            t.registry.devices().len() == 7,
            forall|i: int| 0 <= i < 7 ==> is_mock_device(#[trigger] t.registry.devices()[i], i),
    {
        DeviceDiscoverTool { registry: MockDeviceRegistry::new() }
    }

    /// The name under which the model calls the tool.
    pub fn name(&self) -> (s: &'static str)
        ensures
            s@ == "device.discover"@,
    {
        "device.discover"
    }

    /// What the tool does, for the model.
    pub fn description(&self) -> (s: &'static str)
        ensures
            s@ == "发现和列出系统中的所有设备。支持按位置、类型、状态过滤和分组。这是探索系统设备能力的入口工具。用法示例: - '有什么设备？' → 列出所有设备 - '客厅有哪些设备？' → 按位置过滤 - '有哪些传感器？' → 按类型过滤 - '在线的设备有哪些？' → 按状态过滤"@,
    {
        "发现和列出系统中的所有设备。支持按位置、类型、状态过滤和分组。这是探索系统设备能力的入口工具。用法示例: - '有什么设备？' → 列出所有设备 - '客厅有哪些设备？' → 按位置过滤 - '有哪些传感器？' → 按类型过滤 - '在线的设备有哪些？' → 按状态过滤"
    }

    /// The category of the tool.
    pub fn category(&self) -> (c: ToolCategory)
        ensures
            c == ToolCategory::Device,
    {
        ToolCategory::Device
    }

    /// The schema of the arguments: an optional filter object, a grouping
    /// and two flags, none of them required.
    pub fn parameters(&self) -> (j: Json)
        ensures
            requires_names(j, Seq::empty()),
            j matches Json::Object(m) && m@.len() == 3 && m@[1].0@ == "properties"@
                && (m@[1].1 matches Json::Object(p) && p@.len() == 4
                    && p@[0].0@ == "filter"@ && requires_names(p@[0].1, Seq::empty())
                    && p@[1].0@ == "group_by"@
                    && is_property(p@[1].1, "string"@, "分组方式：'type'按类型、'location'按位置、'status'按状态、'none'不分组。默认'none'"@)
                    && p@[2].0@ == "include_data_preview"@
                    && is_property(p@[2].1, "boolean"@, "是否包含最新数据预览。默认true"@)
                    && p@[3].0@ == "include_capabilities"@
                    && is_property(p@[3].1, "boolean"@, "是否包含设备能力（指标和命令）。默认true"@)),
    {
        let mut inner: Vec<(String, Json)> = Vec::new();
        inner.push((owned("type"), string_property("设备类型，如'sensor'、'actuator'、'DHT22'等")));
        inner.push((owned("location"), string_property("位置，如'客厅'、'卧室'、'厨房'等")));
        inner.push((owned("status"), string_property("状态：'online'在线、'offline'离线")));
        inner.push((owned("tags"), array_property("string", "标签过滤，如['sensor', 'temperature']")));
        inner.push((owned("name_contains"), string_property("名称包含关键词")));
        let mut filter_props: Vec<(String, Json)> = Vec::new();
        filter_props.push((owned("description"), Json::Str(owned("过滤条件"))));
        filter_props.push((owned("properties"), Json::Object(inner)));
        let filter = object_schema(Json::Object(filter_props), Vec::new());
        assert(Seq::<String>::empty().map_values(|s: String| s@) =~= Seq::<Seq<char>>::empty());
        let mut props: Vec<(String, Json)> = Vec::new();
        props.push((owned("filter"), filter));
        props.push((owned("group_by"), string_property("分组方式：'type'按类型、'location'按位置、'status'按状态、'none'不分组。默认'none'")));
        props.push((owned("include_data_preview"), boolean_property("是否包含最新数据预览。默认true")));
        props.push((owned("include_capabilities"), boolean_property("是否包含设备能力（指标和命令）。默认true")));
        let j = object_schema(Json::Object(props), Vec::new());
        j
    }

    /// The situations in which the tool helps.
    pub fn scenarios(&self) -> (v: Vec<UsageScenario>)
        ensures
            v@.map_values(|u: UsageScenario| scenario_view(u)) == discover_scenarios(),
    {
        let mut v: Vec<UsageScenario> = Vec::new();
        v.push(scenario("用户询问有什么设备", "有什么设备？", "device.discover()"));
        v.push(scenario("用户询问特定位置的设备", "客厅有哪些设备？", "device.discover(\x7bfilter: \x7blocation: '客厅'\x7d, group_by: 'type'\x7d)"));
        v.push(scenario("用户询问特定类型的设备", "有哪些传感器？", "device.discover(\x7bfilter: \x7btags: ['sensor']\x7d, group_by: 'location'\x7d)"));
        v.push(scenario("用户询问离线设备", "哪些设备离线了？", "device.discover(\x7bfilter: \x7bstatus: 'offline'\x7d\x7d)"));
        assert(v@.map_values(|u: UsageScenario| scenario_view(u)) =~= discover_scenarios());
        v
    }

    /// Lists the registry's devices as `discover` describes; never fails.
    pub fn execute(&self, args: &Json) -> (r: Result<ToolOutput, ToolError>)
        ensures
            r matches Ok(out) && out.success && out.error is None && out.metadata is None
                && is_discover_json(
                    out.data,
                    self.registry.devices().filter(|d: DeviceInfo| view_matches(filter_from_args(*args), d)),
                    group_by_of(*args),
                    flag_or_true(*args, "include_data_preview"@),
                    flag_or_true(*args, "include_capabilities"@),
                    filter_restricts(filter_from_args(*args)),
                ),
    {
        Ok(discover(self.registry.devices.as_slice(), args))
    }
}

} // verus!
