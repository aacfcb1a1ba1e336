//! Built-in tools backed by mock stores: what a device measures, device types
//! and their schemas, rule management, device status and configuration, and
//! control of several devices at once.
use vstd::prelude::*;
use std::sync::Arc;
use crate::clock::now_timestamp;
use crate::ids::new_uuid;
use crate::json::{has_text, has_value, same, Json};
use crate::text::{cat, cat3, decimal, owned, same_text, u64_text};
use crate::tools::catalog::ToolCategory;
use crate::tools::error::ToolError;
use crate::tools::tool::{
    args_error, array_property, boolean_property, check_required, is_object_schema, object_schema, requires_names, string_property,
    ToolOutput,
};
use crate::workflow::templates::texts;

verus! {

// ---------------------------------------------------------------- records

/// A reading of a metric at a time; the value and its quality are in
/// thousandths.
pub struct MetricDataPoint {
    pub timestamp: i64,
    pub metric: String,
    pub value_milli: i64,
    pub quality_milli: Option<i64>,
}

/// A device as the device manager lists it.
pub struct DeviceInfo {
    pub id: String,
    pub name: String,
    pub device_type: String,
    pub status: String,
    pub metrics_summary: Option<Vec<String>>,
}

/// A rule as the rule engine lists it.
pub struct RuleInfo {
    pub id: String,
    pub name: String,
    pub enabled: bool,
    pub trigger_count: u64,
}

/// A metric a device type offers.
pub struct MetricInfo {
    pub name: String,
    pub display_name: String,
    pub data_type: String,
    pub unit: String,
    pub description: String,
}

/// A command a device type accepts.
pub struct CommandInfo {
    pub name: String,
    pub display_name: String,
    pub description: String,
    pub parameters: Vec<Json>,
}

/// The definition of a device type: its metrics and commands.
pub struct DeviceTypeSchema {
    pub device_type: String,
    pub display_name: String,
    pub description: String,
    pub capabilities: Vec<String>,
    pub metrics: Vec<MetricInfo>,
    pub commands: Vec<CommandInfo>,
}

/// A registered device type.
pub struct DeviceTypeInfo {
    pub name: String,
    pub display_name: String,
    pub category: String,
    pub description: String,
}

/// A metric as text: name, display name, data type, unit, description.
pub open spec fn metric_view(m: MetricInfo) -> (Seq<char>, Seq<char>, Seq<char>, Seq<char>, Seq<char>) {
    (m.name@, m.display_name@, m.data_type@, m.unit@, m.description@)
}

/// A device type as text: name, display name, category, description.
pub open spec fn type_view(t: DeviceTypeInfo) -> (Seq<char>, Seq<char>, Seq<char>, Seq<char>) {
    (t.name@, t.display_name@, t.category@, t.description@)
}

/// The metrics every mock device offers: temperature and humidity.
pub open spec fn mock_metrics() -> Seq<(Seq<char>, Seq<char>, Seq<char>, Seq<char>, Seq<char>)> {
    seq![
        ("temperature"@, "温度"@, "float"@, "°C"@, "当前温度读数"@),
        ("humidity"@, "湿度"@, "float"@, "%"@, "当前相对湿度"@),
    ]
}

/// The registered mock device types: a sensor and a relay.
pub open spec fn mock_types() -> Seq<(Seq<char>, Seq<char>, Seq<char>, Seq<char>)> {
    seq![
        ("DHT22"@, "DHT22温湿度传感器"@, "sensor"@, "数字温湿度传感器，提供温度和湿度读数"@),
        ("Relay"@, "继电器"@, "actuator"@, "开关控制设备，支持开/关操作"@),
    ]
}

/// Whether `j` is the JSON object of a metric, fields in declaration order.
pub open spec fn is_metric_json(j: Json, m: (Seq<char>, Seq<char>, Seq<char>, Seq<char>, Seq<char>)) -> bool {
    j matches Json::Object(o) && o@.len() == 5 && has_text(o@, 0, "name"@, m.0) && has_text(o@, 1, "display_name"@, m.1)
        && has_text(o@, 2, "data_type"@, m.2) && has_text(o@, 3, "unit"@, m.3) && has_text(o@, 4, "description"@, m.4)
}

/// Whether `j` is the JSON object of a device type, fields in declaration order.
pub open spec fn is_type_json(j: Json, t: (Seq<char>, Seq<char>, Seq<char>, Seq<char>)) -> bool {
    j matches Json::Object(o) && o@.len() == 4 && has_text(o@, 0, "name"@, t.0) && has_text(o@, 1, "display_name"@, t.1)
        && has_text(o@, 2, "category"@, t.2) && has_text(o@, 3, "description"@, t.3)
}

/// Whether `j` is an array of the JSON objects of the metrics `ms`.
pub open spec fn is_metrics_json(j: Json, ms: Seq<(Seq<char>, Seq<char>, Seq<char>, Seq<char>, Seq<char>)>) -> bool {
    j matches Json::Array(v) && v@.len() == ms.len() && forall|i: int| 0 <= i < ms.len() ==> is_metric_json(#[trigger] v@[i], ms[i])
}

/// Whether `j` is an array of the JSON objects of the device types `ts`.
pub open spec fn is_types_json(j: Json, ts: Seq<(Seq<char>, Seq<char>, Seq<char>, Seq<char>)>) -> bool {
    j matches Json::Array(v) && v@.len() == ts.len() && forall|i: int| 0 <= i < ts.len() ==> is_type_json(#[trigger] v@[i], ts[i])
}

pub(crate) fn text_member(key: &str, value: &str) -> (m: (String, Json))
    ensures
        m.0@ == key@,
        m.1.text() == Some(value@),
{
    (owned(key), Json::Str(owned(value)))
}

impl MetricInfo {
    /// The metric as a JSON object.
    pub fn to_json(&self) -> (j: Json)
        ensures
            is_metric_json(j, metric_view(*self)),
    {
        let mut o: Vec<(String, Json)> = Vec::new();
        o.push(text_member("name", self.name.as_str()));
        o.push(text_member("display_name", self.display_name.as_str()));
        o.push(text_member("data_type", self.data_type.as_str()));
        o.push(text_member("unit", self.unit.as_str()));
        o.push(text_member("description", self.description.as_str()));
        Json::Object(o)
    }
}

impl DeviceTypeInfo {
    /// The device type as a JSON object.
    pub fn to_json(&self) -> (j: Json)
        ensures
            is_type_json(j, type_view(*self)),
    {
        let mut o: Vec<(String, Json)> = Vec::new();
        o.push(text_member("name", self.name.as_str()));
        o.push(text_member("display_name", self.display_name.as_str()));
        o.push(text_member("category", self.category.as_str()));
        o.push(text_member("description", self.description.as_str()));
        Json::Object(o)
    }
}

fn metrics_json(ms: &Vec<MetricInfo>) -> (j: Json)
    ensures
        is_metrics_json(j, ms@.map_values(|m: MetricInfo| metric_view(m))),
{
    let mut v: Vec<Json> = Vec::new();
    let mut i: usize = 0;
    while i < ms.len()
        invariant
            i <= ms@.len(),
            v@.len() == i,
            forall|k: int| 0 <= k < i ==> is_metric_json(#[trigger] v@[k], metric_view(ms@[k])),
        decreases ms@.len() - i,
    {
        v.push(ms[i].to_json());
        i = i + 1;
    }
    Json::Array(v)
}

fn types_json(ts: &Vec<DeviceTypeInfo>) -> (j: Json)
    ensures
        is_types_json(j, ts@.map_values(|t: DeviceTypeInfo| type_view(t))),
{
    let mut v: Vec<Json> = Vec::new();
    let mut i: usize = 0;
    while i < ts.len()
        invariant
            i <= ts@.len(),
            v@.len() == i,
            forall|k: int| 0 <= k < i ==> is_type_json(#[trigger] v@[k], type_view(ts@[k])),
        decreases ts@.len() - i,
    {
        v.push(ts[i].to_json());
        i = i + 1;
    }
    Json::Array(v)
}

/// Whether `j` is the JSON number `n` (an integer when it fits in `i64`,
/// else its decimal text).
pub open spec fn is_count(j: Json, n: nat) -> bool {
    if n <= i64::MAX { j == Json::Int(n as i64) } else { j matches Json::Real(s) && s@ == decimal(n) }
}

/// A count as a JSON number.
pub fn count(n: usize) -> (j: Json)
    ensures
        is_count(j, n as nat),
{
    if n as u64 <= i64::MAX as u64 {
        Json::Int(n as i64)
    } else {
        Json::Real(u64_text(n as u64))
    }
}

/// An unsigned number as a JSON number.
pub fn unsigned_number(n: u64) -> (j: Json)
    ensures
        is_count(j, n as nat),
{
    if n <= i64::MAX as u64 {
        Json::Int(n as i64)
    } else {
        Json::Real(u64_text(n))
    }
}

// ---------------------------------------------------------------- mock stores

/// A time-series store with fixed readings.
pub struct MockTimeSeriesStore;

fn point(timestamp: i64, metric: &str, value_milli: i64) -> (p: MetricDataPoint)
    ensures
        p.timestamp == timestamp,
        p.metric@ == metric@,
        p.value_milli == value_milli,
        p.quality_milli == Some(1000i64),
{
    MetricDataPoint { timestamp, metric: owned(metric), value_milli, quality_milli: Some(1000) }
}

impl MockTimeSeriesStore {
    /// The readings between `start` and `end`: of the given metric, 25.0 at
    /// the start and 27.5 at the end; of all metrics, temperature (25.0,
    /// 27.5) and humidity (60.0, 65.0) at both times.
    pub fn query(&self, device_id: &str, metric: Option<&str>, start: i64, end: i64) -> (r: Vec<MetricDataPoint>)
        ensures
            match metric {
                Some(m) => r@.len() == 2
                    && r@[0].timestamp == start && r@[0].metric@ == m@ && r@[0].value_milli == 25000
                    && r@[1].timestamp == end && r@[1].metric@ == m@ && r@[1].value_milli == 27500,
                None => r@.len() == 4
                    && r@[0].timestamp == start && r@[0].metric@ == "temperature"@ && r@[0].value_milli == 25000
                    && r@[1].timestamp == start && r@[1].metric@ == "humidity"@ && r@[1].value_milli == 60000
                    && r@[2].timestamp == end && r@[2].metric@ == "temperature"@ && r@[2].value_milli == 27500
                    && r@[3].timestamp == end && r@[3].metric@ == "humidity"@ && r@[3].value_milli == 65000,
            },
            forall|i: int| 0 <= i < r@.len() ==> #[trigger] r@[i].quality_milli == Some(1000i64),
    {
        let mut r: Vec<MetricDataPoint> = Vec::new();
        match metric {
            Some(m) => {
                r.push(point(start, m, 25000));
                r.push(point(end, m, 27500));
            },
            None => {
                r.push(point(start, "temperature", 25000));
                r.push(point(start, "humidity", 60000));
                r.push(point(end, "temperature", 27500));
                r.push(point(end, "humidity", 65000));
            },
        }
        r
    }
}

/// A device manager with two fixed devices.
pub struct MockDeviceManager;

/// The mock devices: id, name, type, status.
pub open spec fn mock_devices() -> Seq<(Seq<char>, Seq<char>, Seq<char>, Seq<char>)> {
    seq![
        ("sensor_1"@, "Temperature Sensor 1"@, "DHT22"@, "online"@),
        ("actuator_1"@, "Fan Controller"@, "Relay"@, "online"@),
    ]
}

/// The metrics each mock device reports.
pub open spec fn mock_summaries() -> Seq<Seq<Seq<char>>> {
    seq![seq!["temperature"@, "humidity"@], seq!["state"@]]
}

/// A device as text: id, name, type, status.
pub open spec fn device_view(d: DeviceInfo) -> (Seq<char>, Seq<char>, Seq<char>, Seq<char>) {
    (d.id@, d.name@, d.device_type@, d.status@)
}

/// Whether `j` is the reply to a command: success, with the device and command.
pub open spec fn is_command_reply(j: Json, device_id: Seq<char>, command: Seq<char>) -> bool {
    j matches Json::Object(o) && o@.len() == 4 && has_text(o@, 0, "status"@, "success"@)
        && has_text(o@, 1, "device_id"@, device_id) && has_text(o@, 2, "command"@, command)
        && has_text(o@, 3, "result"@, "Command executed"@)
}

impl MockDeviceManager {
    /// Every metric reads 25.0 (in thousandths).
    pub fn read_metric(&self, device_id: &str, metric: &str) -> (v: i64)
        ensures
            v == 25000,
    {
        25000
    }

    /// Every command succeeds.
    pub fn write_command(&self, device_id: &str, command: &str, args: Json) -> (r: Result<Json, ToolError>)
        ensures
            r matches Ok(j) && is_command_reply(j, device_id@, command@),
    {
        let mut o: Vec<(String, Json)> = Vec::new();
        o.push(text_member("status", "success"));
        o.push(text_member("device_id", device_id));
        o.push(text_member("command", command));
        o.push(text_member("result", "Command executed"));
        Ok(Json::Object(o))
    }

    /// The two mock devices.
    pub fn get_devices(&self) -> (r: Vec<DeviceInfo>)
        ensures
            r@.map_values(|d: DeviceInfo| device_view(d)) == mock_devices(),
            r@.len() == mock_summaries().len(),
            forall|i: int| 0 <= i < r@.len() ==> ((#[trigger] r@[i]).metrics_summary matches Some(v)
                && texts(v@) == mock_summaries()[i]),
    {
        let mut m1: Vec<String> = Vec::new();
        m1.push(owned("temperature"));
        m1.push(owned("humidity"));
        let mut m2: Vec<String> = Vec::new();
        m2.push(owned("state"));
        let mut r: Vec<DeviceInfo> = Vec::new();
        r.push(DeviceInfo {
            id: owned("sensor_1"),
            name: owned("Temperature Sensor 1"),
            device_type: owned("DHT22"),
            status: owned("online"),
            metrics_summary: Some(m1),
        });
        r.push(DeviceInfo {
            id: owned("actuator_1"),
            name: owned("Fan Controller"),
            device_type: owned("Relay"),
            status: owned("online"),
            metrics_summary: Some(m2),
        });
        assert(r@.map_values(|d: DeviceInfo| device_view(d)) =~= mock_devices());
        assert(texts(r@[0].metrics_summary->0@) =~= mock_summaries()[0]);
        assert(texts(r@[1].metrics_summary->0@) =~= mock_summaries()[1]);
        r
    }
}

/// A rule engine with one fixed rule.
pub struct MockRuleEngine;

impl MockRuleEngine {
    /// Creates a rule under a fresh id: `rule_` and a random UUID.
    pub fn create_rule(&self, name: &str, dsl: &str) -> (r: Result<String, ToolError>)
        ensures
            r matches Ok(id) && id@.len() == 41 && id@.subrange(0, 5) == "rule_"@,
    {
        let u = new_uuid();
        let id = cat("rule_", u.as_str());
        proof {
            reveal_strlit("rule_");
            assert(id@.subrange(0, 5) =~= "rule_"@);
        }
        Ok(id)
    }

    /// The one rule: `rule_1`, a high-temperature alert, enabled, fired 5 times.
    pub fn list_rules(&self) -> (r: Vec<RuleInfo>)
        ensures
            r@.len() == 1,
            r@[0].id@ == "rule_1"@,
            r@[0].name@ == "High Temperature Alert"@,
            r@[0].enabled,
            r@[0].trigger_count == 5,
    {
        let mut r: Vec<RuleInfo> = Vec::new();
        r.push(RuleInfo { id: owned("rule_1"), name: owned("High Temperature Alert"), enabled: true, trigger_count: 5 });
        r
    }

    /// Enabling always succeeds.
    pub fn enable_rule(&self, rule_id: &str) -> (r: Result<bool, ToolError>)
        ensures
            r == Ok::<bool, ToolError>(true),
    {
        Ok(true)
    }

    /// Disabling always succeeds.
    pub fn disable_rule(&self, rule_id: &str) -> (r: Result<bool, ToolError>)
        ensures
            r == Ok::<bool, ToolError>(true),
    {
        Ok(true)
    }
}

/// A device-type registry with two fixed types.
pub struct MockDeviceTypeRegistry;

fn metric(name: &str, display_name: &str, data_type: &str, unit: &str, description: &str) -> (m: MetricInfo)
    ensures
        metric_view(m) == (name@, display_name@, data_type@, unit@, description@),
{
    MetricInfo {
        name: owned(name),
        display_name: owned(display_name),
        data_type: owned(data_type),
        unit: owned(unit),
        description: owned(description),
    }
}

fn device_type(name: &str, display_name: &str, category: &str, description: &str) -> (t: DeviceTypeInfo)
    ensures
        type_view(t) == (name@, display_name@, category@, description@),
{
    DeviceTypeInfo {
        name: owned(name),
        display_name: owned(display_name),
        category: owned(category),
        description: owned(description),
    }
}

impl MockDeviceTypeRegistry {
    /// The metrics of any device: temperature and humidity.
    pub fn get_device_metrics(&self, device_id: &str) -> (r: Vec<MetricInfo>)
        ensures
            r@.map_values(|m: MetricInfo| metric_view(m)) == mock_metrics(),
    {
        let mut r: Vec<MetricInfo> = Vec::new();
        r.push(metric("temperature", "温度", "float", "°C", "当前温度读数"));
        r.push(metric("humidity", "湿度", "float", "%", "当前相对湿度"));
        assert(r@.map_values(|m: MetricInfo| metric_view(m)) =~= mock_metrics());
        r
    }

    /// The definition of any device type: the two metrics and a refresh command.
    pub fn get_device_type_schema(&self, device_type: &str) -> (s: DeviceTypeSchema)
        ensures
            s.device_type@ == device_type@,
            s.display_name@ == device_type@ + " Type"@,
            s.description@ == device_type@ + "设备的MDL定义"@,
            texts(s.capabilities@) == seq!["读数"@, "历史数据"@],
            s.metrics@.map_values(|m: MetricInfo| metric_view(m)) == mock_metrics(),
            s.commands@.len() == 1,
            s.commands@[0].name@ == "refresh"@,
            s.commands@[0].display_name@ == "刷新数据"@,
            s.commands@[0].description@ == "请求设备刷新数据"@,
            s.commands@[0].parameters@.len() == 0,
    {
        let mut capabilities: Vec<String> = Vec::new();
        capabilities.push(owned("读数"));
        capabilities.push(owned("历史数据"));
        assert(texts(capabilities@) =~= seq!["读数"@, "历史数据"@]);
        let mut commands: Vec<CommandInfo> = Vec::new();
        commands.push(CommandInfo {
            name: owned("refresh"),
            display_name: owned("刷新数据"),
            description: owned("请求设备刷新数据"),
            parameters: Vec::new(),
        });
        DeviceTypeSchema {
            device_type: owned(device_type),
            display_name: cat(device_type, " Type"),
            description: cat(device_type, "设备的MDL定义"),
            capabilities,
            metrics: self.get_device_metrics(device_type),
            commands,
        }
    }

    /// The two registered types: a DHT22 sensor and a relay.
    pub fn list_device_types(&self) -> (r: Vec<DeviceTypeInfo>)
        ensures
            r@.map_values(|t: DeviceTypeInfo| type_view(t)) == mock_types(),
    {
        let mut r: Vec<DeviceTypeInfo> = Vec::new();
        r.push(device_type("DHT22", "DHT22温湿度传感器", "sensor", "数字温湿度传感器，提供温度和湿度读数"));
        r.push(device_type("Relay", "继电器", "actuator", "开关控制设备，支持开/关操作"));
        assert(r@.map_values(|t: DeviceTypeInfo| type_view(t)) =~= mock_types());
        r
    }
}

pub(crate) fn names(items: &[&str]) -> (v: Vec<String>)
    ensures
        texts(v@) == items@.map_values(|s: &str| s@),
{
    let mut v: Vec<String> = Vec::new();
    let mut i: usize = 0;
    while i < items.len()
        invariant
            i <= items@.len(),
            texts(v@) == items@.subrange(0, i as int).map_values(|s: &str| s@),
        decreases items@.len() - i,
    {
        let ghost before = v@;
        v.push(owned(items[i]));
        assert(texts(v@) =~= texts(before).push(items@[i as int]@));
        assert(items@.subrange(0, i + 1).map_values(|s: &str| s@) =~= items@.subrange(0, i as int).map_values(|s: &str| s@).push(items@[i as int]@));
        i = i + 1;
    }
    assert(items@.subrange(0, items@.len() as int) =~= items@);
    v
}

/// The `get_device_metrics` tool.
pub struct GetDeviceMetricsTool {
    registry: Arc<MockDeviceTypeRegistry>,
}

impl GetDeviceMetricsTool {
    /// The tool over the given store.
    pub fn new(registry: Arc<MockDeviceTypeRegistry>) -> (t: Self) {
        GetDeviceMetricsTool { registry }
    }

    /// The tool over a mock store.
    pub fn mock() -> (t: Arc<GetDeviceMetricsTool>) {
        Arc::new(GetDeviceMetricsTool::new(Arc::new(MockDeviceTypeRegistry)))
    }

    /// The name under which the model calls the tool.
    pub fn name(&self) -> (s: &'static str)
        ensures
            s@ == "get_device_metrics"@,
    {
        "get_device_metrics"
    }

    /// What the tool does, for the model.
    pub fn description(&self) -> (s: &'static str)
        ensures
            s@ == "获取设备可查询的所有指标名称、数据类型和单位。\x2a\x2a重要\x2a\x2a: 在查询设备数据前，应该先调用此工具了解设备有哪些可用指标，然后再使用 query_data 查询具体数据。例如：有些设备有温度、湿度、压力等多个指标，先调用此工具可以避免猜测。"@,
    {
        "获取设备可查询的所有指标名称、数据类型和单位。\x2a\x2a重要\x2a\x2a: 在查询设备数据前，应该先调用此工具了解设备有哪些可用指标，然后再使用 query_data 查询具体数据。例如：有些设备有温度、湿度、压力等多个指标，先调用此工具可以避免猜测。"
    }

    /// The category of the tool.
    pub fn category(&self) -> (c: ToolCategory)
        ensures
            c == ToolCategory::Device,
    {
        ToolCategory::Device
    }

    /// The schema of the arguments.
    pub fn parameters(&self) -> (j: Json)
        ensures
            requires_names(j, seq!["device_id"@]),
    {
        let mut props: Vec<(String, Json)> = Vec::new();
        props.push((owned("device_id"), string_property("设备ID，要查询的设备标识符")));
        props.push((owned("include_history"), boolean_property("是否包含历史数据能力，默认为false")));
        let required = names(&["device_id"]);
        assert(required@.map_values(|s: String| s@) =~= seq!["device_id"@]);
        object_schema(Json::Object(props), required)
    }
}

/// The `get_device_type_schema` tool.
pub struct GetDeviceTypeSchemaTool {
    registry: Arc<MockDeviceTypeRegistry>,
}

impl GetDeviceTypeSchemaTool {
    /// The tool over the given store.
    pub fn new(registry: Arc<MockDeviceTypeRegistry>) -> (t: Self) {
        GetDeviceTypeSchemaTool { registry }
    }

    /// The tool over a mock store.
    pub fn mock() -> (t: Arc<GetDeviceTypeSchemaTool>) {
        Arc::new(GetDeviceTypeSchemaTool::new(Arc::new(MockDeviceTypeRegistry)))
    }

    /// The name under which the model calls the tool.
    pub fn name(&self) -> (s: &'static str)
        ensures
            s@ == "get_device_type_schema"@,
    {
        "get_device_type_schema"
    }

    /// What the tool does, for the model.
    pub fn description(&self) -> (s: &'static str)
        ensures
            s@ == "获取设备类型的完整MDL定义，包括所有指标和命令。使用此工具了解设备的完整功能和可用操作。"@,
    {
        "获取设备类型的完整MDL定义，包括所有指标和命令。使用此工具了解设备的完整功能和可用操作。"
    }

    /// The category of the tool.
    pub fn category(&self) -> (c: ToolCategory)
        ensures
            c == ToolCategory::System,
    {
        ToolCategory::System
    }

    /// The schema of the arguments.
    pub fn parameters(&self) -> (j: Json)
        ensures
            requires_names(j, Seq::<Seq<char>>::empty()),
    {
        let mut props: Vec<(String, Json)> = Vec::new();
        props.push((owned("device_type"), string_property("设备类型名称（如'DHT22'、'Relay'），不指定则返回所有类型")));
        props.push((owned("include_examples"), boolean_property("是否包含使用示例，默认为false")));
        let required = names(&[]);
        assert(required@.map_values(|s: String| s@) =~= Seq::<Seq<char>>::empty());
        object_schema(Json::Object(props), required)
    }
}

/// The `list_device_types` tool.
pub struct ListDeviceTypesTool {
    registry: Arc<MockDeviceTypeRegistry>,
}

impl ListDeviceTypesTool {
    /// The tool over the given store.
    pub fn new(registry: Arc<MockDeviceTypeRegistry>) -> (t: Self) {
        ListDeviceTypesTool { registry }
    }

    /// The tool over a mock store.
    pub fn mock() -> (t: Arc<ListDeviceTypesTool>) {
        Arc::new(ListDeviceTypesTool::new(Arc::new(MockDeviceTypeRegistry)))
    }

    /// The name under which the model calls the tool.
    pub fn name(&self) -> (s: &'static str)
        ensures
            s@ == "list_device_types"@,
    {
        "list_device_types"
    }

    /// What the tool does, for the model.
    pub fn description(&self) -> (s: &'static str)
        ensures
            s@ == "列出系统中所有注册的设备类型，包括它们的描述和功能类别。"@,
    {
        "列出系统中所有注册的设备类型，包括它们的描述和功能类别。"
    }

    /// The category of the tool.
    pub fn category(&self) -> (c: ToolCategory)
        ensures
            c == ToolCategory::System,
    {
        ToolCategory::System
    }

    /// The schema of the arguments.
    pub fn parameters(&self) -> (j: Json)
        ensures
            requires_names(j, Seq::<Seq<char>>::empty()),
    {
        let mut props: Vec<(String, Json)> = Vec::new();
        props.push((owned("category"), string_property("可选的类别过滤（如'sensor'、'actuator'）")));
        let required = names(&[]);
        assert(required@.map_values(|s: String| s@) =~= Seq::<Seq<char>>::empty());
        object_schema(Json::Object(props), required)
    }
}

/// The `delete_rule` tool.
pub struct DeleteRuleTool {
    engine: Arc<MockRuleEngine>,
}

impl DeleteRuleTool {
    /// The tool over the given store.
    pub fn new(engine: Arc<MockRuleEngine>) -> (t: Self) {
        DeleteRuleTool { engine }
    }

    /// The tool over a mock store.
    pub fn mock() -> (t: DeleteRuleTool) {
        DeleteRuleTool::new(Arc::new(MockRuleEngine))
    }

    /// The name under which the model calls the tool.
    pub fn name(&self) -> (s: &'static str)
        ensures
            s@ == "delete_rule"@,
    {
        "delete_rule"
    }

    /// What the tool does, for the model.
    pub fn description(&self) -> (s: &'static str)
        ensures
            s@ == "删除一个已存在的自动化规则。删除后规则将被永久移除，无法恢复。"@,
    {
        "删除一个已存在的自动化规则。删除后规则将被永久移除，无法恢复。"
    }

    /// The category of the tool.
    pub fn category(&self) -> (c: ToolCategory)
        ensures
            c == ToolCategory::Rule,
    {
        ToolCategory::Rule
    }

    /// The schema of the arguments.
    pub fn parameters(&self) -> (j: Json)
        ensures
            requires_names(j, seq!["rule_id"@]),
    {
        let mut props: Vec<(String, Json)> = Vec::new();
        props.push((owned("rule_id"), string_property("要删除的规则ID")));
        let required = names(&["rule_id"]);
        assert(required@.map_values(|s: String| s@) =~= seq!["rule_id"@]);
        object_schema(Json::Object(props), required)
    }
}

/// The `enable_rule` tool.
pub struct EnableRuleTool {
    engine: Arc<MockRuleEngine>,
}

impl EnableRuleTool {
    /// The tool over the given store.
    pub fn new(engine: Arc<MockRuleEngine>) -> (t: Self) {
        EnableRuleTool { engine }
    }

    /// The tool over a mock store.
    pub fn mock() -> (t: EnableRuleTool) {
        EnableRuleTool::new(Arc::new(MockRuleEngine))
    }

    /// The name under which the model calls the tool.
    pub fn name(&self) -> (s: &'static str)
        ensures
            s@ == "enable_rule"@,
    {
        "enable_rule"
    }

    /// What the tool does, for the model.
    pub fn description(&self) -> (s: &'static str)
        ensures
            s@ == "启用一个已禁用的自动化规则。启用后规则将开始正常工作。"@,
    {
        "启用一个已禁用的自动化规则。启用后规则将开始正常工作。"
    }

    /// The category of the tool.
    pub fn category(&self) -> (c: ToolCategory)
        ensures
            c == ToolCategory::Rule,
    {
        ToolCategory::Rule
    }

    /// The schema of the arguments.
    pub fn parameters(&self) -> (j: Json)
        ensures
            requires_names(j, seq!["rule_id"@]),
    {
        let mut props: Vec<(String, Json)> = Vec::new();
        props.push((owned("rule_id"), string_property("要启用的规则ID")));
        let required = names(&["rule_id"]);
        assert(required@.map_values(|s: String| s@) =~= seq!["rule_id"@]);
        object_schema(Json::Object(props), required)
    }
}

/// The `disable_rule` tool.
pub struct DisableRuleTool {
    engine: Arc<MockRuleEngine>,
}

impl DisableRuleTool {
    /// The tool over the given store.
    pub fn new(engine: Arc<MockRuleEngine>) -> (t: Self) {
        DisableRuleTool { engine }
    }

    /// The tool over a mock store.
    pub fn mock() -> (t: DisableRuleTool) {
        DisableRuleTool::new(Arc::new(MockRuleEngine))
    }

    /// The name under which the model calls the tool.
    pub fn name(&self) -> (s: &'static str)
        ensures
            s@ == "disable_rule"@,
    {
        "disable_rule"
    }

    /// What the tool does, for the model.
    pub fn description(&self) -> (s: &'static str)
        ensures
            s@ == "禁用一个正在运行的自动化规则。禁用后规则将停止工作，但不会被删除。"@,
    {
        "禁用一个正在运行的自动化规则。禁用后规则将停止工作，但不会被删除。"
    }

    /// The category of the tool.
    pub fn category(&self) -> (c: ToolCategory)
        ensures
            c == ToolCategory::Rule,
    {
        ToolCategory::Rule
    }

    /// The schema of the arguments.
    pub fn parameters(&self) -> (j: Json)
        ensures
            requires_names(j, seq!["rule_id"@]),
    {
        let mut props: Vec<(String, Json)> = Vec::new();
        props.push((owned("rule_id"), string_property("要禁用的规则ID")));
        let required = names(&["rule_id"]);
        assert(required@.map_values(|s: String| s@) =~= seq!["rule_id"@]);
        object_schema(Json::Object(props), required)
    }
}

/// The `update_rule` tool.
pub struct UpdateRuleTool {
    engine: Arc<MockRuleEngine>,
}

impl UpdateRuleTool {
    /// The tool over the given store.
    pub fn new(engine: Arc<MockRuleEngine>) -> (t: Self) {
        UpdateRuleTool { engine }
    }

    /// The tool over a mock store.
    pub fn mock() -> (t: UpdateRuleTool) {
        UpdateRuleTool::new(Arc::new(MockRuleEngine))
    }

    /// The name under which the model calls the tool.
    pub fn name(&self) -> (s: &'static str)
        ensures
            s@ == "update_rule"@,
    {
        "update_rule"
    }

    /// What the tool does, for the model.
    pub fn description(&self) -> (s: &'static str)
        ensures
            s@ == "更新一个已存在的规则。可以修改规则的名称、描述或DSL定义。"@,
    {
        "更新一个已存在的规则。可以修改规则的名称、描述或DSL定义。"
    }

    /// The category of the tool.
    pub fn category(&self) -> (c: ToolCategory)
        ensures
            c == ToolCategory::Rule,
    {
        ToolCategory::Rule
    }

    /// The schema of the arguments.
    pub fn parameters(&self) -> (j: Json)
        ensures
            requires_names(j, seq!["rule_id"@]),
    {
        let mut props: Vec<(String, Json)> = Vec::new();
        props.push((owned("rule_id"), string_property("要更新的规则ID")));
        props.push((owned("name"), string_property("新的规则名称（可选）")));
        props.push((owned("description"), string_property("新的规则描述（可选）")));
        props.push((owned("dsl"), string_property("新的DSL定义（可选）")));
        let required = names(&["rule_id"]);
        assert(required@.map_values(|s: String| s@) =~= seq!["rule_id"@]);
        object_schema(Json::Object(props), required)
    }
}

/// The `query_device_status` tool.
pub struct QueryDeviceStatusTool {
    manager: Arc<MockDeviceManager>,
}

impl QueryDeviceStatusTool {
    /// The tool over the given store.
    pub fn new(manager: Arc<MockDeviceManager>) -> (t: Self) {
        QueryDeviceStatusTool { manager }
    }

    /// The tool over a mock store.
    pub fn mock() -> (t: QueryDeviceStatusTool) {
        QueryDeviceStatusTool::new(Arc::new(MockDeviceManager))
    }

    /// The name under which the model calls the tool.
    pub fn name(&self) -> (s: &'static str)
        ensures
            s@ == "query_device_status"@,
    {
        "query_device_status"
    }

    /// What the tool does, for the model.
    pub fn description(&self) -> (s: &'static str)
        ensures
            s@ == "查询设备的在线状态和连接状态。使用此工具检查设备是否在线、是否响应等信息。"@,
    {
        "查询设备的在线状态和连接状态。使用此工具检查设备是否在线、是否响应等信息。"
    }

    /// The category of the tool.
    pub fn category(&self) -> (c: ToolCategory)
        ensures
            c == ToolCategory::Device,
    {
        ToolCategory::Device
    }

    /// The schema of the arguments.
    pub fn parameters(&self) -> (j: Json)
        ensures
            requires_names(j, seq!["device_id"@]),
    {
        let mut props: Vec<(String, Json)> = Vec::new();
        props.push((owned("device_id"), string_property("设备ID")));
        let required = names(&["device_id"]);
        assert(required@.map_values(|s: String| s@) =~= seq!["device_id"@]);
        object_schema(Json::Object(props), required)
    }
}

/// The `get_device_config` tool.
pub struct GetDeviceConfigTool {
    manager: Arc<MockDeviceManager>,
}

impl GetDeviceConfigTool {
    /// The tool over the given store.
    pub fn new(manager: Arc<MockDeviceManager>) -> (t: Self) {
        GetDeviceConfigTool { manager }
    }

    /// The tool over a mock store.
    pub fn mock() -> (t: GetDeviceConfigTool) {
        GetDeviceConfigTool::new(Arc::new(MockDeviceManager))
    }

    /// The name under which the model calls the tool.
    pub fn name(&self) -> (s: &'static str)
        ensures
            s@ == "get_device_config"@,
    {
        "get_device_config"
    }

    /// What the tool does, for the model.
    pub fn description(&self) -> (s: &'static str)
        ensures
            s@ == "获取设备的配置信息，包括采样率、报警阈值等参数。"@,
    {
        "获取设备的配置信息，包括采样率、报警阈值等参数。"
    }

    /// The category of the tool.
    pub fn category(&self) -> (c: ToolCategory)
        ensures
            c == ToolCategory::Config,
    {
        ToolCategory::Config
    }

    /// The schema of the arguments.
    pub fn parameters(&self) -> (j: Json)
        ensures
            requires_names(j, seq!["device_id"@]),
    {
        let mut props: Vec<(String, Json)> = Vec::new();
        props.push((owned("device_id"), string_property("设备ID")));
        let required = names(&["device_id"]);
        assert(required@.map_values(|s: String| s@) =~= seq!["device_id"@]);
        object_schema(Json::Object(props), required)
    }
}

/// The `set_device_config` tool.
pub struct SetDeviceConfigTool {
    manager: Arc<MockDeviceManager>,
}

impl SetDeviceConfigTool {
    /// The tool over the given store.
    pub fn new(manager: Arc<MockDeviceManager>) -> (t: Self) {
        SetDeviceConfigTool { manager }
    }

    /// The tool over a mock store.
    pub fn mock() -> (t: SetDeviceConfigTool) {
        SetDeviceConfigTool::new(Arc::new(MockDeviceManager))
    }

    /// The name under which the model calls the tool.
    pub fn name(&self) -> (s: &'static str)
        ensures
            s@ == "set_device_config"@,
    {
        "set_device_config"
    }

    /// What the tool does, for the model.
    pub fn description(&self) -> (s: &'static str)
        ensures
            s@ == "设置设备的配置参数，如采样率、报警阈值等。"@,
    {
        "设置设备的配置参数，如采样率、报警阈值等。"
    }

    /// The category of the tool.
    pub fn category(&self) -> (c: ToolCategory)
        ensures
            c == ToolCategory::Config,
    {
        ToolCategory::Config
    }

    /// The schema of the arguments.
    pub fn parameters(&self) -> (j: Json)
        ensures
            requires_names(j, seq!["device_id"@, "config"@]),
    {
        let mut props: Vec<(String, Json)> = Vec::new();
        props.push((owned("device_id"), string_property("设备ID")));
        props.push((owned("config"), config_schema()));
        let required = names(&["device_id", "config"]);
        assert(required@.map_values(|s: String| s@) =~= seq!["device_id"@, "config"@]);
        object_schema(Json::Object(props), required)
    }
}

/// The `batch_control_devices` tool.
pub struct BatchControlDevicesTool {
    manager: Arc<MockDeviceManager>,
}

impl BatchControlDevicesTool {
    /// The tool over the given store.
    pub fn new(manager: Arc<MockDeviceManager>) -> (t: Self) {
        BatchControlDevicesTool { manager }
    }

    /// The tool over a mock store.
    pub fn mock() -> (t: BatchControlDevicesTool) {
        BatchControlDevicesTool::new(Arc::new(MockDeviceManager))
    }

    /// The name under which the model calls the tool.
    pub fn name(&self) -> (s: &'static str)
        ensures
            s@ == "batch_control_devices"@,
    {
        "batch_control_devices"
    }

    /// What the tool does, for the model.
    pub fn description(&self) -> (s: &'static str)
        ensures
            s@ == "批量控制多个设备，发送相同的命令。适用于场景控制（如打开所有灯）。"@,
    {
        "批量控制多个设备，发送相同的命令。适用于场景控制（如打开所有灯）。"
    }

    /// The category of the tool.
    pub fn category(&self) -> (c: ToolCategory)
        ensures
            c == ToolCategory::Device,
    {
        ToolCategory::Device
    }

    /// The schema of the arguments.
    pub fn parameters(&self) -> (j: Json)
        ensures
            requires_names(j, seq!["device_ids"@, "command"@]),
    {
        let mut props: Vec<(String, Json)> = Vec::new();
        props.push((owned("device_ids"), array_property("string", "设备ID列表")));
        props.push((owned("command"), string_property("要执行的命令")));
        props.push((owned("parameters"), array_property("object", "命令参数（可选，每个设备对应一个参数对象）")));
        let required = names(&["device_ids", "command"]);
        assert(required@.map_values(|s: String| s@) =~= seq!["device_ids"@, "command"@]);
        object_schema(Json::Object(props), required)
    }
}

fn config_schema() -> (j: Json)
    ensures
        j matches Json::Object(m) && m@.len() == 3 && is_object_schema(j, m@[1].1, Seq::empty())
            && (m@[1].1 matches Json::Object(p) && p@.len() == 2 && has_text(p@, 0, "description"@, "配置参数对象"@)
                && has_text(p@, 1, "example"@, "\x7b\"sample_rate\": 30, \"alarm_threshold\": 80\x7d"@)),
{
    let mut props: Vec<(String, Json)> = Vec::new();
    props.push(text_member("description", "配置参数对象"));
    props.push(text_member("example", "\x7b\"sample_rate\": 30, \"alarm_threshold\": 80\x7d"));
    let required: Vec<String> = Vec::new();
    assert(required@.map_values(|s: String| s@) =~= Seq::<Seq<char>>::empty());
    object_schema(Json::Object(props), required)
}

/// The outcome of a tool whose arguments must hold the text `key`: the
/// argument error, or the error `missing` when `key` is not a string.
pub open spec fn text_arg(names: Seq<Seq<char>>, args: Json, key: Seq<char>, missing: Seq<char>) -> Result<Seq<char>, Seq<char>> {
    match args_error(names, args) {
        Some(m) => Err(m),
        None => match args.text_at(key) {
            Some(t) => Ok(t),
            None => Err(missing),
        },
    }
}

/// Whether a result is an invalid-arguments error with the message `m`.
pub open spec fn invalid(r: Result<ToolOutput, ToolError>, m: Seq<char>) -> bool {
    r matches Err(ToolError::InvalidArguments(x)) && x@ == m
}

/// Whether a result is a success with no metadata whose data is an object
/// of string members with these keys and texts.
pub open spec fn text_success(r: Result<ToolOutput, ToolError>, pairs: Seq<(Seq<char>, Seq<char>)>) -> bool {
    r matches Ok(o) && o.success && o.error is None && o.metadata is None
        && (o.data matches Json::Object(d) && d@.len() == pairs.len()
            && forall|i: int| 0 <= i < pairs.len() ==> #[trigger] has_text(d@, i, pairs[i].0, pairs[i].1))
}

pub(crate) fn required_text_arg(schema: &Json, names: Ghost<Seq<Seq<char>>>, args: &Json, key: &str, missing: &str) -> (r: Result<String, ToolError>)
    requires
        requires_names(*schema, names@),
    ensures
        match text_arg(names@, *args, key@, missing@) {
            Ok(t) => r matches Ok(s) && s@ == t,
            Err(m) => r matches Err(ToolError::InvalidArguments(x)) && x@ == m,
        },
{
    match check_required(schema, names, args) {
        Ok(()) => {},
        Err(e) => return Err(e),
    }
    match args.str_at(key) {
        Some(t) => Ok(owned(t.as_str())),
        None => Err(ToolError::InvalidArguments(owned(missing))),
    }
}

fn text_object(pairs: Vec<(String, Json)>) -> (j: Json)
    ensures
        j == Json::Object(pairs),
{
    Json::Object(pairs)
}

impl DeleteRuleTool {
    /// Deletes a rule: the rule id must be given as a string.
    pub fn run(&self, args: &Json) -> (r: Result<ToolOutput, ToolError>)
        ensures
            match text_arg(seq!["rule_id"@], *args, "rule_id"@, "rule_id must be a string"@) {
                Err(m) => invalid(r, m),
                Ok(id) => text_success(r, seq![("rule_id"@, id), ("status"@, "deleted"@), ("message"@, "规则 "@ + id + " 已删除"@)]),
            },
    {
        let schema = self.parameters();
        let ghost names = seq!["rule_id"@];
        let id = match required_text_arg(&schema, Ghost(names), args, "rule_id", "rule_id must be a string") {
            Ok(id) => id,
            Err(e) => return Err(e),
        };
        let mut d: Vec<(String, Json)> = Vec::new();
        d.push(text_member("rule_id", id.as_str()));
        d.push(text_member("status", "deleted"));
        let message = cat3("规则 ", id.as_str(), " 已删除");
        d.push(text_member("message", message.as_str()));
        Ok(ToolOutput::success(Json::Object(d)))
    }
}

impl EnableRuleTool {
    /// Enables a rule: the rule id must be given as a string.
    pub fn run(&self, args: &Json) -> (r: Result<ToolOutput, ToolError>)
        ensures
            match text_arg(seq!["rule_id"@], *args, "rule_id"@, "rule_id required"@) {
                Err(m) => invalid(r, m),
                Ok(id) => text_success(r, seq![("rule_id"@, id), ("status"@, "enabled"@)]),
            },
    {
        let schema = self.parameters();
        let ghost names = seq!["rule_id"@];
        let id = match required_text_arg(&schema, Ghost(names), args, "rule_id", "rule_id required") {
            Ok(id) => id,
            Err(e) => return Err(e),
        };
        match self.engine.enable_rule(id.as_str()) {
            Ok(_) => {},
            Err(e) => return Err(e),
        }
        let mut d: Vec<(String, Json)> = Vec::new();
        d.push(text_member("rule_id", id.as_str()));
        d.push(text_member("status", "enabled"));
        Ok(ToolOutput::success(Json::Object(d)))
    }
}

impl DisableRuleTool {
    /// Disables a rule: the rule id must be given as a string.
    pub fn run(&self, args: &Json) -> (r: Result<ToolOutput, ToolError>)
        ensures
            match text_arg(seq!["rule_id"@], *args, "rule_id"@, "rule_id required"@) {
                Err(m) => invalid(r, m),
                Ok(id) => text_success(r, seq![("rule_id"@, id), ("status"@, "disabled"@)]),
            },
    {
        let schema = self.parameters();
        let ghost names = seq!["rule_id"@];
        let id = match required_text_arg(&schema, Ghost(names), args, "rule_id", "rule_id required") {
            Ok(id) => id,
            Err(e) => return Err(e),
        };
        match self.engine.disable_rule(id.as_str()) {
            Ok(_) => {},
            Err(e) => return Err(e),
        }
        let mut d: Vec<(String, Json)> = Vec::new();
        d.push(text_member("rule_id", id.as_str()));
        d.push(text_member("status", "disabled"));
        Ok(ToolOutput::success(Json::Object(d)))
    }
}

impl UpdateRuleTool {
    /// Updates a rule: the rule id must be given as a string.
    pub fn run(&self, args: &Json) -> (r: Result<ToolOutput, ToolError>)
        ensures
            match text_arg(seq!["rule_id"@], *args, "rule_id"@, "rule_id required"@) {
                Err(m) => invalid(r, m),
                Ok(id) => text_success(r, seq![("rule_id"@, id), ("status"@, "updated"@), ("message"@, "规则已更新"@)]),
            },
    {
        let schema = self.parameters();
        let ghost names = seq!["rule_id"@];
        let id = match required_text_arg(&schema, Ghost(names), args, "rule_id", "rule_id required") {
            Ok(id) => id,
            Err(e) => return Err(e),
        };
        let mut d: Vec<(String, Json)> = Vec::new();
        d.push(text_member("rule_id", id.as_str()));
        d.push(text_member("status", "updated"));
        d.push(text_member("message", "规则已更新"));
        Ok(ToolOutput::success(Json::Object(d)))
    }
}

impl GetDeviceConfigTool {
    /// The configuration of a device: sampled every 60 s, in celsius, enabled.
    pub fn run(&self, args: &Json) -> (r: Result<ToolOutput, ToolError>)
        ensures
            match text_arg(seq!["device_id"@], *args, "device_id"@, "device_id required"@) {
                Err(m) => invalid(r, m),
                Ok(id) => r matches Ok(o) && o.success && o.error is None && o.metadata is None
                    && (o.data matches Json::Object(d) && d@.len() == 2 && has_text(d@, 0, "device_id"@, id)
                        && d@[1].0@ == "config"@ && (d@[1].1 matches Json::Object(c) && c@.len() == 3
                            && has_value(c@, 0, "sample_rate"@, Json::Int(60)) && has_text(c@, 1, "unit"@, "celsius"@)
                            && has_value(c@, 2, "enabled"@, Json::Bool(true)))),
            },
    {
        let schema = self.parameters();
        let ghost names = seq!["device_id"@];
        let id = match required_text_arg(&schema, Ghost(names), args, "device_id", "device_id required") {
            Ok(id) => id,
            Err(e) => return Err(e),
        };
        let mut c: Vec<(String, Json)> = Vec::new();
        c.push((owned("sample_rate"), Json::Int(60)));
        c.push(text_member("unit", "celsius"));
        c.push((owned("enabled"), Json::Bool(true)));
        let mut d: Vec<(String, Json)> = Vec::new();
        d.push(text_member("device_id", id.as_str()));
        d.push((owned("config"), Json::Object(c)));
        Ok(ToolOutput::success(Json::Object(d)))
    }
}

impl SetDeviceConfigTool {
    /// Sets the configuration of a device: echoes the device, the given
    /// configuration (or null) and that it was updated.
    pub fn run(&self, args: &Json) -> (r: Result<ToolOutput, ToolError>)
        ensures
            match text_arg(seq!["device_id"@, "config"@], *args, "device_id"@, "device_id required"@) {
                Err(m) => invalid(r, m),
                Ok(id) => r matches Ok(o) && o.success && o.error is None && o.metadata is None
                    && (o.data matches Json::Object(d) && d@.len() == 4 && has_text(d@, 0, "device_id"@, id)
                        && d@[1].0@ == "config"@ && (match args.member("config"@) {
                            Some(c) => same(d@[1].1, c),
                            None => d@[1].1 == Json::Null,
                        })
                        && has_text(d@, 2, "status"@, "updated"@) && has_text(d@, 3, "message"@, "设备配置已更新"@)),
            },
    {
        let schema = self.parameters();
        let ghost names = seq!["device_id"@, "config"@];
        let id = match required_text_arg(&schema, Ghost(names), args, "device_id", "device_id required") {
            Ok(id) => id,
            Err(e) => return Err(e),
        };
        let config = match args.get("config") {
            Some(c) => c.copy(),
            None => Json::Null,
        };
        let mut d: Vec<(String, Json)> = Vec::new();
        d.push(text_member("device_id", id.as_str()));
        d.push((owned("config"), config));
        d.push(text_member("status", "updated"));
        d.push(text_member("message", "设备配置已更新"));
        Ok(ToolOutput::success(Json::Object(d)))
    }
}

/// Whether a device with the id is among the mock devices, and its status.
pub open spec fn mock_status(id: Seq<char>) -> Option<Seq<char>> {
    if id == mock_devices()[0].0 {
        Some(mock_devices()[0].3)
    } else if id == mock_devices()[1].0 {
        Some(mock_devices()[1].3)
    } else {
        None
    }
}

impl QueryDeviceStatusTool {
    /// The status of a device: whether it is online, its status and when it
    /// was last seen (now); a failure, with the device and that it does not
    /// exist, for an unknown device.
    pub fn run(&self, args: &Json) -> (r: Result<ToolOutput, ToolError>)
        ensures
            match text_arg(seq!["device_id"@], *args, "device_id"@, "device_id required"@) {
                Err(m) => invalid(r, m),
                Ok(id) => match mock_status(id) {
                    Some(status) => r matches Ok(o) && o.success && o.error is None && o.metadata is None
                        && (o.data matches Json::Object(d) && d@.len() == 4 && has_text(d@, 0, "device_id"@, id)
                            && has_value(d@, 1, "online"@, Json::Bool(status == "online"@))
                            && has_text(d@, 2, "status"@, status) && d@[3].0@ == "last_seen"@ && d@[3].1 is Int),
                    None => r matches Ok(o) && !o.success && (o.error matches Some(e) && e@ == "设备不存在"@)
                        && (o.metadata matches Some(meta) && same(o.data, meta) && (meta matches Json::Object(m)
                            && m@.len() == 2 && has_text(m@, 0, "device_id"@, id) && has_value(m@, 1, "exists"@, Json::Bool(false)))),
                },
            },
    {
        let schema = self.parameters();
        let ghost names = seq!["device_id"@];
        let id = match required_text_arg(&schema, Ghost(names), args, "device_id", "device_id required") {
            Ok(id) => id,
            Err(e) => return Err(e),
        };
        let devices = self.manager.get_devices();
        let ghost dv = devices@.map_values(|d: DeviceInfo| device_view(d));
        assert(dv.len() == 2);
        assert(devices@.len() == 2);
        assert(dv[0] == device_view(devices@[0]) && dv[1] == device_view(devices@[1]));
        let mut found: Option<usize> = None;
        if same_text(devices[0].id.as_str(), id.as_str()) {
            found = Some(0);
        } else if same_text(devices[1].id.as_str(), id.as_str()) {
            found = Some(1);
        }
        match found {
            Some(k) => {
                let d = &devices[k];
                let online = same_text(d.status.as_str(), "online");
                let mut o: Vec<(String, Json)> = Vec::new();
                o.push(text_member("device_id", id.as_str()));
                o.push((owned("online"), Json::Bool(online)));
                o.push(text_member("status", d.status.as_str()));
                o.push((owned("last_seen"), Json::Int(now_timestamp())));
                Ok(ToolOutput::success(Json::Object(o)))
            },
            None => {
                let mut m: Vec<(String, Json)> = Vec::new();
                m.push(text_member("device_id", id.as_str()));
                m.push((owned("exists"), Json::Bool(false)));
                Ok(ToolOutput::error_with_metadata("设备不存在", Json::Object(m)))
            },
        }
    }
}

impl GetDeviceMetricsTool {
    /// The metrics of a device, their count and a hint, with metadata that
    /// tells whether history was asked for.
    pub fn run(&self, args: &Json) -> (r: Result<ToolOutput, ToolError>)
        ensures
            match text_arg(seq!["device_id"@], *args, "device_id"@, "device_id must be a string"@) {
                Err(m) => invalid(r, m),
                Ok(id) => r matches Ok(o) && o.success && o.error is None
                    && (o.data matches Json::Object(d) && d@.len() == 4 && has_text(d@, 0, "device_id"@, id)
                        && d@[1].0@ == "metrics"@ && is_metrics_json(d@[1].1, mock_metrics())
                        && has_value(d@, 2, "count"@, Json::Int(2))
                        && has_text(d@, 3, "hint"@, "现在可以使用 query_data 工具查询具体的指标数据"@))
                    && (o.metadata matches Some(Json::Object(m)) && m@.len() == 2
                        && has_text(m@, 0, "query_type"@, "device_metrics"@)
                        && has_value(m@, 1, "includes_history_capability"@, Json::Bool(args.bool_at("include_history"@) == Some(true)))),
            },
    {
        let schema = self.parameters();
        let ghost names = seq!["device_id"@];
        let id = match required_text_arg(&schema, Ghost(names), args, "device_id", "device_id must be a string") {
            Ok(id) => id,
            Err(e) => return Err(e),
        };
        let metrics = self.registry.get_device_metrics(id.as_str());
        let include_history = match args.bool_at_key("include_history") {
            Some(b) => b,
            None => false,
        };
        let n = metrics.len();
        let mut d: Vec<(String, Json)> = Vec::new();
        d.push(text_member("device_id", id.as_str()));
        d.push((owned("metrics"), metrics_json(&metrics)));
        d.push((owned("count"), Json::Int(n as i64)));
        d.push(text_member("hint", "现在可以使用 query_data 工具查询具体的指标数据"));
        let mut m: Vec<(String, Json)> = Vec::new();
        m.push(text_member("query_type", "device_metrics"));
        m.push((owned("includes_history_capability"), Json::Bool(include_history)));
        Ok(ToolOutput::success_with_metadata(Json::Object(d), Json::Object(m)))
    }
}

/// The device types of a category, in order.
pub open spec fn types_in(ts: Seq<(Seq<char>, Seq<char>, Seq<char>, Seq<char>)>, c: Seq<char>) -> Seq<(Seq<char>, Seq<char>, Seq<char>, Seq<char>)>
    decreases ts.len(),
{
    if ts.len() == 0 {
        Seq::empty()
    } else {
        let rest = types_in(ts.drop_last(), c);
        if ts.last().2 == c { rest.push(ts.last()) } else { rest }
    }
}

impl ListDeviceTypesTool {
    /// The registered device types, of the given category if one is given, and their count.
    pub fn run(&self, args: &Json) -> (r: Result<ToolOutput, ToolError>)
        ensures
            r matches Ok(o) && o.success && o.error is None && o.metadata is None
                && (o.data matches Json::Object(d) && d@.len() == 2 && d@[0].0@ == "device_types"@
                    && is_types_json(d@[0].1, match args.text_at("category"@) {
                        Some(c) => types_in(mock_types(), c),
                        None => mock_types(),
                    })
                    && d@[1].0@ == "count"@ && is_count(d@[1].1, match args.text_at("category"@) {
                        Some(c) => types_in(mock_types(), c).len(),
                        None => mock_types().len(),
                    })),
    {
        let types = self.registry.list_device_types();
        let kept = match args.str_at("category") {
            Some(c) => {
                let mut k: Vec<DeviceTypeInfo> = Vec::new();
                let mut all = types;
                let ghost tv = mock_types();
                let mut i: usize = 0;
                proof {
                    assert(tv.subrange(0, 0) =~= Seq::<(Seq<char>, Seq<char>, Seq<char>, Seq<char>)>::empty());
                }
                while all.len() > 0
                    invariant
                        tv == mock_types(),
                        i + all@.len() == tv.len(),
                        all@.map_values(|t: DeviceTypeInfo| type_view(t)) == tv.subrange(i as int, tv.len() as int),
                        k@.map_values(|t: DeviceTypeInfo| type_view(t)) == types_in(tv.subrange(0, i as int), c@),
                    decreases all@.len(),
                {
                    let ghost before = all@;
                    let t = all.remove(0);
                    proof {
                        assert(before.map_values(|t: DeviceTypeInfo| type_view(t))[0] == type_view(t));
                        assert forall|q: int| 0 <= q < all@.len() implies #[trigger] type_view(all@[q]) == tv.subrange(i + 1, tv.len() as int)[q] by {
                            assert(all@[q] == before[q + 1]);
                            assert(before.map_values(|t: DeviceTypeInfo| type_view(t))[q + 1] == type_view(before[q + 1]));
                        }
                        assert(all@.map_values(|t: DeviceTypeInfo| type_view(t)) =~= tv.subrange(i + 1, tv.len() as int));
                        assert(tv.subrange(0, i + 1).drop_last() =~= tv.subrange(0, i as int));
                        assert(tv.subrange(0, i + 1).last() == type_view(t));
                    }
                    if same_text(t.category.as_str(), c.as_str()) {
                        let ghost kb = k@;
                        k.push(t);
                        assert(k@.map_values(|t: DeviceTypeInfo| type_view(t)) =~= kb.map_values(|t: DeviceTypeInfo| type_view(t)).push(type_view(t)));
                    }
                    i = i + 1;
                }
                assert(tv.subrange(0, i as int) =~= tv);
                k
            },
            None => types,
        };
        let n = kept.len();
        let mut d: Vec<(String, Json)> = Vec::new();
        d.push((owned("device_types"), types_json(&kept)));
        d.push((owned("count"), count(n)));
        Ok(ToolOutput::success(Json::Object(d)))
    }
}

impl GetDeviceTypeSchemaTool {
    /// The definition of the given device type; without one, the registered
    /// types, their count and a note.
    pub fn run(&self, args: &Json) -> (r: Result<ToolOutput, ToolError>)
        ensures
            r matches Ok(o) && o.success && o.error is None && o.metadata is None
                && (o.data matches Json::Object(d) && match args.text_at("device_type"@) {
                    Some(t) => d@.len() == 6 && has_text(d@, 0, "device_type"@, t)
                        && has_text(d@, 1, "display_name"@, t + " Type"@)
                        && has_text(d@, 2, "description"@, t + "设备的MDL定义"@)
                        && d@[3].0@ == "capabilities"@ && d@[4].0@ == "metrics"@ && is_metrics_json(d@[4].1, mock_metrics())
                        && d@[5].0@ == "commands"@,
                    None => d@.len() == 3 && d@[0].0@ == "device_types"@ && is_types_json(d@[0].1, mock_types())
                        && has_value(d@, 1, "count"@, Json::Int(2))
                        && has_text(d@, 2, "note"@, "使用 device_type 参数获取特定类型的完整MDL定义"@),
                }),
    {
        match args.str_at("device_type") {
            Some(t) => {
                let schema = self.registry.get_device_type_schema(t.as_str());
                let mut caps: Vec<Json> = Vec::new();
                let mut i: usize = 0;
                while i < schema.capabilities.len()
                    invariant
                        i <= schema.capabilities@.len(),
                    decreases schema.capabilities@.len() - i,
                {
                    caps.push(Json::Str(owned(schema.capabilities[i].as_str())));
                    i = i + 1;
                }
                let mut cmds: Vec<Json> = Vec::new();
                let mut j: usize = 0;
                while j < schema.commands.len()
                    invariant
                        j <= schema.commands@.len(),
                    decreases schema.commands@.len() - j,
                {
                    let c = &schema.commands[j];
                    let mut params: Vec<Json> = Vec::new();
                    let mut q: usize = 0;
                    while q < c.parameters.len()
                        invariant
                            q <= c.parameters@.len(),
                        decreases c.parameters@.len() - q,
                    {
                        params.push(c.parameters[q].copy());
                        q = q + 1;
                    }
                    let mut o: Vec<(String, Json)> = Vec::new();
                    o.push(text_member("name", c.name.as_str()));
                    o.push(text_member("display_name", c.display_name.as_str()));
                    o.push(text_member("description", c.description.as_str()));
                    o.push((owned("parameters"), Json::Array(params)));
                    cmds.push(Json::Object(o));
                    j = j + 1;
                }
                let mut d: Vec<(String, Json)> = Vec::new();
                d.push(text_member("device_type", schema.device_type.as_str()));
                d.push(text_member("display_name", schema.display_name.as_str()));
                d.push(text_member("description", schema.description.as_str()));
                d.push((owned("capabilities"), Json::Array(caps)));
                d.push((owned("metrics"), metrics_json(&schema.metrics)));
                d.push((owned("commands"), Json::Array(cmds)));
                Ok(ToolOutput::success(Json::Object(d)))
            },
            None => {
                let types = self.registry.list_device_types();
                let n = types.len();
                let mut d: Vec<(String, Json)> = Vec::new();
                d.push((owned("device_types"), types_json(&types)));
                d.push((owned("count"), Json::Int(n as i64)));
                d.push(text_member("note", "使用 device_type 参数获取特定类型的完整MDL定义"));
                Ok(ToolOutput::success(Json::Object(d)))
            },
        }
    }
}

/// The results of sending a command to each string in `ids`, in order: each
/// a success for that device.
pub open spec fn is_batch_results(results: Seq<Json>, ids: Seq<Json>) -> bool
    decreases ids.len(),
{
    if ids.len() == 0 {
        results.len() == 0
    } else {
        match ids.last().text() {
            Some(id) => results.len() > 0 && is_batch_results(results.drop_last(), ids.drop_last())
                && (results.last() matches Json::Object(o) && o@.len() == 2 && has_text(o@, 0, "device_id"@, id)
                    && has_text(o@, 1, "status"@, "success"@)),
            None => is_batch_results(results, ids.drop_last()),
        }
    }
}

impl BatchControlDevicesTool {
    /// Sends one command to each listed device (items that are not strings
    /// are passed over): the command, the number of items and one result per
    /// device.
    pub fn run(&self, args: &Json) -> (r: Result<ToolOutput, ToolError>)
        ensures
            match args_error(seq!["device_ids"@, "command"@], *args) {
                Some(m) => invalid(r, m),
                None => match args.member("device_ids"@) {
                    Some(Json::Array(ids)) => match args.text_at("command"@) {
                        Some(c) => r matches Ok(o) && o.success && o.error is None && o.metadata is None
                            && (o.data matches Json::Object(d) && d@.len() == 3 && has_text(d@, 0, "command"@, c)
                                && d@[1].0@ == "total"@ && is_count(d@[1].1, ids@.len())
                                && d@[2].0@ == "results"@ && (d@[2].1 matches Json::Array(res) && is_batch_results(res@, ids@))),
                        None => invalid(r, "command required"@),
                    },
                    _ => invalid(r, "device_ids must be an array"@),
                },
            },
    {
        let schema = self.parameters();
        let ghost names = seq!["device_ids"@, "command"@];
        match check_required(&schema, Ghost(names), args) {
            Ok(()) => {},
            Err(e) => return Err(e),
        }
        let ids = match args.get("device_ids") {
            Some(Json::Array(v)) => v,
            _ => return Err(ToolError::InvalidArguments(owned("device_ids must be an array"))),
        };
        let command = match args.str_at("command") {
            Some(c) => c,
            None => return Err(ToolError::InvalidArguments(owned("command required"))),
        };
        let mut results: Vec<Json> = Vec::new();
        let mut i: usize = 0;
        while i < ids.len()
            invariant
                i <= ids@.len(),
                is_batch_results(results@, ids@.subrange(0, i as int)),
            decreases ids@.len() - i,
        {
            proof {
                assert(ids@.subrange(0, i + 1).drop_last() =~= ids@.subrange(0, i as int));
                assert(ids@.subrange(0, i + 1).last() == ids@[i as int]);
            }
            match ids[i].as_text() {
                Some(id) => {
                    match self.manager.write_command(id.as_str(), command.as_str(), Json::Null) {
                        Ok(_) => {
                            let mut o: Vec<(String, Json)> = Vec::new();
                            o.push(text_member("device_id", id.as_str()));
                            o.push(text_member("status", "success"));
                            let ghost before = results@;
                            results.push(Json::Object(o));
                            assert(results@.drop_last() =~= before);
                        },
                        Err(e) => {},
                    }
                },
                None => {},
            }
            i = i + 1;
        }
        assert(ids@.subrange(0, ids@.len() as int) =~= ids@);
        let mut d: Vec<(String, Json)> = Vec::new();
        d.push(text_member("command", command.as_str()));
        d.push((owned("total"), count(ids.len())));
        d.push((owned("results"), Json::Array(results)));
        Ok(ToolOutput::success(Json::Object(d)))
    }
}

} // verus!
