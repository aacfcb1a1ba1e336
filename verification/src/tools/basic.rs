//! The first built-in tools: querying readings, sending a command to a
//! device, listing devices and rules, and creating rules.
use vstd::prelude::*;
use std::sync::Arc;
use crate::clock::now_timestamp;
use crate::json::{has_text, has_value, Json};
use crate::text::{milli_string, milli_text, owned, same_text};
use crate::tools::builtin::{
    count, device_view, invalid, is_command_reply, is_count, mock_devices, mock_summaries, names, text_arg,
    text_member, unsigned_number, DeviceInfo, MetricDataPoint, MockDeviceManager, MockRuleEngine,
    MockTimeSeriesStore, };
use crate::tools::catalog::ToolCategory;
use crate::tools::error::ToolError;
use crate::tools::system::is_real;
use crate::tools::tool::{
    args_error, array_property, boolean_property, check_required, number_property, object_schema, requires_names,
    string_property, ToolOutput,
};
use crate::workflow::templates::texts;

verus! {

// ---------------------------------------------------------------- query_data

/// The readings the mock store holds between `start` and `end`, each as its
/// time, metric and value in thousandths.
pub open spec fn mock_readings(metric: Option<Seq<char>>, start: int, end: int) -> Seq<(int, Seq<char>, int)> {
    match metric {
        Some(m) => seq![(start, m, 25000int), (end, m, 27500int)],
        None => seq![
            (start, "temperature"@, 25000int),
            (start, "humidity"@, 60000int),
            (end, "temperature"@, 27500int),
            (end, "humidity"@, 65000int),
        ],
    }
}

/// A reading as JSON: its time, metric, value and a quality of 1.0.
pub open spec fn is_reading_json(j: Json, r: (int, Seq<char>, int)) -> bool {
    j matches Json::Object(o) && o@.len() == 4
        && o@[0].0@ == "timestamp"@ && (o@[0].1 matches Json::Int(t) && t == r.0)
        && has_text(o@, 1, "metric"@, r.1)
        && o@[2].0@ == "value"@ && is_real(o@[2].1, milli_text(r.2))
        && o@[3].0@ == "quality"@ && is_real(o@[3].1, "1.0"@)
}

/// Readings as a JSON array.
pub open spec fn is_readings_json(j: Json, rs: Seq<(int, Seq<char>, int)>) -> bool {
    j matches Json::Array(v) && v@.len() == rs.len() && forall|i: int| 0 <= i < rs.len() ==> is_reading_json(#[trigger] v@[i], rs[i])
}

/// The end of the window asked for: `end_time`, else `now`.
pub open spec fn end_of(args: Json, now: int) -> int {
    match args.int_at("end_time"@) {
        Some(e) => e,
        None => now,
    }
}

/// The start of the window asked for: `start_time`, else a day before its end.
pub open spec fn start_of(args: Json, now: int) -> int {
    match args.int_at("start_time"@) {
        Some(s) => s,
        None => end_of(args, now) - 86400,
    }
}

/// The first `limit` of the readings when a limit is given.
pub open spec fn limited(rs: Seq<(int, Seq<char>, int)>, limit: Option<int>) -> Seq<(int, Seq<char>, int)> {
    match limit {
        Some(l) => if 0 <= l < rs.len() { rs.take(l) } else { rs },
        None => rs,
    }
}

/// The limit asked for, when it is a non-negative integer.
pub open spec fn limit_of(args: Json) -> Option<int> {
    match args.int_at("limit"@) {
        Some(l) => if l >= 0 { Some(l) } else { None },
        None => None,
    }
}

/// What querying readings at time `now` answers: the device (a required
/// string), the metric or null, the window, the number of readings and the
/// readings themselves, marked as a time-series query.
pub open spec fn is_query_result(r: Result<ToolOutput, ToolError>, args: Json, now: int) -> bool {
    match text_arg(seq!["device_id"@], args, "device_id"@, "device_id must be a string"@) {
        Err(m) => invalid(r, m),
        Ok(dev) => {
            let rs = limited(mock_readings(args.text_at("metric"@), start_of(args, now), end_of(args, now)), limit_of(args));
            r matches Ok(o) && o.success && o.error is None
                && (o.metadata matches Some(Json::Object(meta)) && meta@.len() == 1
                    && has_text(meta@, 0, "query_type"@, "time_series_range"@))
                && (o.data matches Json::Object(d) && d@.len() == 6 && has_text(d@, 0, "device_id"@, dev)
                    && d@[1].0@ == "metric"@ && match args.text_at("metric"@) {
                        Some(m) => d@[1].1.text() == Some(m),
                        None => d@[1].1 is Null,
                    }
                    && d@[2].0@ == "start_time"@ && (d@[2].1 matches Json::Int(s) && s == start_of(args, now))
                    && d@[3].0@ == "end_time"@ && (d@[3].1 matches Json::Int(e) && e == end_of(args, now))
                    && d@[4].0@ == "count"@ && is_count(d@[4].1, rs.len())
                    && d@[5].0@ == "data"@ && is_readings_json(d@[5].1, rs))
        },
    }
}

/// What querying readings answers at some time the clock gave.
pub open spec fn is_query_result_now(r: Result<ToolOutput, ToolError>, args: Json) -> bool {
    exists|now: int| 0 <= now <= 10_000_000_000_000 && #[trigger] is_query_result(r, args, now)
}

/// Whether an `end_time` given can be moved a day back.
pub open spec fn end_fits(args: Json) -> bool {
    args.int_at("end_time"@) matches Some(e) ==> e >= i64::MIN + 86400
}

fn reading_json(p: &MetricDataPoint) -> (j: Json)
    requires
        p.quality_milli == Some(1000i64),
    ensures
        is_reading_json(j, (p.timestamp as int, p.metric@, p.value_milli as int)),
{
    let mut o: Vec<(String, Json)> = Vec::new();
    o.push((owned("timestamp"), Json::Int(p.timestamp)));
    o.push(text_member("metric", p.metric.as_str()));
    o.push((owned("value"), Json::Real(milli_string(p.value_milli))));
    let q = milli_string(1000);
    proof {
        reveal_strlit("1.0");
        assert(milli_text(1000) =~= "1.0"@);
    }
    o.push((owned("quality"), Json::Real(q)));
    Json::Object(o)
}

/// The `query_data` tool.
pub struct QueryDataTool {
    storage: Arc<MockTimeSeriesStore>,
}

impl QueryDataTool {
    /// The tool over the given store.
    pub fn new(storage: Arc<MockTimeSeriesStore>) -> (t: Self) {
        QueryDataTool { storage }
    }

    /// The tool over a mock store.
    pub fn mock() -> (t: Self) {
        QueryDataTool::new(Arc::new(MockTimeSeriesStore))
    }

    /// The name under which the model calls the tool.
    pub fn name(&self) -> (s: &'static str)
        ensures
            s@ == "query_data"@,
    {
        "query_data"
    }

    /// What the tool does, for the model.
    pub fn description(&self) -> (s: &'static str)
        ensures
            s@ == "查询设备的时序数据。使用此工具获取设备的历史或当前数据。**重要**: 在查询数据前，建议先使用 get_device_metrics 了解设备有哪些可用指标。"@,
    {
        "查询设备的时序数据。使用此工具获取设备的历史或当前数据。**重要**: 在查询数据前，建议先使用 get_device_metrics 了解设备有哪些可用指标。"
    }

    /// The category of the tool.
    pub fn category(&self) -> (c: ToolCategory)
        ensures
            c == ToolCategory::Data,
    {
        ToolCategory::Data
    }

    /// The schema of the arguments.
    pub fn parameters(&self) -> (j: Json)
        ensures
            requires_names(j, seq!["device_id"@]),
    {
        let mut props: Vec<(String, Json)> = Vec::new();
        props.push((owned("device_id"), string_property("设备ID，要查询的设备标识符")));
        props.push((owned("metric"), string_property("指标名称（如'temperature'、'humidity'）。可选，不指定则返回所有可用指标。**提示**: 使用 get_device_metrics 工具可以查看设备的所有可用指标。")));
        props.push((owned("start_time"), number_property("开始时间戳（Unix时间戳）。可选，默认为24小时前。")));
        props.push((owned("end_time"), number_property("结束时间戳（Unix时间戳）。可选，默认为当前时间。")));
        props.push((owned("limit"), number_property("返回的最大数据点数量。可选。")));
        let required = names(&["device_id"]);
        assert(required@.map_values(|s: String| s@) =~= seq!["device_id"@]);
        object_schema(Json::Object(props), required)
    }

    /// The readings of a device over a window, at time `now` (seconds since
    /// the epoch): by default the day up to `now`.
    pub fn query_at(&self, args: &Json, now: i64) -> (r: Result<ToolOutput, ToolError>)
        requires
            end_fits(*args),
            0 <= now <= 10_000_000_000_000,
        ensures
            is_query_result(r, *args, now as int),
    {
        let schema = self.parameters();
        let ghost want = seq!["device_id"@];
        match check_required(&schema, Ghost(want), args) {
            Ok(()) => {},
            Err(e) => return Err(e),
        }
        let device_id = match args.str_at("device_id") {
            Some(d) => d,
            None => return Err(ToolError::InvalidArguments(owned("device_id must be a string"))),
        };
        let metric = match args.str_at("metric") {
            Some(m) => Some(m.as_str()),
            None => None,
        };
        let end_time = match args.i64_at("end_time") {
            Some(e) => e,
            None => now,
        };
        let start_time = match args.i64_at("start_time") {
            Some(s) => s,
            None => end_time - 86400,
        };
        let points = self.storage.query(device_id.as_str(), metric, start_time, end_time);
        let ghost all = mock_readings(args.text_at("metric"@), start_time as int, end_time as int);
        assert(points@.len() == all.len());
        assert forall|i: int| 0 <= i < all.len() implies
            (#[trigger] all[i]) == (points@[i].timestamp as int, points@[i].metric@, points@[i].value_milli as int) by {
        }
        let mut keep = points.len();
        match args.u64_at("limit") {
            Some(l) => {
                if (l as u128) < (keep as u128) {
                    keep = l as usize;
                }
            },
            None => {},
        }
        let ghost rs = limited(all, limit_of(*args));
        assert(rs.len() == keep);
        let mut data: Vec<Json> = Vec::new();
        let mut i: usize = 0;
        while i < keep
            invariant
                keep <= points@.len(),
                rs.len() == keep,
                points@.len() == all.len(),
                forall|k: int| 0 <= k < rs.len() ==> #[trigger] rs[k] == all[k],
                forall|k: int| 0 <= k < all.len() ==> (#[trigger] all[k]) == (points@[k].timestamp as int, points@[k].metric@, points@[k].value_milli as int),
                forall|k: int| 0 <= k < points@.len() ==> #[trigger] points@[k].quality_milli == Some(1000i64),
                i <= keep,
                data@.len() == i,
                forall|k: int| 0 <= k < i ==> is_reading_json(#[trigger] data@[k], rs[k]),
            decreases keep - i,
        {
            assert(rs[i as int] == all[i as int]);
            data.push(reading_json(&points[i]));
            i = i + 1;
        }
        let mut d: Vec<(String, Json)> = Vec::new();
        d.push(text_member("device_id", device_id.as_str()));
        match metric {
            Some(m) => d.push(text_member("metric", m)),
            None => d.push((owned("metric"), Json::Null)),
        }
        d.push((owned("start_time"), Json::Int(start_time)));
        d.push((owned("end_time"), Json::Int(end_time)));
        d.push((owned("count"), count(keep)));
        d.push((owned("data"), Json::Array(data)));
        let mut meta: Vec<(String, Json)> = Vec::new();
        meta.push(text_member("query_type", "time_series_range"));
        Ok(ToolOutput::success_with_metadata(Json::Object(d), Json::Object(meta)))
    }

    /// The readings of a device over a window; by default the day up to now.
    pub fn run(&self, args: &Json) -> (r: Result<ToolOutput, ToolError>)
        requires
            end_fits(*args),
        ensures
            is_query_result_now(r, *args),
    {
        let now = now_timestamp();
        let r = self.query_at(args, now);
        assert(is_query_result(r, *args, now as int));
        r
    }
}

// ---------------------------------------------------------------- control_device

/// The `control_device` tool.
pub struct ControlDeviceTool {
    manager: Arc<MockDeviceManager>,
}

impl ControlDeviceTool {
    /// The tool over the given device manager.
    pub fn new(manager: Arc<MockDeviceManager>) -> (t: Self) {
        ControlDeviceTool { manager }
    }

    /// The tool over a mock device manager.
    pub fn mock() -> (t: Self) {
        ControlDeviceTool::new(Arc::new(MockDeviceManager))
    }

    /// The name under which the model calls the tool.
    pub fn name(&self) -> (s: &'static str)
        ensures
            s@ == "control_device"@,
    {
        "control_device"
    }

    /// What the tool does, for the model.
    pub fn description(&self) -> (s: &'static str)
        ensures
            s@ == "Control a device by sending commands. Use this to change device settings, trigger actions, or modify device behavior."@,
    {
        "Control a device by sending commands. Use this to change device settings, trigger actions, or modify device behavior."
    }

    /// The schema of the arguments.
    pub fn parameters(&self) -> (j: Json)
        ensures
            requires_names(j, seq!["device_id"@, "command"@]),
    {
        let mut props: Vec<(String, Json)> = Vec::new();
        props.push((owned("device_id"), string_property("The ID of the device to control")));
        props.push((owned("command"), string_property("The command to execute (e.g., 'set_value', 'turn_on', 'turn_off')")));
        props.push((owned("parameters"), array_property("object", "Optional parameters for the command. Each item should be an object with 'key' and 'value'.")));
        let required = names(&["device_id", "command"]);
        assert(required@.map_values(|s: String| s@) =~= seq!["device_id"@, "command"@]);
        object_schema(Json::Object(props), required)
    }

    /// Sends a command to a device; both must be given as strings. The
    /// answer is the device manager's reply.
    pub fn run(&self, args: &Json) -> (r: Result<ToolOutput, ToolError>)
        ensures
            match args_error(seq!["device_id"@, "command"@], *args) {
                Some(m) => invalid(r, m),
                None => match args.text_at("device_id"@) {
                    None => invalid(r, "device_id must be a string"@),
                    Some(d) => match args.text_at("command"@) {
                        None => invalid(r, "command must be a string"@),
                        Some(c) => r matches Ok(o) && o.success && o.error is None && o.metadata is None
                            && is_command_reply(o.data, d, c),
                    },
                },
            },
    {
        let schema = self.parameters();
        let ghost want = seq!["device_id"@, "command"@];
        match check_required(&schema, Ghost(want), args) {
            Ok(()) => {},
            Err(e) => return Err(e),
        }
        let device_id = match args.str_at("device_id") {
            Some(d) => d,
            None => return Err(ToolError::InvalidArguments(owned("device_id must be a string"))),
        };
        let command = match args.str_at("command") {
            Some(c) => c,
            None => return Err(ToolError::InvalidArguments(owned("command must be a string"))),
        };
        let parameters = match args.get("parameters") {
            Some(p) => p.copy(),
            None => Json::Null,
        };
        match self.manager.write_command(device_id.as_str(), command.as_str(), parameters) {
            Ok(reply) => Ok(ToolOutput::success(reply)),
            Err(e) => Err(ToolError::Execution(e.message())),
        }
    }
}

// ---------------------------------------------------------------- list_devices

/// A listed device: id, name, type and status, and the metrics it reports.
pub type DeviceEntry = ((Seq<char>, Seq<char>, Seq<char>, Seq<char>), Seq<Seq<char>>);

/// The mock devices with the metrics each reports.
pub open spec fn device_entries() -> Seq<DeviceEntry> {
    seq![(mock_devices()[0], mock_summaries()[0]), (mock_devices()[1], mock_summaries()[1])]
}

/// Whether a device passes the type and status filters given.
pub open spec fn device_passes(e: DeviceEntry, filter_type: Option<Seq<char>>, filter_status: Option<Seq<char>>) -> bool {
    (filter_type matches Some(t) ==> e.0.2 == t) && (filter_status matches Some(s) ==> e.0.3 == s)
}

/// The devices that pass the filters, in order.
pub open spec fn kept_devices(es: Seq<DeviceEntry>, filter_type: Option<Seq<char>>, filter_status: Option<Seq<char>>) -> Seq<DeviceEntry>
    decreases es.len(),
{
    if es.len() == 0 {
        Seq::empty()
    } else {
        let before = kept_devices(es.drop_last(), filter_type, filter_status);
        if device_passes(es.last(), filter_type, filter_status) { before.push(es.last()) } else { before }
    }
}

/// A device as JSON: id, name, type, status and its metrics.
pub open spec fn is_device_json(j: Json, e: DeviceEntry) -> bool {
    j matches Json::Object(o) && o@.len() == 5 && has_text(o@, 0, "id"@, e.0.0) && has_text(o@, 1, "name"@, e.0.1)
        && has_text(o@, 2, "device_type"@, e.0.2) && has_text(o@, 3, "status"@, e.0.3)
        && o@[4].0@ == "metrics_summary"@ && (o@[4].1 matches Json::Array(ms) && ms@.len() == e.1.len()
            && forall|i: int| 0 <= i < ms@.len() ==> (#[trigger] ms@[i]).text() == Some(e.1[i]))
}

/// Whether a member is given and is not null.
pub open spec fn given(args: Json, key: Seq<char>) -> bool {
    args.member(key) matches Some(v) && !(v is Null)
}

fn device_json(d: &DeviceInfo, summary: &Vec<String>) -> (j: Json)
    ensures
        is_device_json(j, (device_view(*d), texts(summary@))),
{
    let mut ms: Vec<Json> = Vec::new();
    let mut i: usize = 0;
    while i < summary.len()
        invariant
            i <= summary@.len(),
            ms@.len() == i,
            forall|k: int| 0 <= k < i ==> (#[trigger] ms@[k]).text() == Some(summary@[k]@),
        decreases summary@.len() - i,
    {
        ms.push(Json::Str(owned(summary[i].as_str())));
        i = i + 1;
    }
    let mut o: Vec<(String, Json)> = Vec::new();
    o.push(text_member("id", d.id.as_str()));
    o.push(text_member("name", d.name.as_str()));
    o.push(text_member("device_type", d.device_type.as_str()));
    o.push(text_member("status", d.status.as_str()));
    o.push((owned("metrics_summary"), Json::Array(ms)));
    Json::Object(o)
}

/// The `list_devices` tool.
pub struct ListDevicesTool {
    manager: Arc<MockDeviceManager>,
}

impl ListDevicesTool {
    /// The tool over the given device manager.
    pub fn new(manager: Arc<MockDeviceManager>) -> (t: Self) {
        ListDevicesTool { manager }
    }

    /// The tool over a mock device manager.
    pub fn mock() -> (t: Self) {
        ListDevicesTool::new(Arc::new(MockDeviceManager))
    }

    /// The name under which the model calls the tool.
    pub fn name(&self) -> (s: &'static str)
        ensures
            s@ == "list_devices"@,
    {
        "list_devices"
    }

    /// What the tool does, for the model.
    pub fn description(&self) -> (s: &'static str)
        ensures
            s@ == "列出所有可用设备及其信息，包括状态、设备类型和可用的指标摘要。"@,
    {
        "列出所有可用设备及其信息，包括状态、设备类型和可用的指标摘要。"
    }

    /// The schema of the arguments: two optional filters.
    pub fn parameters(&self) -> (j: Json)
        ensures
            requires_names(j, Seq::empty()),
    {
        let mut props: Vec<(String, Json)> = Vec::new();
        props.push((owned("filter_type"), string_property("Optional filter by device type (e.g., 'sensor', 'actuator')")));
        props.push((owned("filter_status"), string_property("Optional filter by status (e.g., 'online', 'offline')")));
        let required: Vec<String> = Vec::new();
        assert(required@.map_values(|s: String| s@) =~= Seq::<Seq<char>>::empty());
        object_schema(Json::Object(props), required)
    }

    /// The devices of the given type and status (each filter when given as a
    /// string), their number, and whether a filter was given.
    pub fn run(&self, args: &Json) -> (r: Result<ToolOutput, ToolError>)
        ensures
            ({
                let kept = kept_devices(device_entries(), args.text_at("filter_type"@), args.text_at("filter_status"@));
                r matches Ok(o) && o.success && o.error is None
                    && (o.data matches Json::Object(d) && d@.len() == 2
                        && d@[0].0@ == "count"@ && is_count(d@[0].1, kept.len())
                        && d@[1].0@ == "devices"@ && (d@[1].1 matches Json::Array(ds) && ds@.len() == kept.len()
                            && forall|i: int| 0 <= i < kept.len() ==> is_device_json(#[trigger] ds@[i], kept[i])))
                    && (o.metadata matches Some(Json::Object(m)) && m@.len() == 1
                        && has_value(m@, 0, "filtered"@, Json::Bool(given(*args, "filter_type"@) || given(*args, "filter_status"@))))
            }),
    {
        let devices = self.manager.get_devices();
        let filter_type = match args.str_at("filter_type") {
            Some(t) => Some(t.as_str()),
            None => None,
        };
        let filter_status = match args.str_at("filter_status") {
            Some(s) => Some(s.as_str()),
            None => None,
        };
        let ghost ft = args.text_at("filter_type"@);
        let ghost fs = args.text_at("filter_status"@);
        let ghost es = device_entries();
        assert(devices@.len() == 2);
        assert(devices@.map_values(|d: DeviceInfo| device_view(d))[0] == device_view(devices@[0]));
        assert(devices@.map_values(|d: DeviceInfo| device_view(d))[1] == device_view(devices@[1]));
        assert forall|k: int| 0 <= k < devices@.len() implies (#[trigger] es[k]).0 == device_view(devices@[k])
            && (devices@[k].metrics_summary matches Some(v) && texts(v@) == es[k].1) by {
            assert(devices@.map_values(|d: DeviceInfo| device_view(d))[k] == device_view(devices@[k]));
        }
        let mut listed: Vec<Json> = Vec::new();
        let ghost mut kept: Seq<DeviceEntry> = Seq::empty();
        let mut i: usize = 0;
        while i < devices.len()
            invariant
                i <= devices@.len(),
                devices@.len() == es.len(),
                es == device_entries(),
                forall|k: int| 0 <= k < devices@.len() ==> (#[trigger] es[k]).0 == device_view(devices@[k])
                    && (devices@[k].metrics_summary matches Some(v) && texts(v@) == es[k].1),
                ft == match filter_type { Some(t) => Some(t@), None => None::<Seq<char>> },
                fs == match filter_status { Some(s) => Some(s@), None => None::<Seq<char>> },
                kept == kept_devices(es.subrange(0, i as int), ft, fs),
                listed@.len() == kept.len(),
                forall|k: int| 0 <= k < kept.len() ==> is_device_json(#[trigger] listed@[k], kept[k]),
            decreases devices@.len() - i,
        {
            proof {
                assert(es.subrange(0, i + 1).drop_last() =~= es.subrange(0, i as int));
                assert(es.subrange(0, i + 1).last() == es[i as int]);
            }
            let d = &devices[i];
            let type_ok = match filter_type {
                Some(t) => same_text(d.device_type.as_str(), t),
                None => true,
            };
            let status_ok = match filter_status {
                Some(s) => same_text(d.status.as_str(), s),
                None => true,
            };
            if type_ok && status_ok {
                match &d.metrics_summary {
                    Some(summary) => {
                        let j = device_json(d, summary);
                        listed.push(j);
                    },
                    None => {},
                }
                proof {
                    kept = kept.push(es[i as int]);
                }
            }
            i = i + 1;
        }
        assert(es.subrange(0, es.len() as int) =~= es);
        let filtered = match args.get("filter_type") {
            Some(Json::Null) => false,
            Some(_) => true,
            None => false,
        } || match args.get("filter_status") {
            Some(Json::Null) => false,
            Some(_) => true,
            None => false,
        };
        let mut d: Vec<(String, Json)> = Vec::new();
        d.push((owned("count"), count(listed.len())));
        d.push((owned("devices"), Json::Array(listed)));
        let mut meta: Vec<(String, Json)> = Vec::new();
        meta.push((owned("filtered"), Json::Bool(filtered)));
        Ok(ToolOutput::success_with_metadata(Json::Object(d), Json::Object(meta)))
    }
}

// ---------------------------------------------------------------- rules

/// A listed rule: id, name, whether it is enabled, how often it fired.
pub type RuleEntry = (Seq<char>, Seq<char>, bool, int);

/// The rules of the mock engine.
pub open spec fn rule_entries() -> Seq<RuleEntry> {
    seq![("rule_1"@, "High Temperature Alert"@, true, 5int)]
}

/// The rules kept: the enabled ones when only those are asked for.
pub open spec fn kept_rules(rs: Seq<RuleEntry>, only_enabled: bool) -> Seq<RuleEntry>
    decreases rs.len(),
{
    if rs.len() == 0 {
        Seq::empty()
    } else {
        let before = kept_rules(rs.drop_last(), only_enabled);
        if !only_enabled || rs.last().2 { before.push(rs.last()) } else { before }
    }
}

/// A rule as JSON: id, name, whether enabled, how often it fired.
pub open spec fn is_rule_json(j: Json, e: RuleEntry) -> bool {
    j matches Json::Object(o) && o@.len() == 4 && has_text(o@, 0, "id"@, e.0) && has_text(o@, 1, "name"@, e.1)
        && has_value(o@, 2, "enabled"@, Json::Bool(e.2)) && o@[3].0@ == "trigger_count"@ && is_count(o@[3].1, e.3 as nat)
}

/// The `list_rules` tool.
pub struct ListRulesTool {
    engine: Arc<MockRuleEngine>,
}

impl ListRulesTool {
    /// The tool over the given rule engine.
    pub fn new(engine: Arc<MockRuleEngine>) -> (t: Self) {
        ListRulesTool { engine }
    }

    /// The tool over a mock rule engine.
    pub fn mock() -> (t: Self) {
        ListRulesTool::new(Arc::new(MockRuleEngine))
    }

    /// The name under which the model calls the tool.
    pub fn name(&self) -> (s: &'static str)
        ensures
            s@ == "list_rules"@,
    {
        "list_rules"
    }

    /// What the tool does, for the model.
    pub fn description(&self) -> (s: &'static str)
        ensures
            s@ == "List all automation rules with their status and information."@,
    {
        "List all automation rules with their status and information."
    }

    /// The schema of the arguments: one optional filter.
    pub fn parameters(&self) -> (j: Json)
        ensures
            requires_names(j, Seq::empty()),
    {
        let mut props: Vec<(String, Json)> = Vec::new();
        props.push((owned("filter_enabled"), boolean_property("Optional filter to only show enabled rules")));
        let required: Vec<String> = Vec::new();
        assert(required@.map_values(|s: String| s@) =~= Seq::<Seq<char>>::empty());
        object_schema(Json::Object(props), required)
    }

    /// The rules, only the enabled ones when `filter_enabled` is true, and
    /// their number.
    pub fn run(&self, args: &Json) -> (r: Result<ToolOutput, ToolError>)
        ensures
            ({
                let kept = kept_rules(rule_entries(), args.bool_at("filter_enabled"@) == Some(true));
                r matches Ok(o) && o.success && o.error is None && o.metadata is None
                    && (o.data matches Json::Object(d) && d@.len() == 2
                        && d@[0].0@ == "count"@ && is_count(d@[0].1, kept.len())
                        && d@[1].0@ == "rules"@ && (d@[1].1 matches Json::Array(rs) && rs@.len() == kept.len()
                            && forall|i: int| 0 <= i < kept.len() ==> is_rule_json(#[trigger] rs@[i], kept[i])))
            }),
    {
        let rules = self.engine.list_rules();
        let only_enabled = match args.bool_at_key("filter_enabled") {
            Some(b) => b,
            None => false,
        };
        let ghost es = rule_entries();
        assert(es.len() == rules@.len());
        assert((es[0].0, es[0].1, es[0].2, es[0].3) == (rules@[0].id@, rules@[0].name@, rules@[0].enabled, rules@[0].trigger_count as int));
        let mut listed: Vec<Json> = Vec::new();
        let ghost mut kept: Seq<RuleEntry> = Seq::empty();
        let mut i: usize = 0;
        while i < rules.len()
            invariant
                i <= rules@.len(),
                rules@.len() == es.len(),
                es == rule_entries(),
                forall|k: int| 0 <= k < rules@.len() ==> (#[trigger] es[k]) == (rules@[k].id@, rules@[k].name@, rules@[k].enabled, rules@[k].trigger_count as int),
                only_enabled == (args.bool_at("filter_enabled"@) == Some(true)),
                kept == kept_rules(es.subrange(0, i as int), only_enabled),
                listed@.len() == kept.len(),
                forall|k: int| 0 <= k < kept.len() ==> is_rule_json(#[trigger] listed@[k], kept[k]),
            decreases rules@.len() - i,
        {
            proof {
                assert(es.subrange(0, i + 1).drop_last() =~= es.subrange(0, i as int));
                assert(es.subrange(0, i + 1).last() == es[i as int]);
            }
            let rule = &rules[i];
            if !only_enabled || rule.enabled {
                let mut o: Vec<(String, Json)> = Vec::new();
                o.push(text_member("id", rule.id.as_str()));
                o.push(text_member("name", rule.name.as_str()));
                o.push((owned("enabled"), Json::Bool(rule.enabled)));
                o.push((owned("trigger_count"), unsigned_number(rule.trigger_count)));
                listed.push(Json::Object(o));
                proof {
                    kept = kept.push(es[i as int]);
                }
            }
            i = i + 1;
        }
        assert(es.subrange(0, es.len() as int) =~= es);
        let mut d: Vec<(String, Json)> = Vec::new();
        d.push((owned("count"), count(listed.len())));
        d.push((owned("rules"), Json::Array(listed)));
        Ok(ToolOutput::success(Json::Object(d)))
    }
}

/// The `create_rule` tool.
pub struct CreateRuleTool {
    engine: Arc<MockRuleEngine>,
}

impl CreateRuleTool {
    /// The tool over the given rule engine.
    pub fn new(engine: Arc<MockRuleEngine>) -> (t: Self) {
        CreateRuleTool { engine }
    }

    /// The tool over a mock rule engine.
    pub fn mock() -> (t: Self) {
        CreateRuleTool::new(Arc::new(MockRuleEngine))
    }

    /// The name under which the model calls the tool.
    pub fn name(&self) -> (s: &'static str)
        ensures
            s@ == "create_rule"@,
    {
        "create_rule"
    }

    /// What the tool does, for the model.
    pub fn description(&self) -> (s: &'static str)
        ensures
            s@ == "创建自动化规则。**重要**: 创建规则前应先调用 get_device_metrics 了解设备有哪些可用指标。使用简单的 DSL 语法定义规则。"@,
    {
        "创建自动化规则。**重要**: 创建规则前应先调用 get_device_metrics 了解设备有哪些可用指标。使用简单的 DSL 语法定义规则。"
    }

    /// The category of the tool.
    pub fn category(&self) -> (c: ToolCategory)
        ensures
            c == ToolCategory::Rule,
    {
        ToolCategory::Rule
    }

    /// The schema of the arguments.
    pub fn parameters(&self) -> (j: Json)
        ensures
            requires_names(j, seq!["name"@, "dsl"@]),
    {
        let mut props: Vec<(String, Json)> = Vec::new();
        props.push((owned("name"), string_property("规则名称")));
        props.push((owned("description"), string_property("规则描述（可选）")));
        props.push((owned("dsl"), string_property("规则定义的 DSL 语法。完整格式:\nRULE \"规则名\" \nWHEN device.metric operator value \n[FOR duration] \nDO \naction1 \naction2 \nEND \n\n比较运算符: >, <, >=, <=, ==, != \n持续时间: FOR X seconds/minutes/hours (可选) \n\n支持的动作: \n- NOTIFY \"消息\" - 发送通知，可用 $\x7bmetric\x7d 引用变量 \n- EXECUTE device.command(param=value,...) - 执行设备命令 \n- LOG level [severity=\"...\"] - 记录日志，level: alert/info/warning/error \n\n示例: \nRULE \"高温告警\" \nWHEN sensor.temperature > 50 \nFOR 5 minutes \nDO \nNOTIFY \"温度过高: $\x7btemperature\x7d°C\" \nEXECUTE fan.device(speed=100) \nLOG alert, severity=\"high\" \nEND")));
        let required = names(&["name", "dsl"]);
        assert(required@.map_values(|s: String| s@) =~= seq!["name"@, "dsl"@]);
        object_schema(Json::Object(props), required)
    }

    /// Creates a rule from its name and text, both given as strings: the
    /// answer holds the new rule's id (`rule_` and a random UUID), its name
    /// and that it was created.
    pub fn run(&self, args: &Json) -> (r: Result<ToolOutput, ToolError>)
        ensures
            match args_error(seq!["name"@, "dsl"@], *args) {
                Some(m) => invalid(r, m),
                None => match args.text_at("name"@) {
                    None => invalid(r, "name must be a string"@),
                    Some(n) => match args.text_at("dsl"@) {
                        None => invalid(r, "dsl must be a string"@),
                        Some(_) => r matches Ok(o) && o.success && o.error is None && o.metadata is None
                            && (o.data matches Json::Object(d) && d@.len() == 3
                                && d@[0].0@ == "rule_id"@ && (d@[0].1.text() matches Some(id)
                                    && id.len() == 41 && id.subrange(0, 5) == "rule_"@)
                                && has_text(d@, 1, "name"@, n) && has_text(d@, 2, "status"@, "created"@)),
                    },
                },
            },
    {
        let schema = self.parameters();
        let ghost want = seq!["name"@, "dsl"@];
        match check_required(&schema, Ghost(want), args) {
            Ok(()) => {},
            Err(e) => return Err(e),
        }
        let name = match args.str_at("name") {
            Some(n) => n,
            None => return Err(ToolError::InvalidArguments(owned("name must be a string"))),
        };
        let dsl = match args.str_at("dsl") {
            Some(t) => t,
            None => return Err(ToolError::InvalidArguments(owned("dsl must be a string"))),
        };
        let rule_id = match self.engine.create_rule(name.as_str(), dsl.as_str()) {
            Ok(id) => id,
            Err(e) => return Err(ToolError::Execution(e.message())),
        };
        let mut d: Vec<(String, Json)> = Vec::new();
        d.push(text_member("rule_id", rule_id.as_str()));
        d.push(text_member("name", name.as_str()));
        d.push(text_member("status", "created"));
        Ok(ToolOutput::success(Json::Object(d)))
    }
}

} // verus!
