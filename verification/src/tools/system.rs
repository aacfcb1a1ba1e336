//! System tools: information about the system, restarting services, alerts
//! and exports.
use vstd::prelude::*;
use std::sync::Arc;
use crate::json::{has_text, has_value, member, same, str_member, Json};
use crate::json_write::{json_text, pretty_text, to_json_text, to_pretty_text};
use crate::clock::{now_seconds, today_date};
use crate::text::{cat3, i64_text, milli_display, milli_display_string, owned, same_text, signed_decimal};
use crate::tools::builtin::{count, is_count, unsigned_number};
use crate::tools::error::ToolError;
use crate::tools::tool::ToolOutput;
use crate::workflow::templates::texts;

verus! {

/// How long the system has been up, in seconds: a fixed day.
pub fn get_system_uptime() -> (s: u64)
    ensures
        s == 86400,
{
    86400
}

/// The services reported in detailed system information.
pub open spec fn service_names() -> Seq<Seq<char>> {
    seq!["device_service"@, "rule_engine"@, "transform_engine"@, "alert_service"@, "api_server"@]
}

/// The status of each service: all running for a day.
pub fn get_service_status() -> (r: Vec<Json>)
    ensures
        r@.len() == service_names().len(),
        forall|i: int| 0 <= i < r@.len() ==> (#[trigger] r@[i] matches Json::Object(o) && o@.len() == 3
            && has_text(o@, 0, "name"@, service_names()[i]) && has_text(o@, 1, "status"@, "running"@)
            && has_value(o@, 2, "uptime"@, Json::Int(86400))),
{
    let mut names: Vec<&str> = Vec::new();
    names.push("device_service");
    names.push("rule_engine");
    names.push("transform_engine");
    names.push("alert_service");
    names.push("api_server");
    assert(names@.map_values(|s: &str| s@) =~= service_names());
    let mut r: Vec<Json> = Vec::new();
    let mut i: usize = 0;
    while i < names.len()
        invariant
            i <= names@.len(),
            names@.map_values(|s: &str| s@) == service_names(),
            r@.len() == i,
            forall|k: int| 0 <= k < i ==> (#[trigger] r@[k] matches Json::Object(o) && o@.len() == 3
                && has_text(o@, 0, "name"@, service_names()[k]) && has_text(o@, 1, "status"@, "running"@)
                && has_value(o@, 2, "uptime"@, Json::Int(86400))),
        decreases names@.len() - i,
    {
        assert(names@.map_values(|s: &str| s@)[i as int] == names@[i as int]@);
        let mut o: Vec<(String, Json)> = Vec::new();
        o.push((owned("name"), Json::Str(owned(names[i]))));
        o.push((owned("status"), Json::Str(owned("running"))));
        o.push((owned("uptime"), Json::Int(86400)));
        r.push(Json::Object(o));
        i = i + 1;
    }
    r
}

/// Reports on the system under an optional name.
pub struct SystemInfoTool {
    system_name: Option<String>,
}

impl SystemInfoTool {
    /// A tool without a system name.
    pub fn new() -> (t: Self)
        ensures
            t.name_view() is None,
    {
        SystemInfoTool { system_name: None }
    }

    /// A tool for the named system.
    pub fn with_name(name: &str) -> (t: Self)
        ensures
            t.name_view() == Some(name@),
    {
        SystemInfoTool { system_name: Some(owned(name)) }
    }

    /// The system's name, if it has one.
    pub closed spec fn name_view(&self) -> Option<Seq<char>> {
        match self.system_name {
            Some(n) => Some(n@),
            None => None,
        }
    }

    /// The name reported: the system's, or `NeoTalk-Edge`.
    pub fn system_name(&self) -> (s: &str)
        ensures
            s@ == match self.name_view() {
                Some(n) => n,
                None => "NeoTalk-Edge"@,
            },
    {
        match &self.system_name {
            Some(n) => n.as_str(),
            None => "NeoTalk-Edge",
        }
    }
}

/// A tool without a system name.
impl Default for SystemInfoTool {
    fn default() -> (t: Self)
        ensures
            t.name_view() is None,
    {
        Self::new()
    }
}

/// Restarts services from a list of those allowed.
pub struct ServiceRestartTool {
    allowed_services: Vec<String>,
}

/// What a restart request comes to: refused with the tool's answer, or a
/// restart of the service, waiting for it or not.
pub enum RestartPlan {
    Refused(ToolOutput),
    Restart { service: String, wait: bool },
}

impl ServiceRestartTool {
    /// The default services: devices, rules, transforms and alerts.
    pub fn new() -> (t: Self)
        ensures
            t.allowed() == seq!["device_service"@, "rule_engine"@, "transform_engine"@, "alert_service"@],
    {
        let mut v: Vec<String> = Vec::new();
        v.push(owned("device_service"));
        v.push(owned("rule_engine"));
        v.push(owned("transform_engine"));
        v.push(owned("alert_service"));
        let t = ServiceRestartTool { allowed_services: v };
        assert(t.allowed() =~= seq!["device_service"@, "rule_engine"@, "transform_engine"@, "alert_service"@]);
        t
    }

    /// The given services.
    pub fn with_allowed_services(services: Vec<String>) -> (t: Self)
        ensures
            t.allowed() == texts(services@),
    {
        ServiceRestartTool { allowed_services: services }
    }

    /// The name under which the model calls the tool.
    pub fn name(&self) -> (s: &'static str)
        ensures
            s@ == "service_restart"@,
    {
        "service_restart"
    }

    /// The services that may be restarted.
    pub closed spec fn allowed(&self) -> Seq<Seq<char>> {
        texts(self.allowed_services@)
    }

    /// Decides a restart request: the service must be named; a service that is
    /// not allowed is refused with a failure that lists the allowed ones;
    /// otherwise it is restarted, waiting when asked.
    pub fn plan_restart(&self, args: &Json) -> (r: Result<RestartPlan, ToolError>)
        ensures
            match args.text_at("service"@) {
                None => r matches Err(ToolError::InvalidArguments(m)) && m@ == "service is required"@,
                Some(s) => if self.allowed().contains(s) {
                    r matches Ok(RestartPlan::Restart { service, wait }) && service@ == s
                        && wait == (args.bool_at("wait"@) == Some(true))
                } else {
                    r matches Ok(RestartPlan::Refused(o)) && !o.success
                        && (o.error matches Some(e) && e@ == "Service '"@ + s + "' is not allowed for restart"@)
                        && (o.metadata matches Some(meta) && same(o.data, meta) && (meta matches Json::Object(m)
                            && m@.len() == 1 && m@[0].0@ == "allowed_services"@ && (m@[0].1 matches Json::Array(a)
                                && a@.len() == self.allowed().len()
                                && forall|i: int| 0 <= i < a@.len() ==> #[trigger] a@[i].text() == Some(self.allowed()[i]))))
                },
            },
    {
        let service = match args.str_at("service") {
            Some(s) => s,
            None => return Err(ToolError::InvalidArguments(owned("service is required"))),
        };
        let mut i: usize = 0;
        while i < self.allowed_services.len()
            invariant
                i <= self.allowed_services@.len(),
                args.text_at("service"@) == Some(service@),
                forall|k: int| 0 <= k < i ==> #[trigger] self.allowed()[k] != service@,
            decreases self.allowed_services@.len() - i,
        {
            assert(self.allowed()[i as int] == self.allowed_services@[i as int]@);
            if same_text(self.allowed_services[i].as_str(), service.as_str()) {
                let wait = match args.bool_at_key("wait") {
                    Some(b) => b,
                    None => false,
                };
                assert(self.allowed().contains(service@));
                return Ok(RestartPlan::Restart { service: owned(service.as_str()), wait });
            }
            i = i + 1;
        }
        let mut list: Vec<Json> = Vec::new();
        let mut j: usize = 0;
        while j < self.allowed_services.len()
            invariant
                j <= self.allowed_services@.len(),
                list@.len() == j,
                forall|k: int| 0 <= k < j ==> #[trigger] list@[k].text() == Some(self.allowed()[k]),
            decreases self.allowed_services@.len() - j,
        {
            list.push(Json::Str(owned(self.allowed_services[j].as_str())));
            j = j + 1;
        }
        let mut m: Vec<(String, Json)> = Vec::new();
        m.push((owned("allowed_services"), Json::Array(list)));
        let message = cat3("Service '", service.as_str(), "' is not allowed for restart");
        Ok(RestartPlan::Refused(ToolOutput::error_with_metadata(message.as_str(), Json::Object(m))))
    }

    /// The answer after a restart: the service, that it restarted, how long
    /// it took and when.
    pub fn restarted(service: &str, duration_ms: u64, timestamp: u64) -> (o: ToolOutput)
        ensures
            o.success && o.error is None && o.metadata is None
                && (o.data matches Json::Object(d) && d@.len() == 4 && has_text(d@, 0, "service"@, service@)
                    && has_text(d@, 1, "status"@, "restarted"@)
                    && d@[2].0@ == "duration_ms"@ && is_count(d@[2].1, duration_ms as nat)
                    && d@[3].0@ == "timestamp"@ && is_count(d@[3].1, timestamp as nat)),
    {
        let mut d: Vec<(String, Json)> = Vec::new();
        d.push((owned("service"), Json::Str(owned(service))));
        d.push((owned("status"), Json::Str(owned("restarted"))));
        d.push((owned("duration_ms"), unsigned_number(duration_ms)));
        d.push((owned("timestamp"), unsigned_number(timestamp)));
        ToolOutput::success(Json::Object(d))
    }
}

/// The default services.
impl Default for ServiceRestartTool {
    fn default() -> (t: Self)
        ensures
            t.allowed() == seq!["device_service"@, "rule_engine"@, "transform_engine"@, "alert_service"@],
    {
        Self::new()
    }
}

/// How serious an alert is.
#[derive(Clone, Copy, Debug, PartialEq, Eq, Structural)]
pub enum AlertSeverity {
    Info,
    Warning,
    Error,
    Critical,
}

/// The lower-case name of a severity.
pub open spec fn severity_name(s: AlertSeverity) -> Seq<char> {
    match s {
        AlertSeverity::Info => "info"@,
        AlertSeverity::Warning => "warning"@,
        AlertSeverity::Error => "error"@,
        AlertSeverity::Critical => "critical"@,
    }
}

impl AlertSeverity {
    /// The lower-case name of the severity.
    pub fn as_str(&self) -> (s: &'static str)
        ensures
            s@ == severity_name(*self),
    {
        match self {
            AlertSeverity::Info => "info",
            AlertSeverity::Warning => "warning",
            AlertSeverity::Error => "error",
            AlertSeverity::Critical => "critical",
        }
    }
}

/// An alert raised in the system.
pub struct AlertInfo {
    pub id: String,
    pub title: String,
    pub message: String,
    pub severity: AlertSeverity,
    pub created_at: i64,
    pub acknowledged: bool,
    pub acknowledged_by: Option<String>,
    pub acknowledged_at: Option<i64>,
}

/// Exports readings as CSV.
pub struct ExportToCsvTool {
    storage: Arc<()>,
}

impl ExportToCsvTool {
    /// A tool over an empty store.
    pub fn new() -> (t: Self) {
        ExportToCsvTool { storage: Arc::new(()) }
    }

    /// The name under which the model calls the tool.
    pub fn name(&self) -> (s: &'static str)
        ensures
            s@ == "export_to_csv"@,
    {
        "export_to_csv"
    }

    /// The points as CSV: a header line, then one line per point.
    pub fn generate_csv(&self, data: &[DataPointExport]) -> (csv: String)
        ensures
            csv@ == "timestamp,device_id,metric,value\n"@ + csv_lines(data@.map_values(|p: DataPointExport| point_view(p))),
    {
        let mut csv = owned("timestamp,device_id,metric,value\n");
        let ghost head = csv@;
        let mut i: usize = 0;
        while i < data.len()
            invariant
                i <= data@.len(),
                head == "timestamp,device_id,metric,value\n"@,
                csv@ == head + csv_lines(data@.subrange(0, i as int).map_values(|p: DataPointExport| point_view(p))),
            decreases data@.len() - i,
        {
            assert(data@.subrange(0, i + 1).map_values(|p: DataPointExport| point_view(p)).drop_last()
                =~= data@.subrange(0, i as int).map_values(|p: DataPointExport| point_view(p)));
            let p = &data[i];
            csv.append(i64_text(p.timestamp).as_str());
            csv.append(",");
            csv.append(p.device_id.as_str());
            csv.append(",");
            csv.append(p.metric.as_str());
            csv.append(",");
            csv.append(milli_display_string(p.value_milli).as_str());
            csv.append("\n");
            i = i + 1;
        }
        assert(data@.subrange(0, i as int) =~= data@);
        csv
    }

    /// Sample data of the asked type as CSV, with its number of lines
    /// (header included); the data type is required.
    pub fn execute(&self, args: &Json) -> (r: Result<ToolOutput, ToolError>)
        ensures
            match args.text_at("data_type"@) {
                None => r matches Err(ToolError::InvalidArguments(m)) && m@ == "data_type is required"@,
                Some(t) => {
                    let rows = export_rows(t, args.text_at("device_id"@), args.text_at("metric"@));
                    r matches Ok(o) && o.success && o.error is None && o.metadata is None
                        && (o.data matches Json::Object(d) && d@.len() == 3 && has_text(d@, 0, "format"@, "csv"@)
                            && d@[1].0@ == "rows"@ && is_count(d@[1].1, rows.len() + 1)
                            && has_text(d@, 2, "data"@, "timestamp,device_id,metric,value\n"@ + csv_lines(rows)))
                },
            },
    {
        let data_type = match args.str_at("data_type") {
            Some(t) => t,
            None => {
                return Err(ToolError::InvalidArguments(owned("data_type is required")));
            },
        };
        let mut rows: Vec<DataPointExport> = Vec::new();
        if same_text(data_type.as_str(), "device_data") {
            let device: &str = match args.str_at("device_id") {
                Some(d) => d.as_str(),
                None => "sensor_1",
            };
            let metric: &str = match args.str_at("metric") {
                Some(m) => m.as_str(),
                None => "temperature",
            };
            rows.push(export_point(1735718400, device, metric, 22500));
            rows.push(export_point(1735722000, device, metric, 23100));
            rows.push(export_point(1735725600, device, metric, 22800));
        } else if same_text(data_type.as_str(), "rule_history") {
            rows.push(export_point(1735718400, "rule_1", "triggered", 1000));
            rows.push(export_point(1735722000, "rule_2", "triggered", 1000));
        } else {
            rows.push(export_point(1735718400, "sample", "value", 1000));
        }
        let ghost want = export_rows(data_type@, args.text_at("device_id"@), args.text_at("metric"@));
        assert(rows@.map_values(|p: DataPointExport| point_view(p)) =~= want);
        let csv = self.generate_csv(rows.as_slice());
        let mut d: Vec<(String, Json)> = Vec::new();
        d.push((owned("format"), Json::Str(owned("csv"))));
        d.push((owned("rows"), count(rows.len() + 1)));
        d.push((owned("data"), Json::Str(csv)));
        Ok(ToolOutput::success(Json::Object(d)))
    }
}

/// A point of exported data; its value is in thousandths.
pub struct DataPointExport {
    pub timestamp: i64,
    pub device_id: String,
    pub metric: String,
    pub value_milli: i64,
}

/// A point as its timestamp, device, metric and value in thousandths.
pub open spec fn point_view(p: DataPointExport) -> (int, Seq<char>, Seq<char>, int) {
    (p.timestamp as int, p.device_id@, p.metric@, p.value_milli as int)
}

/// The CSV lines of the points.
pub open spec fn csv_lines(data: Seq<(int, Seq<char>, Seq<char>, int)>) -> Seq<char>
    decreases data.len(),
{
    if data.len() == 0 {
        Seq::empty()
    } else {
        let p = data.last();
        csv_lines(data.drop_last()) + signed_decimal(p.0) + ","@ + p.1 + ","@ + p.2 + ","@ + milli_display(p.3) + "\n"@
    }
}

/// The sample points exported for a data type: three temperature readings
/// of the device (by default "sensor_1" and "temperature"), two rule
/// firings, or one sample.
pub open spec fn export_rows(data_type: Seq<char>, device: Option<Seq<char>>, metric: Option<Seq<char>>) -> Seq<(int, Seq<char>, Seq<char>, int)> {
    if data_type == "device_data"@ {
        let d = match device {
            Some(x) => x,
            None => "sensor_1"@,
        };
        let m = match metric {
            Some(x) => x,
            None => "temperature"@,
        };
        seq![(1735718400, d, m, 22500), (1735722000, d, m, 23100), (1735725600, d, m, 22800)]
    } else if data_type == "rule_history"@ {
        seq![(1735718400, "rule_1"@, "triggered"@, 1000), (1735722000, "rule_2"@, "triggered"@, 1000)]
    } else {
        seq![(1735718400, "sample"@, "value"@, 1000)]
    }
}

fn export_point(timestamp: i64, device_id: &str, metric: &str, value_milli: i64) -> (p: DataPointExport)
    ensures
        p.timestamp == timestamp,
        p.device_id@ == device_id@,
        p.metric@ == metric@,
        p.value_milli == value_milli,
{
    DataPointExport { timestamp, device_id: owned(device_id), metric: owned(metric), value_milli }
}

/// Whether `j` is a number with a fraction, written as `t`.
pub open spec fn is_real(j: Json, t: Seq<char>) -> bool {
    j matches Json::Real(s) && s@ == t
}

/// Whether member `i` has key `k` and holds the integer `v`.
pub open spec fn has_int(m: Seq<(String, Json)>, i: int, k: Seq<char>, v: int) -> bool {
    0 <= i < m.len() && m[i].0@ == k && (m[i].1 matches Json::Int(x) && x == v)
}

/// Whether member `i` has key `k` and holds the number written `t`.
pub open spec fn has_real(m: Seq<(String, Json)>, i: int, k: Seq<char>, t: Seq<char>) -> bool {
    0 <= i < m.len() && m[i].0@ == k && is_real(m[i].1, t)
}

/// Whether `j` is an object of integer members with these keys and values.
pub open spec fn is_int_object(j: Json, keys: Seq<Seq<char>>, vals: Seq<int>) -> bool {
    j matches Json::Object(m) && m@.len() == keys.len() && vals.len() == keys.len()
        && forall|i: int| 0 <= i < keys.len() ==> #[trigger] has_int(m@, i, keys[i], vals[i])
}

fn int_member(key: &str, v: i64) -> (m: (String, Json))
    ensures
        m.0@ == key@,
        m.1 == Json::Int(v),
{
    (owned(key), Json::Int(v))
}

fn real_member(key: &str, t: &str) -> (m: (String, Json))
    ensures
        m.0@ == key@,
        is_real(m.1, t@),
{
    (owned(key), Json::Real(owned(t)))
}

/// The status of one service: running for a day.
pub open spec fn is_service_entry(j: Json, name: Seq<char>) -> bool {
    j matches Json::Object(o) && o@.len() == 3 && has_text(o@, 0, "name"@, name)
        && has_text(o@, 1, "status"@, "running"@) && has_value(o@, 2, "uptime"@, Json::Int(86400))
}

/// Memory use: 8192 MB in all, half of it used.
pub open spec fn is_memory_usage(j: Json) -> bool {
    j matches Json::Object(m) && m@.len() == 4 && has_int(m@, 0, "total_mb"@, 8192) && has_int(m@, 1, "used_mb"@, 4096)
        && has_int(m@, 2, "free_mb"@, 4096) && has_real(m@, 3, "percent"@, "50.0"@)
}

/// Disk use: 100 GB in all, 45 of them used.
pub open spec fn is_disk_usage(j: Json) -> bool {
    j matches Json::Object(m) && m@.len() == 4 && has_int(m@, 0, "total_gb"@, 100) && has_int(m@, 1, "used_gb"@, 45)
        && has_int(m@, 2, "free_gb"@, 55) && has_real(m@, 3, "percent"@, "45.0"@)
}

/// The name a system is reported under.
pub open spec fn shown_name(n: Option<Seq<char>>) -> Seq<char> {
    match n {
        Some(x) => x,
        None => "NeoTalk-Edge"@,
    }
}

/// The system information at time `timestamp`: its name, a day of uptime,
/// processor, memory and disk use, the time, and, when `detailed`, the
/// status of each service.
pub open spec fn is_system_info(j: Json, name: Seq<char>, detailed: bool, timestamp: nat) -> bool {
    j matches Json::Object(m) && m@.len() == (if detailed { 7int } else { 6int })
        && has_text(m@, 0, "system_name"@, name) && has_int(m@, 1, "uptime"@, 86400)
        && has_real(m@, 2, "cpu_usage"@, "25.5"@)
        && m@[3].0@ == "memory_usage"@ && is_memory_usage(m@[3].1)
        && m@[4].0@ == "disk_usage"@ && is_disk_usage(m@[4].1)
        && m@[5].0@ == "timestamp"@ && is_count(m@[5].1, timestamp)
        && (detailed ==> m@[6].0@ == "service_status"@ && (m@[6].1 matches Json::Array(xs)
            && xs@.len() == service_names().len()
            && forall|i: int| 0 <= i < xs@.len() ==> is_service_entry(#[trigger] xs@[i], service_names()[i])))
}

/// Whether the arguments ask for detail (not unless they say so).
pub open spec fn detailed_of(args: Json) -> bool {
    match args.bool_at("detailed"@) {
        Some(b) => b,
        None => false,
    }
}

impl SystemInfoTool {
    /// The name under which the model calls the tool.
    pub fn name(&self) -> (s: &'static str)
        ensures
            s@ == "system_info"@,
    {
        "system_info"
    }

    /// The system information at time `timestamp` (seconds since the epoch).
    pub fn info(&self, detailed: bool, timestamp: u64) -> (o: ToolOutput)
        ensures
            o.success,
            o.error is None,
            o.metadata is None,
            is_system_info(o.data, shown_name(self.name_view()), detailed, timestamp as nat),
    {
        let mut memory: Vec<(String, Json)> = Vec::new();
        memory.push(int_member("total_mb", 8192));
        memory.push(int_member("used_mb", 4096));
        memory.push(int_member("free_mb", 4096));
        memory.push(real_member("percent", "50.0"));
        let mut disk: Vec<(String, Json)> = Vec::new();
        disk.push(int_member("total_gb", 100));
        disk.push(int_member("used_gb", 45));
        disk.push(int_member("free_gb", 55));
        disk.push(real_member("percent", "45.0"));
        let mut m: Vec<(String, Json)> = Vec::new();
        m.push(str_member("system_name", self.system_name()));
        m.push(int_member("uptime", get_system_uptime() as i64));
        m.push(real_member("cpu_usage", "25.5"));
        m.push(member("memory_usage", Json::Object(memory)));
        m.push(member("disk_usage", Json::Object(disk)));
        m.push(member("timestamp", unsigned_number(timestamp)));
        if detailed {
            let services = get_service_status();
            m.push(member("service_status", Json::Array(services)));
        }
        ToolOutput::success(Json::Object(m))
    }

    /// The system information now; the time reported is read from the clock.
    pub fn execute(&self, args: &Json) -> (o: ToolOutput)
        ensures
            o.success,
            o.error is None,
            o.metadata is None,
            exists|t: nat| is_system_info(o.data, shown_name(self.name_view()), detailed_of(*args), t),
    {
        let detailed = match args.bool_at_key("detailed") {
            Some(b) => b,
            None => false,
        };
        let now = now_seconds();
        let o = self.info(detailed, now);
        assert(is_system_info(o.data, shown_name(self.name_view()), detailed_of(*args), now as nat));
        o
    }
}

/// One rule as exported: its condition, that it is enabled, its id and name.
pub open spec fn is_rule_entry(j: Json, id: Seq<char>, name: Seq<char>, condition: Seq<char>) -> bool {
    j matches Json::Object(m) && m@.len() == 4 && has_text(m@, 0, "condition"@, condition)
        && has_value(m@, 1, "enabled"@, Json::Bool(true)) && has_text(m@, 2, "id"@, id) && has_text(m@, 3, "name"@, name)
}

/// One temperature reading as exported.
pub open spec fn is_reading_entry(j: Json, timestamp: int, value: Seq<char>) -> bool {
    j matches Json::Object(m) && m@.len() == 3 && has_text(m@, 0, "metric"@, "temperature"@)
        && has_int(m@, 1, "timestamp"@, timestamp) && has_real(m@, 2, "value"@, value)
}

/// The sample exported for a data type: two rules, two readings of the
/// device (by default "unknown"), one alert, or an error object. Members
/// stand in the order of their keys, as `serde_json` writes them.
pub open spec fn is_export_sample(d: Json, data_type: Seq<char>, device: Option<Seq<char>>) -> bool {
    if data_type == "rules"@ {
        d matches Json::Array(xs) && xs@.len() == 2
            && is_rule_entry(xs@[0], "rule_1"@, "高温告警"@, "temperature > 30"@)
            && is_rule_entry(xs@[1], "rule_2"@, "低湿提醒"@, "humidity < 30"@)
    } else if data_type == "device_data"@ {
        d matches Json::Object(m) && m@.len() == 2 && m@[0].0@ == "data"@
            && (m@[0].1 matches Json::Array(ps) && ps@.len() == 2
                && is_reading_entry(ps@[0], 1735718400, "22.5"@) && is_reading_entry(ps@[1], 1735722000, "23.1"@))
            && has_text(m@, 1, "device_id"@, match device { Some(x) => x, None => "unknown"@ })
    } else if data_type == "alerts"@ {
        d matches Json::Array(xs) && xs@.len() == 1 && (xs@[0] matches Json::Object(a) && a@.len() == 4
            && has_value(a@, 0, "acknowledged"@, Json::Bool(false)) && has_text(a@, 1, "id"@, "alert_1"@)
            && has_text(a@, 2, "severity"@, "warning"@) && has_text(a@, 3, "title"@, "温度过高"@))
    } else {
        d matches Json::Object(m) && m@.len() == 1 && has_text(m@, 0, "error"@, "Unknown data type"@)
    }
}

/// Whether `text` is the sample of a data type written as JSON: pretty
/// (from the start of a line) or compact.
pub open spec fn is_export_text(text: Seq<char>, data_type: Seq<char>, device: Option<Seq<char>>, pretty: bool) -> bool {
    exists|d: Json| #[trigger] is_export_sample(d, data_type, device)
        && text == if pretty { pretty_text(d, Seq::empty()) } else { json_text(d) }
}

/// Whether the arguments ask for pretty text (not unless they say so).
pub open spec fn pretty_of(args: Json) -> bool {
    match args.bool_at("pretty"@) {
        Some(b) => b,
        None => false,
    }
}

fn rule_entry(id: &str, name: &str, condition: &str) -> (j: Json)
    ensures
        is_rule_entry(j, id@, name@, condition@),
{
    let mut m: Vec<(String, Json)> = Vec::new();
    m.push(str_member("condition", condition));
    m.push(member("enabled", Json::Bool(true)));
    m.push(str_member("id", id));
    m.push(str_member("name", name));
    Json::Object(m)
}

fn reading_entry(timestamp: i64, value: &str) -> (j: Json)
    ensures
        is_reading_entry(j, timestamp as int, value@),
{
    let mut m: Vec<(String, Json)> = Vec::new();
    m.push(str_member("metric", "temperature"));
    m.push(int_member("timestamp", timestamp));
    m.push(real_member("value", value));
    Json::Object(m)
}

/// Exports sample data as JSON text.
pub struct ExportToJsonTool {
    storage: Arc<()>,
}

impl ExportToJsonTool {
    /// A tool over an empty store.
    pub fn new() -> (t: Self) {
        ExportToJsonTool { storage: Arc::new(()) }
    }

    /// The name under which the model calls the tool.
    pub fn name(&self) -> (s: &'static str)
        ensures
            s@ == "export_to_json"@,
    {
        "export_to_json"
    }

    /// The sample data of a type.
    pub fn sample(&self, data_type: &str, device_id: Option<&str>) -> (d: Json)
        ensures
            is_export_sample(d, data_type@, match device_id { Some(x) => Some(x@), None => None }),
    {
        if same_text(data_type, "rules") {
            let mut xs: Vec<Json> = Vec::new();
            xs.push(rule_entry("rule_1", "高温告警", "temperature > 30"));
            xs.push(rule_entry("rule_2", "低湿提醒", "humidity < 30"));
            Json::Array(xs)
        } else if same_text(data_type, "device_data") {
            let device = match device_id {
                Some(x) => x,
                None => "unknown",
            };
            let mut ps: Vec<Json> = Vec::new();
            ps.push(reading_entry(1735718400, "22.5"));
            ps.push(reading_entry(1735722000, "23.1"));
            let mut m: Vec<(String, Json)> = Vec::new();
            m.push(member("data", Json::Array(ps)));
            m.push(str_member("device_id", device));
            Json::Object(m)
        } else if same_text(data_type, "alerts") {
            let mut a: Vec<(String, Json)> = Vec::new();
            a.push(member("acknowledged", Json::Bool(false)));
            a.push(str_member("id", "alert_1"));
            a.push(str_member("severity", "warning"));
            a.push(str_member("title", "温度过高"));
            let mut xs: Vec<Json> = Vec::new();
            xs.push(Json::Object(a));
            Json::Array(xs)
        } else {
            let mut m: Vec<(String, Json)> = Vec::new();
            m.push(str_member("error", "Unknown data type"));
            Json::Object(m)
        }
    }

    /// Exports the sample of the data type named by `data_type` (required),
    /// as compact JSON text, or pretty text when `pretty` is set.
    pub fn execute(&self, args: &Json) -> (r: Result<ToolOutput, ToolError>)
        ensures
            match args.text_at("data_type"@) {
                None => r matches Err(ToolError::InvalidArguments(m)) && m@ == "data_type is required"@,
                Some(t) => r matches Ok(o) && o.success && o.error is None && o.metadata is None
                    && (o.data matches Json::Object(m) && m@.len() == 3 && has_text(m@, 0, "format"@, "json"@)
                    && has_value(m@, 1, "pretty"@, Json::Bool(pretty_of(*args)))
                    && m@[2].0@ == "data"@
                    && (m@[2].1.text() matches Some(text) && is_export_text(text, t, args.text_at("device_id"@), pretty_of(*args)))),
            },
    {
        let data_type = match args.str_at("data_type") {
            Some(t) => t,
            None => {
                return Err(ToolError::InvalidArguments(owned("data_type is required")));
            },
        };
        let pretty = match args.bool_at_key("pretty") {
            Some(b) => b,
            None => false,
        };
        let device = match args.str_at("device_id") {
            Some(x) => Some(x.as_str()),
            None => None,
        };
        let d = self.sample(data_type.as_str(), device);
        let text = if pretty { to_pretty_text(&d) } else { to_json_text(&d) };
        let mut m: Vec<(String, Json)> = Vec::new();
        m.push(str_member("format", "json"));
        m.push(member("pretty", Json::Bool(pretty)));
        m.push((owned("data"), Json::Str(text)));
        let ghost dev = args.text_at("device_id"@);
        assert(dev == match device { Some(x) => Some(x@), None => None::<Seq<char>> });
        assert(is_export_sample(d, data_type@, dev));
        assert(pretty == pretty_of(*args));
        let o = ToolOutput::success(Json::Object(m));
        assert(is_export_text(text@, data_type@, dev, pretty));
        Ok(o)
    }
}

/// The sections of a daily report: system status, device summary, rule
/// statistics and alert summary.
pub open spec fn is_daily_sections(j: Json) -> bool {
    j matches Json::Object(m) && m@.len() == 4
        && m@[0].0@ == "system_status"@ && (m@[0].1 matches Json::Object(s) && s@.len() == 4
            && has_text(s@, 0, "uptime"@, "24h"@) && has_real(s@, 1, "cpu_avg"@, "25.5"@)
            && has_real(s@, 2, "memory_peak"@, "65.0"@) && has_int(s@, 3, "services_running"@, 5))
        && m@[1].0@ == "device_summary"@ && is_int_object(m@[1].1,
            seq!["total_devices"@, "online_devices"@, "offline_devices"@, "total_data_points"@], seq![10int, 8, 2, 1440])
        && m@[2].0@ == "rule_stats"@ && (m@[2].1 matches Json::Object(r) && r@.len() == 4
            && has_int(r@, 0, "total_rules"@, 5) && has_int(r@, 1, "active_rules"@, 5)
            && has_int(r@, 2, "triggered_count"@, 12) && has_text(r@, 3, "most_triggered"@, "temp_alert_rule"@))
        && m@[3].0@ == "alert_summary"@ && is_int_object(m@[3].1,
            seq!["total_alerts"@, "critical"@, "warning"@, "info"@, "acknowledged"@], seq![3int, 0, 2, 1, 2])
}

/// The report of a type written on `date` at time `now`: a daily report
/// with its sections, a weekly one starting that day, or for any other
/// type a short message.
pub open spec fn is_report(j: Json, report_type: Seq<char>, date: Seq<char>, now: nat) -> bool {
    j matches Json::Object(m) && if report_type == "daily"@ {
        m@.len() == 4 && has_text(m@, 0, "report_type"@, "daily"@) && has_text(m@, 1, "date"@, date)
            && m@[2].0@ == "generated_at"@ && is_count(m@[2].1, now)
            && m@[3].0@ == "sections"@ && is_daily_sections(m@[3].1)
    } else if report_type == "weekly"@ {
        m@.len() == 4 && has_text(m@, 0, "report_type"@, "weekly"@) && has_text(m@, 1, "week_start"@, date)
            && m@[2].0@ == "generated_at"@ && is_count(m@[2].1, now)
            && m@[3].0@ == "sections"@ && (m@[3].1 matches Json::Object(s) && s@.len() == 3
                && has_text(s@, 0, "summary"@, "Weekly system performance report"@)
                && has_real(s@, 1, "uptime_percentage"@, "99.8"@) && has_int(s@, 2, "total_events"@, 10080))
    } else {
        m@.len() == 3 && has_text(m@, 0, "report_type"@, report_type)
            && m@[1].0@ == "generated_at"@ && is_count(m@[1].1, now)
            && has_text(m@, 2, "message"@, "Report generated successfully"@)
    }
}

/// Whether `j` is the report of a type written on some day at some time.
pub open spec fn is_report_of_some_day(j: Json, report_type: Seq<char>) -> bool {
    exists|date: Seq<char>, now: nat| #[trigger] is_report(j, report_type, date, now)
}

fn int_object(keys: &Vec<&str>, vals: &Vec<i64>) -> (j: Json)
    requires
        keys@.len() == vals@.len(),
    ensures
        is_int_object(j, keys@.map_values(|k: &str| k@), vals@.map_values(|v: i64| v as int)),
{
    let mut m: Vec<(String, Json)> = Vec::new();
    let mut i: usize = 0;
    while i < keys.len()
        invariant
            i <= keys@.len(),
            keys@.len() == vals@.len(),
            m@.len() == i,
            forall|k: int| 0 <= k < i ==> #[trigger] has_int(m@, k, keys@[k]@, vals@[k] as int),
        decreases keys@.len() - i,
    {
        let ghost before = m@;
        m.push(int_member(keys[i], vals[i]));
        assert forall|k: int| 0 <= k < i + 1 implies #[trigger] has_int(m@, k, keys@[k]@, vals@[k] as int) by {
            if k < i {
                assert(m@[k] == before[k]);
                assert(has_int(before, k, keys@[k]@, vals@[k] as int));
            }
        }
        i = i + 1;
    }
    let ghost ks = keys@.map_values(|x: &str| x@);
    let ghost vs = vals@.map_values(|v: i64| v as int);
    assert forall|k: int| 0 <= k < keys@.len() implies #[trigger] has_int(m@, k, ks[k], vs[k]) by {
        assert(has_int(m@, k, keys@[k]@, vals@[k] as int));
    }
    Json::Object(m)
}

/// Writes reports on the system.
pub struct GenerateReportTool {
    storage: Arc<()>,
}

impl GenerateReportTool {
    /// A tool over an empty store.
    pub fn new() -> (t: Self) {
        GenerateReportTool { storage: Arc::new(()) }
    }

    /// The name under which the model calls the tool.
    pub fn name(&self) -> (s: &'static str)
        ensures
            s@ == "generate_report"@,
    {
        "generate_report"
    }

    /// The report of a type, written on `date` at time `now`.
    pub fn report(&self, report_type: &str, date: &str, now: u64) -> (j: Json)
        ensures
            is_report(j, report_type@, date@, now as nat),
    {
        let mut m: Vec<(String, Json)> = Vec::new();
        if same_text(report_type, "daily") {
            let mut status: Vec<(String, Json)> = Vec::new();
            status.push(str_member("uptime", "24h"));
            status.push(real_member("cpu_avg", "25.5"));
            status.push(real_member("memory_peak", "65.0"));
            status.push(int_member("services_running", 5));
            let device_keys: Vec<&str> = vec!["total_devices", "online_devices", "offline_devices", "total_data_points"];
            let device_vals: Vec<i64> = vec![10, 8, 2, 1440];
            let mut rules: Vec<(String, Json)> = Vec::new();
            rules.push(int_member("total_rules", 5));
            rules.push(int_member("active_rules", 5));
            rules.push(int_member("triggered_count", 12));
            rules.push(str_member("most_triggered", "temp_alert_rule"));
            let alert_keys: Vec<&str> = vec!["total_alerts", "critical", "warning", "info", "acknowledged"];
            let alert_vals: Vec<i64> = vec![3, 0, 2, 1, 2];
            let devices = int_object(&device_keys, &device_vals);
            let alerts = int_object(&alert_keys, &alert_vals);
            assert(device_keys@.map_values(|k: &str| k@) =~= seq!["total_devices"@, "online_devices"@, "offline_devices"@, "total_data_points"@]);
            assert(device_vals@.map_values(|v: i64| v as int) =~= seq![10int, 8, 2, 1440]);
            assert(alert_keys@.map_values(|k: &str| k@) =~= seq!["total_alerts"@, "critical"@, "warning"@, "info"@, "acknowledged"@]);
            assert(alert_vals@.map_values(|v: i64| v as int) =~= seq![3int, 0, 2, 1, 2]);
            let mut sections: Vec<(String, Json)> = Vec::new();
            sections.push(member("system_status", Json::Object(status)));
            sections.push(member("device_summary", devices));
            sections.push(member("rule_stats", Json::Object(rules)));
            sections.push(member("alert_summary", alerts));
            m.push(str_member("report_type", "daily"));
            m.push(str_member("date", date));
            m.push(member("generated_at", unsigned_number(now)));
            m.push(member("sections", Json::Object(sections)));
        } else if same_text(report_type, "weekly") {
            let mut sections: Vec<(String, Json)> = Vec::new();
            sections.push(str_member("summary", "Weekly system performance report"));
            sections.push(real_member("uptime_percentage", "99.8"));
            sections.push(int_member("total_events", 10080));
            m.push(str_member("report_type", "weekly"));
            m.push(str_member("week_start", date));
            m.push(member("generated_at", unsigned_number(now)));
            m.push(member("sections", Json::Object(sections)));
        } else {
            m.push(str_member("report_type", report_type));
            m.push(member("generated_at", unsigned_number(now)));
            m.push(str_member("message", "Report generated successfully"));
        }
        Json::Object(m)
    }

    /// Writes the report named by `report_type` (required) for today, now.
    pub fn execute(&self, args: &Json) -> (r: Result<ToolOutput, ToolError>)
        ensures
            match args.text_at("report_type"@) {
                None => r matches Err(ToolError::InvalidArguments(m)) && m@ == "report_type is required"@,
                Some(t) => r matches Ok(o) && o.success && o.error is None && o.metadata is None
                    && is_report_of_some_day(o.data, t),
            },
    {
        let report_type = match args.str_at("report_type") {
            Some(t) => t,
            None => {
                return Err(ToolError::InvalidArguments(owned("report_type is required")));
            },
        };
        let now = now_seconds();
        let date = today_date();
        let j = self.report(report_type.as_str(), date.as_str(), now);
        assert(args.text_at("report_type"@) == Some(report_type@));
        let o = ToolOutput::success(j);
        assert(is_report(o.data, report_type@, date@, now as nat));
        assert(is_report_of_some_day(o.data, report_type@));
        Ok(o)
    }
}

} // verus!
