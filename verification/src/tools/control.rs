//! Device control: choosing the target devices, carrying out a command on
//! each (switching, setting a temperature or a brightness), and the message
//! that confirms what was done.
use vstd::prelude::*;
use crate::json::{has_text, same, Json};
use crate::table::Table;
use crate::text::{
    cat, chars_of, decimal, join, join_texts, milli_string, milli_text, owned, parse_milli, parse_milli_text, same_text,
    spec_contains, split_chars, split_on, string_of, u64_text,
};
use crate::tools::builtin::{count, is_count};
use crate::tools::devices::{same_command, same_device, same_devices, DeviceFilter, DeviceInfo};
use crate::tools::discovery::{
    first_with_id, is_mock_device, lemma_filter_step, scenario, scenario_view, strings_in, view_matches,
    MockDeviceRegistry,
};
use crate::tools::error::ToolError;
use crate::tools::catalog::{ToolCategory, UsageScenario};
use crate::tools::tool::{array_property, is_property, object_schema, requires_names, string_property, ToolOutput};
use crate::workflow::templates::{opt_text, texts};

verus! {

/// A command for devices, with an optional value and parameters.
pub struct ControlCommand {
    pub command: String,
    pub value: Option<Json>,
    pub parameters: Option<Table<Json>>,
}

/// What a command did to one device.
pub struct ControlResult {
    pub device_id: String,
    pub device_name: String,
    pub success: bool,
    pub error: Option<String>,
    pub new_state: Option<Json>,
}

/// What a command did to all its target devices.
pub struct BatchControlResult {
    pub command: String,
    pub total_targets: usize,
    pub successful: usize,
    pub failed: usize,
    pub results: Vec<ControlResult>,
    pub confirmation: String,
}

// ------------------------------------------------------------ numbers

/// The number of thousandths a JSON number stands for, when it is one and
/// fits in `i64`.
pub open spec fn json_milli(j: Json) -> Option<int> {
    match j {
        Json::Int(i) => if i64::MIN <= i * 1000 <= i64::MAX { Some(i * 1000) } else { None },
        Json::Real(t) => parse_milli(t@),
        _ => None,
    }
}

/// The value a setting command uses, in thousandths: the command's value
/// when it is a number, else the number under "value" in its parameters
/// object, else zero.
pub open spec fn setting_value(value: Option<Json>, params: Option<Json>) -> int {
    let from_value = match value {
        Some(v) => json_milli(v),
        None => None,
    };
    match from_value {
        Some(x) => x,
        None => match params {
            Some(p) => match p.member("value"@) {
                Some(x) => match json_milli(x) {
                    Some(m) => m,
                    None => 0,
                },
                None => 0,
            },
            None => 0,
        },
    }
}

fn milli_of(j: &Json) -> (r: Option<i64>)
    ensures
        r matches Some(x) ==> json_milli(*j) == Some(x as int),
        r is None ==> json_milli(*j) is None,
{
    match j {
        Json::Int(i) => i.checked_mul(1000),
        Json::Real(t) => parse_milli_text(t.as_str()),
        _ => None,
    }
}

fn value_of(value: Option<&Json>, parameters: Option<&Json>) -> (v: i64)
    ensures
        v as int == setting_value(
            match value { Some(x) => Some(*x), None => None },
            match parameters { Some(p) => Some(*p), None => None },
        ),
{
    let from_value = match value {
        Some(x) => milli_of(x),
        None => None,
    };
    match from_value {
        Some(x) => x,
        None => match parameters {
            Some(p) => match p.get("value") {
                Some(x) => match milli_of(x) {
                    Some(m) => m,
                    None => 0,
                },
                None => 0,
            },
            None => 0,
        },
    }
}

// ------------------------------------------------------------ one device

/// Whether the device accepts the command.
pub open spec fn supports(d: DeviceInfo, command: Seq<char>) -> bool {
    exists|k: int| 0 <= k < d.capabilities.commands@.len() && #[trigger] d.capabilities.commands@[k].name@ == command
}

/// Whether the command sets a value.
pub open spec fn is_setting(command: Seq<char>) -> bool {
    command == "set_temperature"@ || command == "set_value"@ || command == "set_brightness"@
}

/// Whether the command is one the tool knows.
pub open spec fn is_known(command: Seq<char>) -> bool {
    command == "turn_on"@ || command == "turn_off"@ || is_setting(command)
}

/// The readings a command leaves on a device, when it touches them: none
/// when the device does not accept or the tool does not know the command,
/// or when the device has no readings.
pub open spec fn readings_after(d: DeviceInfo, command: Seq<char>, value: int) -> Option<Map<Seq<char>, i64>> {
    if !supports(d, command) || !is_known(command) {
        None
    } else {
        match d.latest_data {
            None => None,
            Some(t) => Some(
                if command == "turn_on"@ || command == "turn_off"@ {
                    let s: i64 = if command == "turn_on"@ { 1000 } else { 0 };
                    let m = t@.insert("state"@, s);
                    if d.device_type@ == "AirConditioner"@ { m.insert("power_state"@, s) } else { m }
                } else if command == "set_temperature"@ {
                    t@.insert("target_temp"@, value as i64)
                } else if command == "set_brightness"@ {
                    t@.insert("brightness"@, value as i64)
                } else {
                    t@
                },
            ),
        }
    }
}

/// Whether `j` is the object `{"power": state}`.
pub open spec fn is_power_json(j: Json, state: Seq<char>) -> bool {
    j matches Json::Object(o) && o@.len() == 1 && has_text(o@, 0, "power"@, state)
}

/// The error a command gives on a device: none when the device accepts it
/// and the tool knows it.
pub open spec fn control_error(d: DeviceInfo, command: Seq<char>) -> Option<Seq<char>> {
    if !supports(d, command) {
        Some("设备不支持命令: "@ + command)
    } else if is_known(command) {
        None
    } else {
        Some("未知命令: "@ + command)
    }
}

/// Whether `j` is the new state a successful command reports: the power
/// for switching, else the command with the value set.
pub open spec fn is_new_state(j: Json, command: Seq<char>, value: int) -> bool {
    if command == "turn_on"@ || command == "turn_off"@ {
        is_power_json(j, if command == "turn_on"@ { "on"@ } else { "off"@ })
    } else {
        j matches Json::Object(o) && o@.len() == 1 && o@[0].0@ == command
            && (o@[0].1 matches Json::Real(t) && t@ == milli_text(value))
    }
}

/// Whether `r` reports what the command did to the device.
pub open spec fn is_control_result(r: ControlResult, d: DeviceInfo, command: Seq<char>, value: int) -> bool {
    &&& r.device_id@ == d.id@
    &&& r.device_name@ == d.name@
    &&& r.success == (control_error(d, command) is None)
    &&& opt_text(r.error) == control_error(d, command)
    &&& if control_error(d, command) is None {
        r.new_state matches Some(s) && is_new_state(s, command, value)
    } else {
        r.new_state is None
    }
}

/// The readings of each device.
pub open spec fn readings_views(ds: Seq<DeviceInfo>) -> Seq<Option<Map<Seq<char>, i64>>> {
    ds.map_values(|d: DeviceInfo| match d.latest_data {
        Some(t) => Some(t@),
        None => None,
    })
}

/// Whether two registries hold the same devices apart from their readings.
pub open spec fn same_but_readings(a: Seq<DeviceInfo>, b: Seq<DeviceInfo>) -> bool {
    a.len() == b.len() && forall|j: int| 0 <= j < a.len() ==> {
        &&& (#[trigger] a[j]).id == b[j].id
        &&& a[j].name == b[j].name
        &&& a[j].device_type == b[j].device_type
        &&& a[j].location == b[j].location
        &&& a[j].status == b[j].status
        &&& a[j].tags == b[j].tags
        &&& a[j].capabilities == b[j].capabilities
    }
}

/// The readings of a registry after one device's readings are replaced.
pub open spec fn with_readings(ds: Seq<DeviceInfo>, rv: Seq<Option<Map<Seq<char>, i64>>>, id: Seq<char>, m: Option<Map<Seq<char>, i64>>) -> Seq<Option<Map<Seq<char>, i64>>> {
    match m {
        None => rv,
        Some(x) => match first_with_id(ds, id) {
            Some(k) => rv.update(k, Some(x)),
            None => rv,
        },
    }
}

fn power_json(state: &str) -> (j: Json)
    ensures
        is_power_json(j, state@),
{
    let mut o: Vec<(String, Json)> = Vec::new();
    o.push((owned("power"), Json::Str(owned(state))));
    Json::Object(o)
}

fn supported(d: &DeviceInfo, command: &str) -> (b: bool)
    ensures
        b == supports(*d, command@),
{
    let cs = &d.capabilities.commands;
    let mut i: usize = 0;
    while i < cs.len()
        invariant
            i <= cs@.len(),
            *cs == d.capabilities.commands,
            forall|k: int| 0 <= k < i ==> #[trigger] cs@[k].name@ != command@,
        decreases cs@.len() - i,
    {
        if same_text(cs[i].name.as_str(), command) {
            return true;
        }
        i = i + 1;
    }
    false
}

/// A copy of the readings of a device, with `key` set to `v`.
fn set_reading(t: &Table<i64>, key: &str, v: i64) -> (r: Table<i64>)
    ensures
        r@ == t@.insert(key@, v),
{
    let mut r = t.duplicate();
    r.insert(owned(key), v);
    r
}

// ------------------------------------------------------------ targets

/// Whether the device has the id, or a name containing it.
pub open spec fn id_or_name(d: DeviceInfo, id: Seq<char>) -> bool {
    d.id@ == id || spec_contains(d.name@, id)
}

/// Whether the device has one of the ids, or a name containing one.
pub open spec fn any_id_or_name(d: DeviceInfo, ids: Seq<Seq<char>>) -> bool {
    exists|k: int| 0 <= k < ids.len() && id_or_name(d, #[trigger] ids[k])
}

/// The devices a control call targets, or none when there is no device at
/// all: those matching "device_id", else those matching one of
/// "device_ids", else those meeting the type and location of "filter"
/// (possibly none), else all devices.
pub open spec fn targets(ds: Seq<DeviceInfo>, args: Json) -> Option<Seq<DeviceInfo>> {
    let by_id = match args.text_at("device_id"@) {
        Some(id) => ds.filter(|d: DeviceInfo| id_or_name(d, id)),
        None => Seq::empty(),
    };
    let by_ids = match args.member("device_ids"@) {
        Some(Json::Array(a)) => ds.filter(|d: DeviceInfo| any_id_or_name(d, strings_in(a@))),
        _ => Seq::empty(),
    };
    let fallback = if ds.len() == 0 { None } else { Some(ds) };
    if by_id.len() > 0 {
        Some(by_id)
    } else if by_ids.len() > 0 {
        Some(by_ids)
    } else {
        match args.member("filter"@) {
            Some(fo) => if fo is Object {
                Some(ds.filter(|d: DeviceInfo| view_matches(
                    (fo.text_at("type"@), fo.text_at("location"@), None, None, None), d)))
            } else {
                fallback
            },
            None => fallback,
        }
    }
}

fn contains_name(name: &str, id: &str) -> (b: bool)
    ensures
        b == spec_contains(name@, id@),
{
    crate::text::contains_text(name, id)
}

fn matches_one(d: &DeviceInfo, id: &str) -> (b: bool)
    ensures
        b == id_or_name(*d, id@),
{
    same_text(d.id.as_str(), id) || contains_name(d.name.as_str(), id)
}

fn matches_some(d: &DeviceInfo, ids: &Vec<String>) -> (b: bool)
    ensures
        b == any_id_or_name(*d, texts(ids@)),
{
    let mut k: usize = 0;
    while k < ids.len()
        invariant
            k <= ids@.len(),
            forall|j: int| 0 <= j < k ==> !id_or_name(*d, #[trigger] texts(ids@)[j]),
        decreases ids@.len() - k,
    {
        if matches_one(d, ids[k].as_str()) {
            assert(id_or_name(*d, texts(ids@)[k as int]));
            return true;
        }
        k = k + 1;
    }
    false
}

fn with_id(devices: &Vec<DeviceInfo>, id: &str) -> (r: Vec<DeviceInfo>)
    ensures
        same_devices(r@, devices@.filter(|d: DeviceInfo| id_or_name(d, id@))),
{
    let ghost p = |d: DeviceInfo| id_or_name(d, id@);
    let mut r: Vec<DeviceInfo> = Vec::new();
    let mut i: usize = 0;
    proof {
        reveal(Seq::filter);
        assert(devices@.subrange(0, 0) =~= Seq::<DeviceInfo>::empty());
    }
    while i < devices.len()
        invariant
            i <= devices@.len(),
            p == (|d: DeviceInfo| id_or_name(d, id@)),
            same_devices(r@, devices@.subrange(0, i as int).filter(p)),
        decreases devices@.len() - i,
    {
        proof {
            lemma_filter_step(devices@, p, i as int);
        }
        if matches_one(&devices[i], id) {
            r.push(devices[i].copy());
        }
        i = i + 1;
    }
    assert(devices@.subrange(0, i as int) =~= devices@);
    r
}

fn with_ids(devices: &Vec<DeviceInfo>, ids: &Vec<String>) -> (r: Vec<DeviceInfo>)
    ensures
        same_devices(r@, devices@.filter(|d: DeviceInfo| any_id_or_name(d, texts(ids@)))),
{
    let ghost p = |d: DeviceInfo| any_id_or_name(d, texts(ids@));
    let mut r: Vec<DeviceInfo> = Vec::new();
    let mut i: usize = 0;
    proof {
        reveal(Seq::filter);
        assert(devices@.subrange(0, 0) =~= Seq::<DeviceInfo>::empty());
    }
    while i < devices.len()
        invariant
            i <= devices@.len(),
            p == (|d: DeviceInfo| any_id_or_name(d, texts(ids@))),
            same_devices(r@, devices@.subrange(0, i as int).filter(p)),
        decreases devices@.len() - i,
    {
        proof {
            lemma_filter_step(devices@, p, i as int);
        }
        if matches_some(&devices[i], ids) {
            r.push(devices[i].copy());
        }
        i = i + 1;
    }
    assert(devices@.subrange(0, i as int) =~= devices@);
    r
}

pub(crate) fn text_strings(a: &Vec<Json>) -> (r: Vec<String>)
    ensures
        texts(r@) == strings_in(a@),
{
    let mut r: Vec<String> = Vec::new();
    let mut i: usize = 0;
    while i < a.len()
        invariant
            i <= a@.len(),
            texts(r@) == strings_in(a@.subrange(0, i as int)),
        decreases a@.len() - i,
    {
        let ghost prev = r@;
        assert(a@.subrange(0, i + 1).drop_last() =~= a@.subrange(0, i as int));
        match a[i].as_text() {
            Some(t) => {
                r.push(t.clone());
                assert(texts(r@) =~= texts(prev).push(t@));
            },
            None => {},
        }
        i = i + 1;
    }
    assert(a@.subrange(0, i as int) =~= a@);
    r
}

fn copy_opt(o: Option<&String>) -> (r: Option<String>)
    ensures
        opt_text(r) == (match o { Some(s) => Some(s@), None => None::<Seq<char>> }),
{
    match o {
        Some(s) => Some(s.clone()),
        None => None,
    }
}

// ------------------------------------------------------------ confirmation

/// The second word of a name, split at spaces.
pub open spec fn second_word(name: Seq<char>) -> Option<Seq<char>> {
    if split_on(name, ' ').len() > 1 { Some(split_on(name, ' ')[1]) } else { None }
}

/// The names of the devices on which the command succeeded, in order.
pub open spec fn succeeded_names(rs: Seq<ControlResult>) -> Seq<Seq<char>>
    decreases rs.len(),
{
    if rs.len() == 0 {
        Seq::empty()
    } else {
        let p = succeeded_names(rs.drop_last());
        if rs.last().success { p.push(rs.last().device_name@) } else { p }
    }
}

/// Whether the names name more than one location (their second words).
pub open spec fn several_locations(names: Seq<Seq<char>>) -> bool {
    exists|i: int, j: int| 0 <= i < names.len() && 0 <= j < names.len()
        && #[trigger] second_word(names[i]) is Some && #[trigger] second_word(names[j]) is Some
        && second_word(names[i]) != second_word(names[j])
}

/// The location the names share: the second word of the first name that has one.
pub open spec fn first_location(names: Seq<Seq<char>>) -> Seq<char>
    decreases names.len(),
{
    if names.len() == 0 {
        Seq::empty()
    } else {
        match second_word(names[0]) {
            Some(w) => w,
            None => first_location(names.drop_first()),
        }
    }
}

/// How the confirmation calls a command.
pub open spec fn command_phrase(command: Seq<char>) -> Seq<char> {
    if command == "turn_on"@ {
        "打开"@
    } else if command == "turn_off"@ {
        "关闭"@
    } else if command == "set_temperature"@ {
        "设置温度"@
    } else if command == "set_value"@ {
        "设置"@
    } else if command == "set_brightness"@ {
        "设置亮度"@
    } else {
        "控制"@
    }
}

/// The message that confirms a batch: a failure note when nothing
/// succeeded, the device's name for a single target, else the number of
/// devices with their names (several locations) or their location.
pub open spec fn confirmation_text(command: Seq<char>, total: nat, successful: nat, names: Seq<Seq<char>>) -> Seq<char> {
    let phrase = command_phrase(command);
    if names.len() == 0 {
        "❌ 控制失败，没有成功执行任何设备"@
    } else if total == 1 {
        "✓ 已"@ + phrase + names[0]
    } else if several_locations(names) {
        "✓ 已"@ + phrase + decimal(successful) + "个设备: "@ + join(names, "、"@)
    } else {
        "✓ 已"@ + phrase + first_location(names) + "的"@ + decimal(successful) + "个设备"@
    }
}

fn phrase_of(command: &str) -> (s: &'static str)
    ensures
        s@ == command_phrase(command@),
{
    if same_text(command, "turn_on") {
        "打开"
    } else if same_text(command, "turn_off") {
        "关闭"
    } else if same_text(command, "set_temperature") {
        "设置温度"
    } else if same_text(command, "set_value") {
        "设置"
    } else if same_text(command, "set_brightness") {
        "设置亮度"
    } else {
        "控制"
    }
}

fn second_word_of(name: &str) -> (r: Option<String>)
    ensures
        opt_text(r) == second_word(name@),
{
    let v = chars_of(name);
    let parts = split_chars(&v, ' ');
    if parts.len() > 1 {
        Some(string_of(parts[1].as_slice()))
    } else {
        None
    }
}

proof fn lemma_first_location(names: Seq<Seq<char>>, k: int)
    requires
        0 <= k < names.len(),
        second_word(names[k]) is Some,
        forall|j: int| 0 <= j < k ==> #[trigger] second_word(names[j]) is None,
    ensures
        first_location(names) == second_word(names[k])->Some_0,
    decreases k,
{
    if k > 0 {
        let rest = names.drop_first();
        assert forall|j: int| 0 <= j < k - 1 implies #[trigger] second_word(rest[j]) is None by {
            assert(rest[j] == names[j + 1]);
        }
        lemma_first_location(rest, k - 1);
    }
}

/// The message that confirms what a batch of control results did.
pub fn generate_confirmation(result: &BatchControlResult) -> (s: String)
    ensures
        s@ == confirmation_text(result.command@, result.total_targets as nat, result.successful as nat, succeeded_names(result.results@)),
{
    let rs = &result.results;
    let ghost all = succeeded_names(rs@);
    let mut names: Vec<String> = Vec::new();
    let mut i: usize = 0;
    while i < rs.len()
        invariant
            i <= rs@.len(),
            *rs == result.results,
            texts(names@) == succeeded_names(rs@.subrange(0, i as int)),
        decreases rs@.len() - i,
    {
        let ghost prev = names@;
        assert(rs@.subrange(0, i + 1).drop_last() =~= rs@.subrange(0, i as int));
        if rs[i].success {
            names.push(rs[i].device_name.clone());
            assert(texts(names@) =~= texts(prev).push(rs@[i as int].device_name@));
        }
        i = i + 1;
    }
    assert(rs@.subrange(0, i as int) =~= rs@);
    let ghost nv = texts(names@);
    assert(nv == all);
    let phrase = phrase_of(result.command.as_str());
    if names.len() == 0 {
        return owned("❌ 控制失败，没有成功执行任何设备");
    }
    if result.total_targets == 1 {
        let mut s = cat("✓ 已", phrase);
        s.append(names[0].as_str());
        return s;
    }
    // The location of the first name that has one, and whether another differs.
    let mut first: Option<String> = None;
    let mut several = false;
    let mut k: usize = 0;
    while k < names.len()
        invariant
            k <= names@.len(),
            nv == texts(names@),
            first is None ==> forall|j: int| 0 <= j < k ==> #[trigger] second_word(nv[j]) is None,
            first matches Some(f) ==> (exists|j: int| 0 <= j < k && #[trigger] second_word(nv[j]) == Some(f@)
                && forall|m: int| 0 <= m < j ==> #[trigger] second_word(nv[m]) is None),
            first matches Some(f) ==> first_location(nv) == f@,
            several ==> several_locations(nv),
            !several ==> forall|a: int, b: int| 0 <= a < k && 0 <= b < k && second_word(nv[a]) is Some
                && second_word(nv[b]) is Some ==> #[trigger] second_word(nv[a]) == #[trigger] second_word(nv[b]),
        decreases names@.len() - k,
    {
        let w = second_word_of(names[k].as_str());
        assert(names@[k as int]@ == nv[k as int]);
        match w {
            Some(x) => {
                match &first {
                    Some(f) => {
                        if !same_text(f.as_str(), x.as_str()) {
                            proof {
                                let j = choose|j: int| 0 <= j < k && #[trigger] second_word(nv[j]) == Some(f@)
                                    && forall|m: int| 0 <= m < j ==> #[trigger] second_word(nv[m]) is None;
                                assert(second_word(nv[j]) != second_word(nv[k as int]));
                            }
                            several = true;
                        }
                    },
                    None => {
                        proof {
                            lemma_first_location(nv, k as int);
                        }
                        first = Some(x);
                    },
                }
            },
            None => {},
        }
        k = k + 1;
    }
    if several {
        let mut s = cat("✓ 已", phrase);
        s.append(u64_text(result.successful as u64).as_str());
        s.append("个设备: ");
        let joined_names = join_texts(&names, "、");
        s.append(joined_names.as_str());
        s
    } else {
        proof {
            assert(!several_locations(nv));
        }
        let loc = match first {
            Some(f) => f,
            None => {
                proof {
                    assert(first_location(nv) == Seq::<char>::empty()) by {
                        lemma_no_location(nv);
                    }
                }
                String::new()
            },
        };
        let mut s = cat("✓ 已", phrase);
        s.append(loc.as_str());
        s.append("的");
        s.append(u64_text(result.successful as u64).as_str());
        s.append("个设备");
        s
    }
}

proof fn lemma_no_location(names: Seq<Seq<char>>)
    requires
        forall|j: int| 0 <= j < names.len() ==> #[trigger] second_word(names[j]) is None,
    ensures
        first_location(names) == Seq::<char>::empty(),
    decreases names.len(),
{
    if names.len() > 0 {
        let rest = names.drop_first();
        assert forall|j: int| 0 <= j < rest.len() implies #[trigger] second_word(rest[j]) is None by {
            assert(rest[j] == names[j + 1]);
        }
        lemma_no_location(rest);
    }
}


// ------------------------------------------------------------ the tool

/// The readings of a registry after a command ran on each target in turn.
pub open spec fn after_controls(ds: Seq<DeviceInfo>, ts: Seq<DeviceInfo>, command: Seq<char>, value: int) -> Seq<Option<Map<Seq<char>, i64>>>
    decreases ts.len(),
{
    if ts.len() == 0 {
        readings_views(ds)
    } else {
        with_readings(ds, after_controls(ds, ts.drop_last(), command, value), ts.last().id@, readings_after(ts.last(), command, value))
    }
}

/// The names of the targets on which the command succeeds, in order.
pub open spec fn ok_names(ts: Seq<DeviceInfo>, command: Seq<char>) -> Seq<Seq<char>>
    decreases ts.len(),
{
    if ts.len() == 0 {
        Seq::empty()
    } else {
        let p = ok_names(ts.drop_last(), command);
        if control_error(ts.last(), command) is None { p.push(ts.last().name@) } else { p }
    }
}

/// Whether `j` is the JSON object of what a command did to a device.
pub open spec fn is_result_obj(j: Json, d: DeviceInfo, command: Seq<char>, value: int) -> bool {
    j matches Json::Object(o) && o@.len() == 5 && has_text(o@, 0, "device_id"@, d.id@)
        && has_text(o@, 1, "device_name"@, d.name@)
        && o@[2].0@ == "success"@ && o@[2].1 == Json::Bool(control_error(d, command) is None)
        && o@[3].0@ == "error"@ && (match control_error(d, command) {
            Some(e) => o@[3].1.text() == Some(e),
            None => o@[3].1 == Json::Null,
        })
        && o@[4].0@ == "new_state"@ && (if control_error(d, command) is None {
            is_new_state(o@[4].1, command, value)
        } else {
            o@[4].1 == Json::Null
        })
}

/// Whether `j` is what `device.control` answers for the command on the targets.
pub open spec fn is_control_json(j: Json, command: Seq<char>, ts: Seq<DeviceInfo>, value: int) -> bool {
    let names = ok_names(ts, command);
    j matches Json::Object(o) && o@.len() == 6 && has_text(o@, 0, "command"@, command)
        && o@[1].0@ == "total_targets"@ && is_count(o@[1].1, ts.len())
        && o@[2].0@ == "successful"@ && is_count(o@[2].1, names.len())
        && o@[3].0@ == "failed"@ && is_count(o@[3].1, (ts.len() - names.len()) as nat)
        && o@[4].0@ == "results"@ && (o@[4].1 matches Json::Array(a) && a@.len() == ts.len()
            && forall|i: int| 0 <= i < a@.len() ==> is_result_obj(#[trigger] a@[i], ts[i], command, value))
        && has_text(o@, 5, "confirmation"@, confirmation_text(command, ts.len(), names.len(), names))
}

/// A copy of a device answers a command as the device does.
proof fn lemma_same_device_control(a: DeviceInfo, b: DeviceInfo, command: Seq<char>, value: int)
    requires
        same_device(a, b),
    ensures
        supports(a, command) == supports(b, command),
        control_error(a, command) == control_error(b, command),
        readings_after(a, command, value) == readings_after(b, command, value),
        a.id@ == b.id@,
        a.name@ == b.name@,
{
    if supports(a, command) {
        let k = choose|k: int| 0 <= k < a.capabilities.commands@.len() && #[trigger] a.capabilities.commands@[k].name@ == command;
        assert(b.capabilities.commands@[k].name@ == command);
    }
    if supports(b, command) {
        let k = choose|k: int| 0 <= k < b.capabilities.commands@.len() && #[trigger] b.capabilities.commands@[k].name@ == command;
        assert(same_command(a.capabilities.commands@[k], b.capabilities.commands@[k]));
        assert(a.capabilities.commands@[k].name@ == command);
    }
    match a.latest_data {
        Some(t) => {
            let u = b.latest_data->Some_0;
            assert(t@ =~= u@);
        },
        None => {},
    }
}

proof fn lemma_command_names_differ()
    ensures
        "set_temperature"@ != "turn_on"@,
        "set_temperature"@ != "turn_off"@,
        "set_value"@ != "turn_on"@,
        "set_value"@ != "turn_off"@,
        "set_brightness"@ != "turn_on"@,
        "set_brightness"@ != "turn_off"@,
{
    reveal_strlit("set_temperature");
    reveal_strlit("set_value");
    reveal_strlit("set_brightness");
    reveal_strlit("turn_on");
    reveal_strlit("turn_off");
    assert("set_temperature"@[0] != "turn_on"@[0]);
    assert("set_temperature"@[0] != "turn_off"@[0]);
    assert("set_value"@[0] != "turn_on"@[0]);
    assert("set_value"@[0] != "turn_off"@[0]);
    assert("set_brightness"@[0] != "turn_on"@[0]);
    assert("set_brightness"@[0] != "turn_off"@[0]);
}

fn new_state_json(command: &str, value: i64) -> (j: Json)
    requires
        is_setting(command@),
    ensures
        is_new_state(j, command@, value as int),
{
    proof {
        lemma_command_names_differ();
    }
    let mut o: Vec<(String, Json)> = Vec::new();
    o.push((owned(command), Json::Real(milli_string(value))));
    Json::Object(o)
}

fn result_json(r: &ControlResult, Ghost(d): Ghost<DeviceInfo>, Ghost(command): Ghost<Seq<char>>, Ghost(value): Ghost<int>) -> (j: Json)
    requires
        is_control_result(*r, d, command, value),
    ensures
        is_result_obj(j, d, command, value),
{
    let error = match &r.error {
        Some(e) => Json::Str(e.clone()),
        None => Json::Null,
    };
    let state = match &r.new_state {
        Some(s) => s.copy(),
        None => Json::Null,
    };
    proof {
        if control_error(d, command) is None {
            lemma_same_new_state(r.new_state->Some_0, state, command, value);
        }
    }
    let mut o: Vec<(String, Json)> = Vec::new();
    o.push((owned("device_id"), Json::Str(r.device_id.clone())));
    o.push((owned("device_name"), Json::Str(r.device_name.clone())));
    o.push((owned("success"), Json::Bool(r.success)));
    o.push((owned("error"), error));
    o.push((owned("new_state"), state));
    Json::Object(o)
}

proof fn lemma_same_new_state(a: Json, b: Json, command: Seq<char>, value: int)
    requires
        is_new_state(a, command, value),
        same(b, a),
    ensures
        is_new_state(b, command, value),
{
    let oa = a->Object_0;
    let ob = b->Object_0;
    assert(ob@[0].0@ == oa@[0].0@ && same(ob@[0].1, oa@[0].1));
}

/// The `device.control` tool over a registry of devices.
pub struct DeviceControlTool {
    pub registry: MockDeviceRegistry,
}

impl DeviceControlTool {
    /// The tool over the given registry.
    pub fn new(registry: MockDeviceRegistry) -> (t: Self)
        ensures
            t.registry == registry,
    {
        DeviceControlTool { registry }
    }

    /// The tool over the sample devices.
    pub fn mock() -> (t: Self)
        ensures
            t.registry.devices().len() == 7,
            forall|i: int| 0 <= i < 7 ==> is_mock_device(#[trigger] t.registry.devices()[i], i),
    {
        DeviceControlTool { registry: MockDeviceRegistry::new() }
    }

    /// The devices the arguments target (see `targets`), or an error when
    /// there are no devices at all.
    pub fn find_targets(&self, args: &Json) -> (r: Result<Vec<DeviceInfo>, ToolError>)
        ensures
            match targets(self.registry.devices(), *args) {
                None => r matches Err(ToolError::NotFound(m)) && m@ == "No devices found"@,
                Some(ts) => r matches Ok(v) && same_devices(v@, ts),
            },
    {
        let devices = self.registry.device_list();
        let ghost ds = self.registry.devices();
        let by_id = match args.str_at("device_id") {
            Some(id) => with_id(devices, id.as_str()),
            None => Vec::new(),
        };
        if by_id.len() > 0 {
            return Ok(by_id);
        }
        let by_ids = match args.get("device_ids") {
            Some(Json::Array(a)) => {
                let ids = text_strings(a);
                with_ids(devices, &ids)
            },
            _ => Vec::new(),
        };
        if by_ids.len() > 0 {
            return Ok(by_ids);
        }
        match args.get("filter") {
            Some(fo) => {
                if fo.is_object() {
                    let f = DeviceFilter {
                        device_type: copy_opt(fo.str_at("type")),
                        location: copy_opt(fo.str_at("location")),
                        status: None,
                        tags: None,
                        name_contains: None,
                    };
                    let r = self.registry.find_by_filter(&f);
                    proof {
                        let fv = (fo.text_at("type"@), fo.text_at("location"@), None::<Seq<char>>, None::<Seq<Seq<char>>>, None::<Seq<char>>);
                        assert((|d: DeviceInfo| crate::tools::devices::spec_matches(f, d)) =~= (|d: DeviceInfo| view_matches(fv, d)));
                    }
                    return Ok(r);
                }
            },
            None => {},
        }
        if devices.len() == 0 {
            return Err(ToolError::NotFound(owned("No devices found")));
        }
        Ok(self.registry.get_all())
    }

    /// Carries out the command on one device: the device must accept it;
    /// switching sets the "state" reading (and "power_state" of an air
    /// conditioner) to 1 or 0, setting a temperature or brightness stores
    /// the value; the readings change only when the device has any.
    pub fn execute_command(&mut self, device: &DeviceInfo, command: &str, value: Option<&Json>, parameters: Option<&Json>) -> (r: ControlResult)
        ensures
            is_control_result(r, *device, command@, setting_value(
                match value { Some(x) => Some(*x), None => None },
                match parameters { Some(p) => Some(*p), None => None },
            )),
            same_but_readings(old(self).registry.devices(), final(self).registry.devices()),
            readings_views(final(self).registry.devices()) == with_readings(
                old(self).registry.devices(),
                readings_views(old(self).registry.devices()),
                device.id@,
                readings_after(*device, command@, setting_value(
                    match value { Some(x) => Some(*x), None => None },
                    match parameters { Some(p) => Some(*p), None => None },
                )),
            ),
    {
        let nv = value_of(value, parameters);
        update_readings(&mut self.registry, device, command, nv);
        control_outcome(device, command, nv)
    }

    /// Runs the command of the arguments on every target and reports each
    /// outcome, the counts and a confirmation; fails without a command, or
    /// when there are no devices at all.
    pub fn execute(&mut self, args: &Json) -> (r: Result<ToolOutput, ToolError>)
        ensures
            match args.text_at("command"@) {
                None => r matches Err(ToolError::InvalidArguments(m)) && m@ == "command is required"@
                    && final(self).registry.devices() == old(self).registry.devices(),
                Some(c) => match targets(old(self).registry.devices(), *args) {
                    None => r matches Err(ToolError::NotFound(m)) && m@ == "No devices found"@
                        && final(self).registry.devices() == old(self).registry.devices(),
                    Some(ts) => {
                        let v = setting_value(args.member("value"@), args.member("parameters"@));
                        &&& r matches Ok(o) && o.success && o.error is None && o.metadata is None
                            && is_control_json(o.data, c, ts, v)
                        &&& same_but_readings(old(self).registry.devices(), final(self).registry.devices())
                        &&& readings_views(final(self).registry.devices()) == after_controls(old(self).registry.devices(), ts, c, v)
                    },
                },
            },
    {
        let command = match args.str_at("command") {
            Some(c) => c.clone(),
            None => {
                return Err(ToolError::InvalidArguments(owned("command is required")));
            },
        };
        let ts = match self.find_targets(args) {
            Ok(t) => t,
            Err(e) => {
                return Err(e);
            },
        };
        let ghost ds = self.registry.devices();
        let ghost spec_ts = targets(ds, *args)->Some_0;
        let ghost c = command@;
        let value = args.get("value");
        let parameters = args.get("parameters");
        let ghost v = setting_value(args.member("value"@), args.member("parameters"@));
        let mut results: Vec<ControlResult> = Vec::new();
        let mut jsons: Vec<Json> = Vec::new();
        let mut successful: usize = 0;
        let mut failed: usize = 0;
        let mut i: usize = 0;
        proof {
            assert(readings_views(ds) == after_controls(ds, spec_ts.subrange(0, 0), c, v));
        }
        while i < ts.len()
            invariant
                i <= ts@.len(),
                same_devices(ts@, spec_ts),
                c == command@,
                v == setting_value(
                    match value { Some(x) => Some(*x), None => None },
                    match parameters { Some(p) => Some(*p), None => None },
                ),
                results@.len() == i,
                jsons@.len() == i,
                forall|k: int| 0 <= k < i ==> is_result_obj(#[trigger] jsons@[k], spec_ts[k], c, v),
                succeeded_names(results@) == ok_names(spec_ts.subrange(0, i as int), c),
                successful as nat == ok_names(spec_ts.subrange(0, i as int), c).len(),
                successful + failed == i,
                same_but_readings(ds, self.registry.devices()),
                readings_views(self.registry.devices()) == after_controls(ds, spec_ts.subrange(0, i as int), c, v),
            decreases ts@.len() - i,
        {
            let ghost before = self.registry.devices();
            let ghost prev = results@;
            proof {
                lemma_same_device_control(ts@[i as int], spec_ts[i as int], c, v);
                lemma_ok_names_len(spec_ts.subrange(0, i as int), c);
            }
            let res = self.execute_command(&ts[i], command.as_str(), value, parameters);
            let j = result_json(&res, Ghost(spec_ts[i as int]), Ghost(c), Ghost(v));
            jsons.push(j);
            if res.success {
                successful = successful + 1;
            } else {
                failed = failed + 1;
            }
            results.push(res);
            proof {
                lemma_step(ds, before, self.registry.devices(), spec_ts, i as int, c, v, prev, results@);
            }
            i = i + 1;
        }
        proof {
            assert(spec_ts.subrange(0, i as int) =~= spec_ts);
        }
        let total = results.len();
        let batch = BatchControlResult {
            command: command.clone(),
            total_targets: total,
            successful,
            failed,
            results,
            confirmation: String::new(),
        };
        let confirmation = generate_confirmation(&batch);
        let mut o: Vec<(String, Json)> = Vec::new();
        o.push((owned("command"), Json::Str(command)));
        o.push((owned("total_targets"), count(total)));
        o.push((owned("successful"), count(successful)));
        o.push((owned("failed"), count(failed)));
        o.push((owned("results"), Json::Array(jsons)));
        o.push((owned("confirmation"), Json::Str(confirmation)));
        Ok(ToolOutput::success(Json::Object(o)))
    }
}

proof fn lemma_ok_names_len(ts: Seq<DeviceInfo>, command: Seq<char>)
    ensures
        ok_names(ts, command).len() <= ts.len(),
    decreases ts.len(),
{
    if ts.len() > 0 {
        lemma_ok_names_len(ts.drop_last(), command);
    }
}

/// Devices that keep their ids keep the position of the first device with an id.
proof fn lemma_first_with_id_kept(a: Seq<DeviceInfo>, b: Seq<DeviceInfo>, id: Seq<char>)
    requires
        same_but_readings(a, b),
    ensures
        first_with_id(a, id) == first_with_id(b, id),
{
    assert(crate::tools::discovery::ids_of(a) =~= crate::tools::discovery::ids_of(b)) by {
        assert forall|j: int| 0 <= j < a.len() implies a[j].id@ == b[j].id@ by {
            assert(a[j].id == b[j].id);
        }
    }
}


fn is_switch(command: &str) -> (b: bool)
    ensures
        b == (command@ == "turn_on"@ || command@ == "turn_off"@),
{
    same_text(command, "turn_on") || same_text(command, "turn_off")
}

fn known(command: &str) -> (b: bool)
    ensures
        b == is_known(command@),
{
    is_switch(command) || same_text(command, "set_temperature") || same_text(command, "set_value")
        || same_text(command, "set_brightness")
}

/// The readings a command leaves on a device that has readings.
fn readings_for(device: &DeviceInfo, t: &Table<i64>, command: &str, nv: i64) -> (data: Table<i64>)
    requires
        device.latest_data == Some(*t),
        supports(*device, command@),
        is_known(command@),
    ensures
        readings_after(*device, command@, nv as int) == Some(data@),
{
    if is_switch(command) {
        let s: i64 = if same_text(command, "turn_on") { 1000 } else { 0 };
        let m = set_reading(t, "state", s);
        if same_text(device.device_type.as_str(), "AirConditioner") {
            set_reading(&m, "power_state", s)
        } else {
            m
        }
    } else if same_text(command, "set_temperature") {
        set_reading(t, "target_temp", nv)
    } else if same_text(command, "set_brightness") {
        set_reading(t, "brightness", nv)
    } else {
        t.duplicate()
    }
}

/// Stores the readings that the command leaves on the device in the registry.
fn update_readings(registry: &mut MockDeviceRegistry, device: &DeviceInfo, command: &str, nv: i64)
    ensures
        same_but_readings(old(registry).devices(), final(registry).devices()),
        readings_views(final(registry).devices()) == with_readings(
            old(registry).devices(),
            readings_views(old(registry).devices()),
            device.id@,
            readings_after(*device, command@, nv as int),
        ),
{
    let ghost ds = registry.devices();
    if !supported(device, command) || !known(command) {
        assert(readings_views(registry.devices()) =~= readings_views(ds));
        return;
    }
    match &device.latest_data {
        Some(t) => {
            let data = readings_for(device, t, command, nv);
            registry.update_device_data(device.id.as_str(), data);
            proof {
                let fs = registry.devices();
                crate::tools::discovery::lemma_first_index_range(crate::tools::discovery::ids_of(ds), device.id@);
                match first_with_id(ds, device.id@) {
                    Some(k) => {
                        assert(readings_views(fs) =~= readings_views(ds).update(k, Some(data@)));
                    },
                    None => {
                        assert(readings_views(fs) =~= readings_views(ds));
                    },
                }
            }
        },
        None => {
            assert(readings_views(registry.devices()) =~= readings_views(ds));
        },
    }
}

/// What the command does to the device, as reported.
fn control_outcome(device: &DeviceInfo, command: &str, nv: i64) -> (r: ControlResult)
    ensures
        is_control_result(r, *device, command@, nv as int),
{
    if !supported(device, command) {
        return ControlResult {
            device_id: device.id.clone(),
            device_name: device.name.clone(),
            success: false,
            error: Some(cat("设备不支持命令: ", command)),
            new_state: None,
        };
    }
    if !known(command) {
        return ControlResult {
            device_id: device.id.clone(),
            device_name: device.name.clone(),
            success: false,
            error: Some(cat("未知命令: ", command)),
            new_state: None,
        };
    }
    let state = if same_text(command, "turn_on") {
        power_json("on")
    } else if same_text(command, "turn_off") {
        power_json("off")
    } else {
        new_state_json(command, nv)
    };
    ControlResult {
        device_id: device.id.clone(),
        device_name: device.name.clone(),
        success: true,
        error: None,
        new_state: Some(state),
    }
}


/// One more target: its result extends the names of successes, and its
/// readings extend the readings of the registry.
proof fn lemma_step(
    ds: Seq<DeviceInfo>,
    before: Seq<DeviceInfo>,
    after: Seq<DeviceInfo>,
    ts: Seq<DeviceInfo>,
    i: int,
    c: Seq<char>,
    v: int,
    prev: Seq<ControlResult>,
    results: Seq<ControlResult>,
)
    requires
        0 <= i < ts.len(),
        results == prev.push(results.last()),
        is_control_result(results.last(), ts[i], c, v),
        succeeded_names(prev) == ok_names(ts.subrange(0, i), c),
        same_but_readings(ds, before),
        same_but_readings(before, after),
        readings_views(before) == after_controls(ds, ts.subrange(0, i), c, v),
        readings_views(after) == with_readings(before, readings_views(before), ts[i].id@, readings_after(ts[i], c, v)),
    ensures
        succeeded_names(results) == ok_names(ts.subrange(0, i + 1), c),
        ok_names(ts.subrange(0, i + 1), c).len() == ok_names(ts.subrange(0, i), c).len()
            + (if results.last().success { 1int } else { 0int }),
        same_but_readings(ds, after),
        readings_views(after) == after_controls(ds, ts.subrange(0, i + 1), c, v),
{
    assert(ts.subrange(0, i + 1).drop_last() =~= ts.subrange(0, i));
    assert(results.drop_last() =~= prev);
    lemma_first_with_id_kept(ds, before, ts[i].id@);
    assert forall|j: int| 0 <= j < ds.len() implies {
        &&& (#[trigger] ds[j]).id == after[j].id
        &&& ds[j].name == after[j].name
        &&& ds[j].device_type == after[j].device_type
        &&& ds[j].location == after[j].location
        &&& ds[j].status == after[j].status
        &&& ds[j].tags == after[j].tags
        &&& ds[j].capabilities == after[j].capabilities
    } by {
        assert(ds[j].id == before[j].id);
        assert(before[j].id == after[j].id);
    }
}


/// The scenarios in which `device.control` helps.
pub open spec fn control_scenarios() -> Seq<(Seq<char>, Seq<char>, Option<Seq<char>>)> {
    seq![
        ("用户打开单个设备"@, "打开客厅的灯"@, Some("device.control(\x7bdevice_id: 'light_living_main', command: 'turn_on'\x7d)"@)),
        ("用户批量控制"@, "打开所有灯"@, Some("device.control(\x7bfilter: \x7btype: 'light'\x7d, command: 'turn_on'\x7d)"@)),
        ("用户设置空调温度"@, "把空调设为26度"@, Some("device.control(\x7bdevice_id: 'ac_bedroom', command: 'set_temperature', value: \x7btemperature: 26\x7d\x7d)"@)),
    ]
}

impl DeviceControlTool {
    /// The name under which the model calls the tool.
    pub fn name(&self) -> (s: &'static str)
        ensures
            s@ == "device.control"@,
    {
        "device.control"
    }

    /// What the tool does, for the model.
    pub fn description(&self) -> (s: &'static str)
        ensures
            s@ == "控制单个或多个设备。支持通过设备ID、设备列表或过滤条件指定目标设备。支持的命令: - turn_on/toggle: 打开设备 - turn_off: 关闭设备 - set_temperature: 设置空调温度 - set_brightness: 设置灯光亮度 - set_value: 设置通用值 用法示例: - '打开客厅的灯' → 单设备控制 - '打开所有灯' → 批量控制 - '把空调设为26度' → 带参数控制"@,
    {
        "控制单个或多个设备。支持通过设备ID、设备列表或过滤条件指定目标设备。支持的命令: - turn_on/toggle: 打开设备 - turn_off: 关闭设备 - set_temperature: 设置空调温度 - set_brightness: 设置灯光亮度 - set_value: 设置通用值 用法示例: - '打开客厅的灯' → 单设备控制 - '打开所有灯' → 批量控制 - '把空调设为26度' → 带参数控制"
    }

    /// The category of the tool.
    pub fn category(&self) -> (c: ToolCategory)
        ensures
            c == ToolCategory::Device,
    {
        ToolCategory::Device
    }

    /// The schema of the arguments; only the command is required.
    pub fn parameters(&self) -> (j: Json)
        ensures
            requires_names(j, seq!["command"@]),
            j matches Json::Object(m) && m@.len() == 3 && m@[1].0@ == "properties"@
                && (m@[1].1 matches Json::Object(p) && p@.len() == 6
                    && p@[0].0@ == "device_id"@ && is_property(p@[0].1, "string"@, "单个设备ID (与device_ids/filter互斥)"@)
                    && p@[1].0@ == "device_ids"@ && p@[2].0@ == "filter"@
                    && p@[3].0@ == "command"@
                    && is_property(p@[3].1, "string"@, "控制命令：turn_on, turn_off, set_temperature, set_brightness, set_value"@)
                    && p@[4].0@ == "value"@ && p@[5].0@ == "parameters"@),
    {
        let mut filter_inner: Vec<(String, Json)> = Vec::new();
        filter_inner.push((owned("location"), string_property("位置过滤，如'客厅'")));
        filter_inner.push((owned("type"), string_property("设备类型过滤，如'light'")));
        let mut filter_props: Vec<(String, Json)> = Vec::new();
        filter_props.push((owned("description"), Json::Str(owned("过滤条件 (与device_id/device_ids互斥)"))));
        filter_props.push((owned("properties"), Json::Object(filter_inner)));
        let mut value_props: Vec<(String, Json)> = Vec::new();
        value_props.push((owned("description"), Json::Str(owned("命令值 (set_temperature/set_brightness等需要)"))));
        let mut param_props: Vec<(String, Json)> = Vec::new();
        param_props.push((owned("description"), Json::Str(owned("命令参数对象"))));
        let mut props: Vec<(String, Json)> = Vec::new();
        props.push((owned("device_id"), string_property("单个设备ID (与device_ids/filter互斥)")));
        props.push((owned("device_ids"), array_property("string", "多个设备ID列表 (与device_id/filter互斥)")));
        props.push((owned("filter"), object_schema(Json::Object(filter_props), Vec::new())));
        props.push((owned("command"), string_property("控制命令：turn_on, turn_off, set_temperature, set_brightness, set_value")));
        props.push((owned("value"), object_schema(Json::Object(value_props), Vec::new())));
        props.push((owned("parameters"), object_schema(Json::Object(param_props), Vec::new())));
        let mut required: Vec<String> = Vec::new();
        required.push(owned("command"));
        assert(required@.map_values(|s: String| s@) =~= seq!["command"@]);
        object_schema(Json::Object(props), required)
    }

    /// The situations in which the tool helps.
    pub fn scenarios(&self) -> (v: Vec<UsageScenario>)
        ensures
            v@.map_values(|u: UsageScenario| scenario_view(u)) == control_scenarios(),
    {
        let mut v: Vec<UsageScenario> = Vec::new();
        v.push(scenario("用户打开单个设备", "打开客厅的灯", "device.control(\x7bdevice_id: 'light_living_main', command: 'turn_on'\x7d)"));
        v.push(scenario("用户批量控制", "打开所有灯", "device.control(\x7bfilter: \x7btype: 'light'\x7d, command: 'turn_on'\x7d)"));
        v.push(scenario("用户设置空调温度", "把空调设为26度", "device.control(\x7bdevice_id: 'ac_bedroom', command: 'set_temperature', value: \x7btemperature: 26\x7d\x7d)"));
        assert(v@.map_values(|u: UsageScenario| scenario_view(u)) =~= control_scenarios());
        v
    }
}

impl Default for DeviceControlTool {
    fn default() -> (t: Self)
        ensures
            t.registry.devices().len() == 7,
            forall|i: int| 0 <= i < 7 ==> is_mock_device(#[trigger] t.registry.devices()[i], i),
    {
        Self::mock()
    }
}

} // verus!
