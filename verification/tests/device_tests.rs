use neotalk_edge::json::Json;
use neotalk_edge::table::Table;
use neotalk_edge::text::{milli_string, parse_milli_text};
use neotalk_edge::tools::control::{generate_confirmation, BatchControlResult, ControlResult, DeviceControlTool};
use neotalk_edge::tools::discovery::{discover, group_devices, DeviceDiscoverTool, MockDeviceRegistry};
use neotalk_edge::tools::error::ToolError;

fn s(x: &str) -> Json {
    Json::Str(x.to_string())
}

fn obj(members: Vec<(&str, Json)>) -> Json {
    Json::Object(members.into_iter().map(|(k, v)| (k.to_string(), v)).collect())
}

fn at<'a>(j: &'a Json, path: &[&str]) -> &'a Json {
    let mut cur = j;
    for p in path {
        cur = cur.get(p).expect("member present");
    }
    cur
}

fn reading(reg: &MockDeviceRegistry, id: &str, key: &str) -> Option<i64> {
    let d = reg.find_by_id(id).expect("device present");
    d.latest_data.as_ref().and_then(|t| t.get(key).copied())
}

#[test]
fn test_device_discover_all() {
    let tool = DeviceDiscoverTool::new(MockDeviceRegistry::new());
    let result = tool.execute(&obj(vec![])).ok().unwrap();
    assert!(result.success);
    let data = &result.data;
    assert_eq!(at(data, &["summary", "total"]), &Json::Int(7));
    assert_eq!(at(data, &["summary", "online"]), &Json::Int(6));
    assert_eq!(at(data, &["summary", "offline"]), &Json::Int(1));
    assert_eq!(at(data, &["filter_applied"]), &Json::Bool(false));
    // One group of all devices by default.
    match at(data, &["groups"]) {
        Json::Array(gs) => {
            assert_eq!(gs.len(), 1);
            assert_eq!(at(&gs[0], &["name"]), &s("所有设备"));
            assert_eq!(at(&gs[0], &["count"]), &Json::Int(7));
        }
        _ => panic!("groups must be an array"),
    }
    assert_eq!(at(data, &["summary", "by_type", "DHT22"]), &Json::Int(3));
    assert_eq!(at(data, &["summary", "by_location", "客厅"]), &Json::Int(2));
}

#[test]
fn test_device_discover_filter_by_location() {
    let tool = DeviceDiscoverTool::mock();
    let args = obj(vec![("filter", obj(vec![("location", s("客厅"))])), ("group_by", s("type"))]);
    let result = tool.execute(&args).ok().unwrap();
    assert!(result.success);
    let data = &result.data;
    match at(data, &["groups"]) {
        Json::Array(gs) => {
            assert!(!gs.is_empty());
            // Two types in the living room, in ascending order of name.
            assert_eq!(gs.len(), 2);
            assert_eq!(at(&gs[0], &["name"]), &s("DHT22"));
            assert_eq!(at(&gs[1], &["name"]), &s("SmartBulb"));
        }
        _ => panic!("groups must be an array"),
    }
    assert_eq!(at(data, &["filter_applied"]), &Json::Bool(true));
    assert_eq!(at(data, &["summary", "total"]), &Json::Int(2));
}

#[test]
fn discover_without_data_or_capabilities() {
    let reg = MockDeviceRegistry::new();
    let args = obj(vec![
        ("filter", obj(vec![("tags", Json::Array(vec![s("sensor"), s("temperature")]))])),
        ("include_data_preview", Json::Bool(false)),
        ("include_capabilities", Json::Bool(false)),
    ]);
    let out = discover(reg.device_list(), &args);
    let groups = at(&out.data, &["groups"]);
    let Json::Array(gs) = groups else { panic!("array") };
    let Json::Array(ds) = at(&gs[0], &["devices"]) else { panic!("array") };
    assert_eq!(ds.len(), 3);
    assert_eq!(at(&ds[0], &["latest_data"]), &Json::Null);
    assert_eq!(at(&ds[0], &["capabilities", "metrics"]), &Json::Array(vec![]));
}

#[test]
fn discover_shows_readings_as_decimals() {
    let reg = MockDeviceRegistry::new();
    let args = obj(vec![("filter", obj(vec![("name_contains", s("客厅温度"))]))]);
    let out = discover(reg.device_list(), &args);
    let Json::Array(gs) = at(&out.data, &["groups"]) else { panic!("array") };
    let Json::Array(ds) = at(&gs[0], &["devices"]) else { panic!("array") };
    assert_eq!(ds.len(), 1);
    assert_eq!(at(&ds[0], &["latest_data", "temperature"]), &Json::Real("26.5".to_string()));
    assert_eq!(at(&ds[0], &["latest_data", "humidity"]), &Json::Real("60.0".to_string()));
}

#[test]
fn grouping_by_status_and_location() {
    let reg = MockDeviceRegistry::new();
    let all = reg.get_all();
    let by_status = group_devices(&all, "status");
    let names: Vec<&str> = by_status.iter().map(|g| g.name.as_str()).collect();
    assert_eq!(names, vec!["在线", "离线"]);
    assert_eq!(by_status[0].count, 6);
    assert_eq!(by_status[1].devices[0].id, "light_bathroom");
    let by_location = group_devices(&all, "location");
    assert_eq!(by_location.len(), 4);
    let other = group_devices(&all, "color");
    assert_eq!(other.len(), 1);
    assert_eq!(other[0].name, "其他");
    let none = group_devices(&[], "type");
    assert_eq!(none.len(), 1);
    assert_eq!(none[0].name, "所有设备");
    assert_eq!(none[0].count, 0);
}

#[test]
fn registry_lookups() {
    let reg = MockDeviceRegistry::default();
    assert_eq!(reg.get_all().len(), 7);
    assert_eq!(reg.find_by_location("卧室").len(), 2);
    assert_eq!(reg.find_by_type("SmartBulb").len(), 3);
    assert_eq!(reg.find_by_tag("sensor").len(), 3);
    assert!(reg.find_by_id("missing").is_none());
    assert_eq!(reg.find_by_id("ac_bedroom").unwrap().name, "卧室空调");
}

#[test]
fn update_device_data_replaces_readings() {
    let mut reg = MockDeviceRegistry::new();
    let mut t: Table<i64> = Table::new();
    t.insert("temperature".to_string(), 30000);
    reg.update_device_data("sensor_temp_kitchen", t);
    assert_eq!(reading(&reg, "sensor_temp_kitchen", "temperature"), Some(30000));
    reg.update_device_data("missing", Table::new());
    assert_eq!(reg.get_all().len(), 7);
}

#[test]
fn test_device_control_single_device() {
    let mut tool = DeviceControlTool::new(MockDeviceRegistry::new());
    let args = obj(vec![("device_id", s("light_living_main")), ("command", s("turn_on"))]);
    let result = tool.execute(&args).ok().unwrap();
    assert!(result.success);
    let data = &result.data;
    assert_eq!(at(data, &["successful"]), &Json::Int(1));
    let Json::Str(confirmation) = at(data, &["confirmation"]) else { panic!("text") };
    assert!(confirmation.contains("打开"));
    assert_eq!(confirmation, "✓ 已打开客厅主灯");
    assert_eq!(reading(&tool.registry, "light_living_main", "state"), Some(1000));
}

#[test]
fn test_device_control_batch() {
    let mut tool = DeviceControlTool::mock();
    let args = obj(vec![("device_id", s("light")), ("command", s("turn_on"))]);
    let result = tool.execute(&args).ok().unwrap();
    assert!(result.success);
    // No id equals "light" and no name contains it: every device is a target.
    assert_eq!(at(&result.data, &["total_targets"]), &Json::Int(7));
    assert_eq!(at(&result.data, &["successful"]), &Json::Int(4));
    assert_eq!(at(&result.data, &["failed"]), &Json::Int(3));
}

#[test]
fn control_sets_temperature_and_reports_errors() {
    let mut tool = DeviceControlTool::default();
    let args = obj(vec![
        ("device_id", s("ac_bedroom")),
        ("command", s("set_temperature")),
        ("value", Json::Int(26)),
    ]);
    let result = tool.execute(&args).ok().unwrap();
    let Json::Array(rs) = at(&result.data, &["results"]) else { panic!("array") };
    assert_eq!(at(&rs[0], &["new_state", "set_temperature"]), &Json::Real("26.0".to_string()));
    assert_eq!(reading(&tool.registry, "ac_bedroom", "target_temp"), Some(26000));

    // A value under the parameters, given as a decimal.
    let args = obj(vec![
        ("device_id", s("light_living_main")),
        ("command", s("set_brightness")),
        ("parameters", obj(vec![("value", Json::Real("42.5".to_string()))])),
    ]);
    tool.execute(&args).ok().unwrap();
    assert_eq!(reading(&tool.registry, "light_living_main", "brightness"), Some(42500));

    // A sensor does not switch.
    let args = obj(vec![("device_id", s("sensor_temp_living")), ("command", s("turn_on"))]);
    let result = tool.execute(&args).ok().unwrap();
    let Json::Array(rs) = at(&result.data, &["results"]) else { panic!("array") };
    assert_eq!(at(&rs[0], &["error"]), &s("设备不支持命令: turn_on"));
    assert_eq!(at(&result.data, &["confirmation"]), &s("❌ 控制失败，没有成功执行任何设备"));

    // The air conditioner switches its power too.
    let args = obj(vec![("device_id", s("ac_bedroom")), ("command", s("turn_on"))]);
    tool.execute(&args).ok().unwrap();
    assert_eq!(reading(&tool.registry, "ac_bedroom", "power_state"), Some(1000));
}

#[test]
fn control_without_command_fails() {
    let mut tool = DeviceControlTool::mock();
    match tool.execute(&obj(vec![("device_id", s("ac_bedroom"))])) {
        Err(ToolError::InvalidArguments(m)) => assert_eq!(m, "command is required"),
        _ => panic!("expected an argument error"),
    }
}

#[test]
fn control_targets_by_filter_and_ids() {
    let tool = DeviceControlTool::mock();
    let by_filter = obj(vec![("filter", obj(vec![("location", s("厨房"))])), ("command", s("turn_off"))]);
    assert_eq!(tool.find_targets(&by_filter).ok().unwrap().len(), 2);
    let by_ids = obj(vec![("device_ids", Json::Array(vec![s("ac_bedroom"), s("浴室")])), ("command", s("turn_off"))]);
    assert_eq!(tool.find_targets(&by_ids).ok().unwrap().len(), 2);
    let empty = DeviceControlTool::new(MockDeviceRegistry::new());
    assert_eq!(empty.find_targets(&obj(vec![])).ok().unwrap().len(), 7);
}

fn ok_result(name: &str) -> ControlResult {
    ControlResult {
        device_id: name.to_string(),
        device_name: name.to_string(),
        success: true,
        error: None,
        new_state: None,
    }
}

#[test]
fn confirmation_messages() {
    let batch = |results: Vec<ControlResult>| BatchControlResult {
        command: "turn_on".to_string(),
        total_targets: results.len(),
        successful: results.iter().filter(|r| r.success).count(),
        failed: 0,
        results,
        confirmation: String::new(),
    };
    // Several locations: the names are listed.
    let b = batch(vec![ok_result("Lamp Kitchen"), ok_result("Lamp Hall")]);
    assert_eq!(generate_confirmation(&b), "✓ 已打开2个设备: Lamp Kitchen、Lamp Hall");
    // One location: it is named.
    let b = batch(vec![ok_result("Lamp Kitchen"), ok_result("Fan Kitchen")]);
    assert_eq!(generate_confirmation(&b), "✓ 已打开Kitchen的2个设备");
    // No location at all.
    let b = batch(vec![ok_result("灯一"), ok_result("灯二")]);
    assert_eq!(generate_confirmation(&b), "✓ 已打开的2个设备");
}

#[test]
fn decimal_thousandths() {
    assert_eq!(milli_string(26500), "26.5");
    assert_eq!(milli_string(60000), "60.0");
    assert_eq!(milli_string(-1), "-0.001");
    assert_eq!(milli_string(0), "0.0");
    assert_eq!(milli_string(1230), "1.23");
    assert_eq!(parse_milli_text("26.5"), Some(26500));
    assert_eq!(parse_milli_text("-3"), Some(-3000));
    assert_eq!(parse_milli_text("1.23456"), Some(1234));
    assert_eq!(parse_milli_text("1."), Some(1000));
    assert_eq!(parse_milli_text(".5"), Some(500));
    assert_eq!(parse_milli_text("."), None);
    assert_eq!(parse_milli_text("1e3"), None);
    assert_eq!(parse_milli_text("+1"), None);
}
