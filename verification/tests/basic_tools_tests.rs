use neotalk_edge::json::Json;
use neotalk_edge::tools::basic::{ControlDeviceTool, CreateRuleTool, ListDevicesTool, ListRulesTool, QueryDataTool};
use neotalk_edge::tools::error::ToolError;

fn s(x: &str) -> Json {
    Json::Str(x.to_string())
}

fn obj(members: Vec<(&str, Json)>) -> Json {
    Json::Object(members.into_iter().map(|(k, v)| (k.to_string(), v)).collect())
}

fn items(j: &Json) -> &Vec<Json> {
    match j {
        Json::Array(v) => v,
        _ => panic!("not an array"),
    }
}

#[test]
fn test_query_data_tool() {
    let tool = QueryDataTool::mock();
    let args = obj(vec![("device_id", s("sensor_1")), ("metric", s("temperature"))]);
    let result = tool.run(&args).ok().unwrap();
    assert!(result.success);
    assert!(matches!(result.data.get("data"), Some(Json::Array(_))));
}

#[test]
fn query_data_over_a_window() {
    let tool = QueryDataTool::mock();
    let args = obj(vec![("device_id", s("sensor_1")), ("end_time", Json::Int(100000)), ("limit", Json::Int(3))]);
    let result = tool.query_at(&args, 5).ok().unwrap();
    assert_eq!(result.data.get("start_time"), Some(&Json::Int(100000 - 86400)));
    assert_eq!(result.data.get("end_time"), Some(&Json::Int(100000)));
    assert_eq!(result.data.get("metric"), Some(&Json::Null));
    assert_eq!(result.data.get("count"), Some(&Json::Int(3)));
    let data = items(result.data.get("data").unwrap());
    assert_eq!(data.len(), 3);
    assert_eq!(data[1].get("metric"), Some(&s("humidity")));
    assert_eq!(data[1].get("value"), Some(&Json::Real("60.0".to_string())));
    assert_eq!(data[2].get("value"), Some(&Json::Real("27.5".to_string())));
    assert_eq!(data[2].get("quality"), Some(&Json::Real("1.0".to_string())));
    assert_eq!(result.metadata.unwrap().get("query_type"), Some(&s("time_series_range")));

    let defaulted = tool.query_at(&obj(vec![("device_id", s("d"))]), 1000000).ok().unwrap();
    assert_eq!(defaulted.data.get("end_time"), Some(&Json::Int(1000000)));
    assert_eq!(defaulted.data.get("start_time"), Some(&Json::Int(1000000 - 86400)));

    match tool.query_at(&obj(vec![]), 5) {
        Err(ToolError::InvalidArguments(m)) => assert_eq!(m, "Missing required parameter: device_id"),
        _ => panic!("device_id is required"),
    }
    match tool.query_at(&obj(vec![("device_id", Json::Int(1))]), 5) {
        Err(ToolError::InvalidArguments(m)) => assert_eq!(m, "device_id must be a string"),
        _ => panic!("device_id must be text"),
    }
}

#[test]
fn test_control_device_tool() {
    let tool = ControlDeviceTool::mock();
    let args = obj(vec![("device_id", s("actuator_1")), ("command", s("turn_on"))]);
    let result = tool.run(&args).ok().unwrap();
    assert!(result.success);
    assert_eq!(result.data.get("status"), Some(&s("success")));
    assert_eq!(result.data.get("command"), Some(&s("turn_on")));
    assert!(tool.run(&obj(vec![("device_id", s("actuator_1"))])).is_err());
}

#[test]
fn test_list_devices_tool() {
    let tool = ListDevicesTool::mock();
    let result = tool.run(&obj(vec![])).ok().unwrap();
    assert!(result.success);
    assert_eq!(result.data.get("count"), Some(&Json::Int(2)));
    assert_eq!(result.metadata.unwrap().get("filtered"), Some(&Json::Bool(false)));
}

#[test]
fn list_devices_by_type() {
    let tool = ListDevicesTool::mock();
    let result = tool.run(&obj(vec![("filter_type", s("Relay"))])).ok().unwrap();
    assert_eq!(result.data.get("count"), Some(&Json::Int(1)));
    let devices = items(result.data.get("devices").unwrap());
    assert_eq!(devices[0].get("id"), Some(&s("actuator_1")));
    assert_eq!(devices[0].get("metrics_summary"), Some(&Json::Array(vec![s("state")])));
    assert_eq!(result.metadata.unwrap().get("filtered"), Some(&Json::Bool(true)));
    let none = tool.run(&obj(vec![("filter_status", s("offline"))])).ok().unwrap();
    assert_eq!(none.data.get("count"), Some(&Json::Int(0)));
}

#[test]
fn test_create_rule_tool() {
    let tool = CreateRuleTool::mock();
    let args = obj(vec![("name", s("Test Rule")), ("dsl", s("RULE \"Test\" WHEN temp > 50 DO NOTIFY \"Hot\" END"))]);
    let result = tool.run(&args).ok().unwrap();
    assert!(result.success);
    match result.data.get("rule_id") {
        Some(Json::Str(id)) => {
            assert!(id.starts_with("rule_"));
            assert_eq!(id.len(), 41);
        }
        _ => panic!("rule_id is a string"),
    }
    assert_eq!(result.data.get("status"), Some(&s("created")));
}

#[test]
fn test_list_rules_tool() {
    let tool = ListRulesTool::mock();
    let result = tool.run(&obj(vec![])).ok().unwrap();
    assert!(result.success);
    let rules = items(result.data.get("rules").unwrap());
    assert_eq!(rules.len(), 1);
    assert_eq!(rules[0].get("trigger_count"), Some(&Json::Int(5)));
    let enabled = tool.run(&obj(vec![("filter_enabled", Json::Bool(true))])).ok().unwrap();
    assert_eq!(enabled.data.get("count"), Some(&Json::Int(1)));
}
