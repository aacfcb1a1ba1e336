use neotalk_edge::json::Json;
use neotalk_edge::tools::alerts::{AcknowledgeAlertTool, CreateAlertTool, ListAlertsTool};
use neotalk_edge::tools::config::{get_nested_value, set_nested_value, SystemConfigTool};
use neotalk_edge::tools::error::ToolError;
use neotalk_edge::tools::system::{AlertInfo, AlertSeverity};

fn s(x: &str) -> Json {
    Json::Str(x.to_string())
}

fn obj(members: Vec<(&str, Json)>) -> Json {
    Json::Object(members.into_iter().map(|(k, v)| (k.to_string(), v)).collect())
}

fn at<'a>(j: &'a Json, key: &str) -> &'a Json {
    j.get(key).expect("member present")
}

#[test]
fn test_system_config_tool() {
    let mut tool = SystemConfigTool::with_config(obj(vec![("llm", obj(vec![("model", s("qwen3-vl:2b"))]))]));
    let result = tool.execute(&obj(vec![("operation", s("get")), ("key", s("llm.model"))])).ok().unwrap();
    assert!(result.success);
    assert_eq!(at(&result.data, "value"), &s("qwen3-vl:2b"));

    let set = obj(vec![("operation", s("set")), ("key", s("test.value")), ("value", s("hello"))]);
    assert!(tool.can_set("test.value"));
    let result = tool.execute(&set).ok().unwrap();
    assert!(result.success);
    assert_eq!(at(&result.data, "message"), &s("Configuration 'test.value' updated successfully"));

    let result = tool.execute(&obj(vec![("operation", s("list"))])).ok().unwrap();
    assert!(result.success);
    let config = at(&result.data, "config");
    assert_eq!(get_nested_value(config, "test.value"), s("hello"));
    assert_eq!(get_nested_value(config, "llm.model"), s("qwen3-vl:2b"));
}

#[test]
fn config_get_after_set_and_errors() {
    let mut tool = SystemConfigTool::new();
    let set = obj(vec![("operation", s("set")), ("key", s("mqtt.port")), ("value", Json::Int(1883))]);
    tool.execute(&set).ok().unwrap();
    let got = tool.execute(&obj(vec![("operation", s("get")), ("key", s("mqtt.port"))])).ok().unwrap();
    assert_eq!(at(&got.data, "value"), &Json::Int(1883));
    let missing = tool.execute(&obj(vec![("operation", s("get")), ("key", s("mqtt.host"))])).ok().unwrap();
    assert_eq!(at(&missing.data, "value"), &Json::Null);
    match tool.execute(&obj(vec![("operation", s("drop"))])) {
        Err(ToolError::InvalidArguments(m)) => assert_eq!(m, "Unknown operation: drop. Must be get, set, list, or reset"),
        _ => panic!("expected an argument error"),
    }
    match tool.execute(&obj(vec![])) {
        Err(ToolError::InvalidArguments(m)) => assert_eq!(m, "operation is required"),
        _ => panic!("expected an argument error"),
    }
    tool.execute(&obj(vec![("operation", s("reset"))])).ok().unwrap();
    assert_eq!(tool.get_config(), obj(vec![]));
}

#[test]
fn nested_values() {
    let c = obj(vec![("a", Json::Int(5))]);
    // Through a number nothing can be set deeper than one level.
    let t = SystemConfigTool::with_config(c);
    assert!(t.can_set("a.b"));
    assert!(!t.can_set("a.b.c"));
    let c = set_nested_value(obj(vec![("a", Json::Int(5))]), "a.b", Json::Int(1));
    assert_eq!(c, obj(vec![("a", Json::Int(5))]));
    let c = set_nested_value(obj(vec![]), "x.y.z", Json::Bool(true));
    assert_eq!(get_nested_value(&c, "x.y.z"), Json::Bool(true));
    assert_eq!(get_nested_value(&c, "x.y"), obj(vec![("z", Json::Bool(true))]));
}

#[test]
fn test_create_alert_tool() {
    let mut tool = CreateAlertTool::new();
    let result = tool
        .execute(&obj(vec![("title", s("Test Alert")), ("message", s("This is a test")), ("severity", s("warning"))]))
        .ok()
        .unwrap();
    assert!(result.success);
    let Json::Str(id) = at(&result.data, "id") else { panic!("id must be a string") };
    assert!(id.starts_with("alert_"));
    assert_eq!(id.len(), 38);
    let alerts = tool.get_alerts();
    assert_eq!(alerts.len(), 1);
    assert_eq!(alerts[0].severity, AlertSeverity::Warning);
    match tool.execute(&obj(vec![("title", s("t"))])) {
        Err(ToolError::InvalidArguments(m)) => assert_eq!(m, "message is required"),
        _ => panic!("expected an argument error"),
    }
}

fn alert(id: &str, severity: AlertSeverity, acknowledged: bool) -> AlertInfo {
    AlertInfo {
        id: id.to_string(),
        title: "Test".to_string(),
        message: "Test message".to_string(),
        severity,
        created_at: 0,
        acknowledged,
        acknowledged_by: None,
        acknowledged_at: None,
    }
}

#[test]
fn test_list_alerts_tool() {
    let tool = ListAlertsTool::new();
    let result = tool.execute(&obj(vec![])).ok().unwrap();
    assert!(result.success);
    assert_eq!(at(&result.data, "count"), &Json::Int(0));
}

#[test]
fn list_alerts_filters() {
    let tool = ListAlertsTool::with_alerts(vec![
        alert("a1", AlertSeverity::Warning, false),
        alert("a2", AlertSeverity::Info, true),
        alert("a3", AlertSeverity::Critical, false),
    ]);
    // A severity filter keeps the alerts of other severities.
    let r = tool.execute(&obj(vec![("severity", s("warning"))])).ok().unwrap();
    assert_eq!(at(&r.data, "count"), &Json::Int(2));
    let r = tool.execute(&obj(vec![("acknowledged", Json::Bool(false)), ("limit", Json::Int(1))])).ok().unwrap();
    assert_eq!(at(&r.data, "count"), &Json::Int(1));
    let Json::Array(items) = at(&r.data, "alerts") else { panic!("array") };
    assert_eq!(at(&items[0], "id"), &s("a1"));
    assert_eq!(at(&items[0], "severity"), &s("warning"));
}

#[test]
fn test_acknowledge_alert_tool() {
    let mut tool = AcknowledgeAlertTool::with_alerts(vec![alert("test_alert", AlertSeverity::Info, false)]);
    let result = tool.execute(&obj(vec![("alert_id", s("test_alert")), ("acknowledged_by", s("admin"))])).ok().unwrap();
    assert!(result.success);
    assert!(tool.alerts[0].acknowledged);
    assert_eq!(tool.alerts[0].acknowledged_by, Some("admin".to_string()));
    let missing = tool.execute(&obj(vec![("alert_id", s("nope"))])).ok().unwrap();
    assert!(!missing.success);
    assert_eq!(missing.error, Some("Alert 'nope' not found".to_string()));
}
