use neotalk_edge::json::Json;
use neotalk_edge::tools::error::ToolError;
use neotalk_edge::tools::rule_context::RuleFromContextTool;

fn args(description: &str) -> Json {
    Json::Object(vec![("description".to_string(), Json::Str(description.to_string()))])
}

fn at<'a>(j: &'a Json, path: &[&str]) -> &'a Json {
    let mut cur = j;
    for p in path {
        cur = cur.get(p).expect("member present");
    }
    cur
}

fn number(j: &Json) -> f64 {
    match j {
        Json::Real(t) => t.parse().unwrap(),
        Json::Int(i) => *i as f64,
        _ => panic!("not a number"),
    }
}

#[test]
fn test_rule_from_context_simple() {
    let tool = RuleFromContextTool::mock();
    let result = tool.execute(&args("温度超过50度时告警")).ok().unwrap();
    assert!(result.success);
    let data = &result.data;
    assert_eq!(at(data, &["rule", "metric"]), &Json::Str("temperature".to_string()));
    assert_eq!(at(data, &["rule", "condition", "operator"]), &Json::Str(">".to_string()));
    assert_eq!(number(at(data, &["rule", "condition", "threshold"])), 50.0);
    let Json::Str(dsl) = at(data, &["rule", "dsl"]) else { panic!("text") };
    assert!(dsl.contains("RULE"));
    assert_eq!(
        dsl,
        "RULE \"temperature超过50告警\"\nWHEN sensor_temp_living.temperature > 50\nDO\n  NOTIFY \"规则触发告警\"\nEND"
    );
    assert!(number(at(data, &["confidence"])) > 0.5);
}

#[test]
fn test_rule_from_context_with_duration() {
    let tool = RuleFromContextTool::mock();
    let result = tool.execute(&args("温度持续5分钟超过30度时开风扇")).ok().unwrap();
    assert!(result.success);
    let data = &result.data;
    assert_eq!(number(at(data, &["rule", "condition", "threshold"])), 30.0);
    assert_eq!(at(data, &["rule", "condition", "for_duration"]), &Json::Int(300));
    let Json::Array(actions) = at(data, &["rule", "actions"]) else { panic!("array") };
    assert!(actions.iter().any(|a| at(a, &["action_type"]) == &Json::Str("execute".to_string())));
    let Json::Str(dsl) = at(data, &["rule", "dsl"]) else { panic!("text") };
    assert!(dsl.contains("FOR 5 minutes\n"));
    assert!(dsl.contains("  EXECUTE fan_living.turn_on\n"));
}

#[test]
fn test_rule_from_context_humidity() {
    let tool = RuleFromContextTool::default();
    let result = tool.execute(&args("湿度低于30%时告警并开启加湿器")).ok().unwrap();
    assert!(result.success);
    let data = &result.data;
    assert_eq!(at(data, &["rule", "metric"]), &Json::Str("humidity".to_string()));
    assert_eq!(at(data, &["rule", "condition", "operator"]), &Json::Str("<".to_string()));
    assert_eq!(number(at(data, &["rule", "condition", "threshold"])), 30.0);
}

#[test]
fn rule_from_context_parts() {
    let tool = RuleFromContextTool::mock();
    assert_eq!(tool.extract_threshold("温度超过26.5度"), 26500);
    assert_eq!(tool.extract_threshold("没有数字"), 50000);
    assert_eq!(tool.extract_threshold("第3个 超过"), 3000);
    assert_eq!(tool.extract_operator("至少20度"), ">=");
    assert_eq!(tool.extract_duration("持续2小时"), Some(7200));
    assert_eq!(tool.extract_duration("持续一会"), Some(300));
    assert_eq!(tool.extract_duration("温度高"), None);
    assert_eq!(tool.generate_rule_name("temperature", 26500, "<="), "temperature不超过26.5告警");
    let (device, metric) = tool.extract_device_metric("CO2太高");
    assert_eq!((device.as_str(), metric.as_str()), ("sensor_co2_living", "co2"));
    let actions = tool.extract_actions("温度高时关窗");
    assert_eq!(actions.len(), 1);
    assert_eq!(actions[0].action_type, "execute");
}

#[test]
fn rule_from_context_context_devices_and_errors() {
    let tool = RuleFromContextTool::mock();
    let a = Json::Object(vec![
        ("description".to_string(), Json::Str("温度超过50度时告警".to_string())),
        ("context_devices".to_string(), Json::Array(vec![Json::Str("other".to_string())])),
    ]);
    let result = tool.execute(&a).ok().unwrap();
    assert_eq!(number(at(&result.data, &["confidence"])), 0.7);
    let Json::Array(missing) = at(&result.data, &["missing_info"]) else { panic!("array") };
    assert_eq!(missing[0], Json::Str("警告: 指定设备 'sensor_temp_living' 不在上下文设备列表中".to_string()));
    match tool.execute(&Json::Object(vec![])) {
        Err(ToolError::InvalidArguments(m)) => assert_eq!(m, "Missing required parameter: description"),
        _ => panic!("expected an argument error"),
    }
    match tool.execute(&Json::Object(vec![("description".to_string(), Json::Int(1))])) {
        Err(ToolError::InvalidArguments(m)) => assert_eq!(m, "description must be a string"),
        _ => panic!("expected an argument error"),
    }
}
