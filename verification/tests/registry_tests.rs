use neotalk_edge::json::Json;
use neotalk_edge::tools::error::ToolError;
use neotalk_edge::tools::registry::{missing_tool, ToolCall, ToolRegistry};

#[test]
fn test_tool_call() {
    let call = ToolCall::new(
        "test_tool",
        Json::Object(vec![("key".to_string(), Json::Str("value".to_string()))]),
    )
    .with_id("call_123");
    assert_eq!(call.name, "test_tool");
    assert_eq!(call.id, Some("call_123".to_string()));
}

fn sample() -> ToolRegistry<u32> {
    let mut r = ToolRegistry::new();
    r.register("list_devices", "List all devices", 1);
    r.register("query_data", "Query device data", 2);
    r.register("device_control", "Control a DEVICE", 3);
    r.register("create_rule", "Create a rule", 4);
    r
}

#[test]
fn registry_register_get_unregister() {
    let mut r = sample();
    assert_eq!(r.len(), 4);
    assert!(r.has("query_data"));
    assert_eq!(r.get("create_rule"), Some(&4));
    r.register("create_rule", "Create a rule again", 5);
    assert_eq!(r.len(), 4);
    assert_eq!(r.get("create_rule"), Some(&5));
    assert!(r.unregister("create_rule"));
    assert!(!r.unregister("create_rule"));
    assert!(r.get("create_rule").is_none());
    assert_eq!(r.list(), vec!["list_devices".to_string(), "query_data".to_string(), "device_control".to_string()]);
    let empty: ToolRegistry<u32> = ToolRegistry::default();
    assert!(empty.is_empty());
}

#[test]
fn registry_search_ignores_case() {
    let r = sample();
    let found: Vec<u32> = r.search("device").into_iter().copied().collect();
    assert_eq!(found, vec![1, 2, 3]);
    let found: Vec<u32> = r.search("RULE").into_iter().copied().collect();
    assert_eq!(found, vec![4]);
    let found: Vec<u32> = r.search_with_category("device", Some("DEVICE")).into_iter().copied().collect();
    assert_eq!(found, vec![3]);
    assert!(r.search("nothing").is_empty());
}

#[test]
fn registry_categories() {
    let mut r = sample();
    r.register("get_device_type_schema", "schema", 6);
    r.register("ab_c", "short prefix", 7);
    let expected: Vec<String> = ["control", "create", "data", "device", "get", "list", "query", "rule", "schema", "type"]
        .iter()
        .map(|s| s.to_string())
        .collect();
    assert_eq!(r.categories(), expected);
}

#[test]
fn categories_of_documented_example() {
    let mut r = ToolRegistry::new();
    r.register("list_devices", "List devices", 1u32);
    r.register("get_device", "Get a device", 2u32);
    assert_eq!(r.categories(), vec!["device".to_string(), "get".to_string(), "list".to_string()]);
}

#[test]
fn missing_tool_result() {
    let r = missing_tool("unknown_tool");
    assert_eq!(r.name, "unknown_tool");
    match r.result {
        Err(ToolError::NotFound(m)) => assert_eq!(m, "unknown_tool"),
        _ => panic!("expected not found"),
    }
}
