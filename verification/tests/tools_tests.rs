use neotalk_edge::json::Json;
use neotalk_edge::tools::catalog::{format_for_llm, ToolCategory, ToolDefinition, ToolRelationships};
use neotalk_edge::tools::simplified::{format_tools_for_llm, ErrorMessages, SimplifiedConfig};
use neotalk_edge::tools::tool::{number_property, object_schema, string_property, Parameter, ToolOutput};
use neotalk_edge::tools::VERSION;

#[test]
fn lib_test_version() {
    assert!(!VERSION.is_empty());
}

#[test]
fn test_format_tools_for_llm() {
    let prompt = format_tools_for_llm();
    assert!(prompt.contains("device.discover") || prompt.contains("list_devices"));
    assert!(prompt.contains("device.query") || prompt.contains("query_data"));
    assert!(prompt.contains("device.control") || prompt.contains("control_device"));
    assert!(prompt.contains("create_rule"));
}

#[test]
fn test_friendly_error() {
    let err = ErrorMessages::device_not_found("sensor_1");
    assert_eq!(err.message, "找不到设备 'sensor_1'");
    assert_eq!(err.suggestions.len(), 3);
    assert!(!err.is_warning);
}

#[test]
fn test_friendly_warning() {
    let err = ErrorMessages::no_data_available("sensor_1");
    assert!(err.is_warning);
}

#[test]
fn test_simplified_config() {
    let config = SimplifiedConfig::new("test_tool")
        .with_description("A test tool")
        .with_alias("测试工具")
        .with_required_param("input")
        .with_example("test_tool(input='hello')");
    assert_eq!(config.name, "test_tool");
    assert_eq!(config.description, "A test tool");
    assert_eq!(config.aliases.len(), 1);
    assert_eq!(config.required_params.len(), 1);
    assert_eq!(config.examples.len(), 1);
}

#[test]
fn test_tool_output() {
    let output = ToolOutput::success(Json::Str("test data".to_string()));
    assert!(output.success);
    assert_eq!(output.data, Json::Str("test data".to_string()));
    assert!(output.error.is_none());
    let err_output = ToolOutput::error("Something went wrong");
    assert!(!err_output.success);
    assert_eq!(err_output.error, Some("Something went wrong".to_string()));
}

#[test]
fn test_parameter_builder() {
    let param = Parameter::new("test_param", "string", "A test parameter")
        .required()
        .with_default(Json::Str("default_value".to_string()));
    assert_eq!(param.name, "test_param");
    assert_eq!(param.param_type, "string");
    assert!(param.required);
    assert_eq!(param.default, Some(Json::Str("default_value".to_string())));
}

#[test]
fn test_schema_helpers() {
    let properties = Json::Object(vec![
        ("name".to_string(), string_property("The name")),
        ("age".to_string(), number_property("The age")),
    ]);
    let schema = object_schema(properties, vec!["name".to_string()]);
    assert_eq!(schema.str_at("type").map(|s| s.as_str()), Some("object"));
    let props = schema.get("properties").unwrap();
    let name = props.get("name").unwrap();
    assert_eq!(name.str_at("type").map(|s| s.as_str()), Some("string"));
}

#[test]
fn test_format_for_llm() {
    let parameters = Json::Object(vec![
        ("type".to_string(), Json::Str("object".to_string())),
        (
            "properties".to_string(),
            Json::Object(vec![(
                "arg1".to_string(),
                Json::Object(vec![
                    ("type".to_string(), Json::Str("string".to_string())),
                    ("description".to_string(), Json::Str("First argument".to_string())),
                ]),
            )]),
        ),
        ("required".to_string(), Json::Array(vec![Json::Str("arg1".to_string())])),
    ]);
    let definitions = vec![ToolDefinition {
        name: "test_tool".to_string(),
        description: "A test tool".to_string(),
        parameters,
        example: None,
        examples: vec![],
        response_format: Some("concise".to_string()),
        namespace: Some("test".to_string()),
        category: ToolCategory::System,
        scenarios: vec![],
        relationships: ToolRelationships::default(),
        deprecated: false,
        replaced_by: None,
        version: "1.0.0".to_string(),
    }];
    let formatted = format_for_llm(&definitions);
    assert!(formatted.contains("test_tool"));
    assert!(formatted.contains("A test tool"));
    assert!(formatted.contains("arg1"));
}
