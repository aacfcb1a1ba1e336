use neotalk_edge::workflow::codegen::WasmCodeGenerator;
use neotalk_edge::workflow::compiler::{MultiLanguageCompiler, SourceLanguage};
use neotalk_edge::workflow::event_trigger::{
    event_signature, matches_event_type, matches_filters, EventFilters, EventTriggerConfig, NeoTalkEvent,
};
use neotalk_edge::workflow::generator::{ValidationContext, WorkflowGenerator};
use neotalk_edge::workflow::templates::WorkflowTemplates;
use neotalk_edge::workflow::versioning::WorkflowVersion;
use neotalk_edge::workflow::VERSION;

#[test]
fn test_version() {
    assert!(!VERSION.is_empty());
}

#[test]
fn test_source_language_extensions() {
    assert_eq!(SourceLanguage::Rust.extension(), "rs");
    assert_eq!(SourceLanguage::JavaScript.extension(), "js");
    assert_eq!(SourceLanguage::TypeScript.extension(), "ts");
    assert_eq!(SourceLanguage::Wat.extension(), "wat");
    assert_eq!(SourceLanguage::Python.extension(), "py");
}

#[test]
fn test_source_language_from_str() {
    assert_eq!(SourceLanguage::from_str("rust"), Some(SourceLanguage::Rust));
    assert_eq!(SourceLanguage::from_str("js"), Some(SourceLanguage::JavaScript));
    assert_eq!(SourceLanguage::from_str("wat"), Some(SourceLanguage::Wat));
    assert_eq!(SourceLanguage::from_str("unknown"), None);
}

#[test]
fn test_extract_code_with_code_blocks() {
    let generator = WasmCodeGenerator::new().ok().unwrap();
    let response = "Here's the code:\n\n```wat\n(module\n  (func (export \"main\")\n    nop\n  )\n)\n```\n\nThat should work.";
    let code = generator.extract_code(response, &SourceLanguage::Wat).ok().unwrap();
    assert!(code.contains("(module"));
    assert!(code.contains("(export \"main\""));
}

#[test]
fn test_extract_code_without_code_blocks() {
    let generator = WasmCodeGenerator::new().ok().unwrap();
    let response = "(module (func (export \"main\") nop))";
    let code = generator.extract_code(response, &SourceLanguage::Wat).ok().unwrap();
    assert_eq!(code, response);
}

#[test]
fn test_prompt_building() {
    let generator = WasmCodeGenerator::new().ok().unwrap();
    let rust_prompt = generator.build_rust_prompt("Create a temperature monitor");
    assert!(rust_prompt.contains("temperature monitor"));
    assert!(rust_prompt.contains("wasm-bindgen"));
    let wat_prompt = generator.build_wat_prompt("Create a counter");
    assert!(wat_prompt.contains("counter"));
    assert!(wat_prompt.contains("WebAssembly Text Format"));
}

#[test]
fn test_template_fill() {
    let templates = WorkflowTemplates::all();
    assert!(!templates.is_empty());
    let template = &templates[0];
    let mut params = template.get_default_parameters();
    params.insert("device_id".to_string(), "test_device".to_string());
    let result = template.fill(&params);
    assert!(result.is_ok());
    assert!(result.ok().unwrap().dsl.contains("test_device"));
}

#[test]
fn test_template_by_category() {
    let alert_templates = WorkflowTemplates::by_category("alert");
    assert!(!alert_templates.is_empty());
    let automation_templates = WorkflowTemplates::by_category("automation");
    assert!(!automation_templates.is_empty());
}

#[test]
fn test_workflow_generator() {
    let context = ValidationContext::default();
    let result = WorkflowGenerator::generate("每天早上8点打开设备", &context);
    assert!(result.is_ok());
    let generated = result.ok().unwrap();
    assert!(generated.workflow.is_object());
    assert!(generated.confidence_percent > 0);
}

#[test]
fn test_version_parsing() {
    let v = WorkflowVersion::parse("1.2.3").ok().unwrap();
    assert_eq!(v.major, 1);
    assert_eq!(v.minor, 2);
    assert_eq!(v.patch, 3);
    assert_eq!(v.increment_major(), WorkflowVersion::new(2, 0, 0));
    assert_eq!(v.increment_minor(), WorkflowVersion::new(1, 3, 0));
    assert_eq!(v.increment_patch(), WorkflowVersion::new(1, 2, 4));
}

#[test]
fn test_version_display() {
    let v = WorkflowVersion::new(1, 2, 3);
    assert_eq!(v.to_string(), "1.2.3");
}

#[test]
fn test_event_trigger_config() {
    let config = EventTriggerConfig::new("DeviceMetric")
        .with_filters(EventFilters::new().with_device_id("sensor1").with_metric("temperature"));
    assert_eq!(config.event_type, "DeviceMetric");
    assert!(config.filters.is_some());
}

#[test]
fn test_event_filters() {
    let filters = EventFilters::new().with_device_id("device1").with_metric("temp").with_custom("key", "value");
    assert_eq!(filters.device_id, Some("device1".to_string()));
    assert_eq!(filters.metric, Some("temp".to_string()));
    assert_eq!(filters.custom_fields.get("key"), Some(&"value".to_string()));
}

#[test]
fn test_filters_empty() {
    let filters = EventFilters::new();
    assert!(filters.is_empty());
}

#[test]
fn test_event_signature() {
    let event = NeoTalkEvent::DeviceMetric { device_id: "sensor1".to_string(), metric: "temperature".to_string() };
    let signature = event_signature(&event);
    assert_eq!(signature, "DeviceMetric:sensor1:temperature");
}

#[test]
fn test_matches_event_type() {
    let event = NeoTalkEvent::DeviceMetric { device_id: "test".to_string(), metric: "temp".to_string() };
    assert!(matches_event_type(&event, "DeviceMetric"));
    assert!(matches_event_type(&event, "Device*"));
    assert!(!matches_event_type(&event, "Rule*"));
}

#[test]
fn test_matches_filters() {
    let event = NeoTalkEvent::DeviceMetric { device_id: "sensor1".to_string(), metric: "temperature".to_string() };
    let filters = EventFilters::new().with_device_id("sensor1").with_metric("temperature");
    assert!(matches_filters(&event, &filters));
    let wrong_device = EventFilters::new().with_device_id("sensor2");
    assert!(!matches_filters(&event, &wrong_device));
}

#[test]
fn test_compile_wat() {
    let compiler = MultiLanguageCompiler::new_internal_only().ok().unwrap();
    let wat_code = "(module\n  (func $add (param $a i32) (param $b i32) (result i32)\n    local.get $a\n    local.get $b\n    i32.add)\n  (export \"add\" (func $add))\n)";
    let result = compiler.compile(wat_code, SourceLanguage::Wat).ok().unwrap();
    assert!(result.success);
    assert!(result.wasm_bytes.is_some());
    assert!(result.wasm_base64.is_some());
}

#[test]
fn test_compile_wat_invalid() {
    let compiler = MultiLanguageCompiler::new_internal_only().ok().unwrap();
    let result = compiler.compile("(module invalid syntax here", SourceLanguage::Wat).ok().unwrap();
    assert!(!result.success);
    assert!(result.error.is_some());
}
