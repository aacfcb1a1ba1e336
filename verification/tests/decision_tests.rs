use neotalk_edge::json::Json;
use neotalk_edge::workflow::llm_decision::{
    DecisionStep, LlmDecisionTrigger, LlmDecisionTriggerConfig, LlmDecisionTriggerManager,
};

fn decision_value() -> Json {
    Json::Object(vec![
        ("decision_id".to_string(), Json::Str("dec-1".to_string())),
        ("decision_title".to_string(), Json::Str("Test Decision".to_string())),
        (
            "actions".to_string(),
            Json::Array(vec![Json::Str("action1".to_string()), Json::Str("action2".to_string())]),
        ),
    ])
}

#[test]
fn test_config_creation() {
    let config = LlmDecisionTriggerConfig::new()
        .with_decision_type("alert")
        .with_min_confidence(80)
        .with_min_priority("high")
        .with_action_type("notify_user")
        .with_parameter_mapping("user_message", "decision_description");

    assert_eq!(config.decision_type, Some("alert".to_string()));
    assert_eq!(config.min_confidence, Some(80));
    assert_eq!(config.min_priority, Some("high".to_string()));
    assert!(config.action_types.contains(&"notify_user".to_string()));
    assert!(config.parameter_mapping.contains_key("user_message"));
}

#[test]
fn test_extract_value() {
    let value = decision_value();
    assert_eq!(
        LlmDecisionTrigger::extract_value(&value, "decision_id"),
        Some(Json::Str("dec-1".to_string()))
    );
    assert_eq!(
        LlmDecisionTrigger::extract_value(&value, "decision_title"),
        Some(Json::Str("Test Decision".to_string()))
    );
    assert_eq!(
        LlmDecisionTrigger::extract_value(&value, "actions.0"),
        Some(Json::Str("action1".to_string()))
    );
    assert_eq!(LlmDecisionTrigger::extract_value(&value, "actions.5"), None);
}

#[test]
fn test_matches_config() {
    let actions = vec!["notify_user".to_string()];
    let config = LlmDecisionTriggerConfig::new().with_min_confidence(80).with_action_type("notify_user");

    // 85% passes 80% and the action type is proposed.
    assert!(LlmDecisionTrigger::matches_config(&actions, 85, &config));
    // 70% is below the threshold.
    assert!(!LlmDecisionTrigger::matches_config(&actions, 70, &config));

    let config2 = LlmDecisionTriggerConfig::new().with_min_confidence(50).with_action_type("control_device");
    assert!(!LlmDecisionTrigger::matches_config(&actions, 85, &config2));
}

#[test]
fn extract_value_edges() {
    let value = decision_value();
    // A whole path that is missing, a number on an object, a key on an array.
    assert_eq!(LlmDecisionTrigger::extract_value(&value, "missing"), None);
    assert_eq!(LlmDecisionTrigger::extract_value(&value, "0"), None);
    assert_eq!(LlmDecisionTrigger::extract_value(&value, "actions.first"), None);
    // "+1" reads as the index 1, as `str::parse::<usize>` reads it.
    assert_eq!(
        LlmDecisionTrigger::extract_value(&value, "actions.+1"),
        Some(Json::Str("action2".to_string()))
    );
    // Going past a string stops.
    assert_eq!(LlmDecisionTrigger::extract_value(&value, "decision_id.x"), None);
}

#[test]
fn matches_config_without_filters() {
    let config = LlmDecisionTriggerConfig::default();
    assert!(LlmDecisionTrigger::matches_config(&[], 0, &config));
    let config = LlmDecisionTriggerConfig::new().with_min_confidence(80);
    assert!(LlmDecisionTrigger::matches_config(&[], 80, &config));
}

#[test]
fn decision_steps_follow_active_flag() {
    let config = LlmDecisionTriggerConfig::new().with_action_type("notify_user");
    let mut trigger = LlmDecisionTrigger::new("wf1", config);
    let actions = vec!["notify_user".to_string()];
    match trigger.on_decision(&actions, 90) {
        DecisionStep::Run(id) => assert_eq!(id, "wf1"),
        _ => panic!("expected the workflow to run"),
    }
    assert!(matches!(trigger.on_decision(&["other".to_string()], 90), DecisionStep::Skip));
    trigger.stop();
    assert!(matches!(trigger.on_decision(&actions, 90), DecisionStep::Stop));
    assert!(trigger.start().is_ok());
    assert!(trigger.active);
}

#[test]
fn decision_trigger_manager_lifecycle() {
    let mut manager = LlmDecisionTriggerManager::new();
    assert!(manager.add_trigger("wf1", LlmDecisionTriggerConfig::new()).is_ok());
    assert!(manager.add_trigger("wf2", LlmDecisionTriggerConfig::new()).is_ok());
    assert!(manager.has_trigger("wf1"));
    let mut ids = manager.active_triggers();
    ids.sort();
    assert_eq!(ids, vec!["wf1".to_string(), "wf2".to_string()]);
    assert!(manager.remove_trigger("wf1").is_ok());
    assert!(!manager.has_trigger("wf1"));
    assert!(manager.remove_trigger("wf1").is_ok());
    manager.stop_all();
    assert!(manager.active_triggers().is_empty());
}
