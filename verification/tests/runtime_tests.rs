use neotalk_edge::workflow::persist::{
    execution_key, index_after_save, newest_order, stale_keys, workflow_executions_key, workflow_id_from_key, workflow_key,
};
use neotalk_edge::json::Json;
use neotalk_edge::tools::system::{ExportToCsvTool, ExportToJsonTool, GenerateReportTool, RestartPlan, ServiceRestartTool, SystemInfoTool};
use neotalk_edge::tools::workflow_status::QueryWorkflowStatusTool;
use neotalk_edge::workflow::compensation::{CompensationRegistry, SendCommandCompensation};
use neotalk_edge::workflow::execution::{ExecutionState, ExecutionStatus, ExecutionTracker, StepResult};
use neotalk_edge::workflow::model::Workflow;
use neotalk_edge::workflow::schedule::{ScheduledTask, Scheduler, WasmConfig};
use neotalk_edge::workflow::triggers::{Trigger, TriggerManager};
use neotalk_edge::workflow::versioning::{VersionChangeType, VersionManager, WorkflowVersion};

fn s(x: &str) -> Json {
    Json::Str(x.to_string())
}

fn obj(members: Vec<(&str, Json)>) -> Json {
    Json::Object(members.into_iter().map(|(k, v)| (k.to_string(), v)).collect())
}

fn manual(id: &str) -> Trigger {
    Trigger::Manual { id: id.to_string() }
}

#[test]
fn test_version_manager_create_version() {
    let mut manager = VersionManager::new();
    let workflow = Workflow::new("test", "Test Workflow");

    let v1 = manager
        .create_version("test", workflow.duplicate(), "system".to_string(), "Initial version".to_string(), VersionChangeType::Major)
        .ok()
        .unwrap();
    assert_eq!(v1, WorkflowVersion::initial());

    let v2 = manager
        .create_version("test", workflow.duplicate(), "user".to_string(), "Minor update".to_string(), VersionChangeType::Minor)
        .ok()
        .unwrap();
    assert_eq!(v2, WorkflowVersion::new(1, 1, 0));
}

#[test]
fn test_version_manager_rollback() {
    let mut manager = VersionManager::new();
    let workflow1 = Workflow::new("test", "Test Workflow v1");
    let workflow2 = Workflow::new("test", "Test Workflow v2");

    manager
        .create_version("test", workflow1.duplicate(), "system".to_string(), "Initial".to_string(), VersionChangeType::Major)
        .ok()
        .unwrap();
    manager
        .create_version("test", workflow2, "user".to_string(), "Update".to_string(), VersionChangeType::Patch)
        .ok()
        .unwrap();

    let rolled_back = manager
        .rollback("test", &WorkflowVersion::initial(), "admin".to_string(), "Mistake made".to_string())
        .ok()
        .unwrap();
    assert_eq!(rolled_back.name, "Test Workflow v1");

    // The rollback itself is recorded as a new patch version.
    let versions = manager.list_versions("test");
    assert_eq!(versions.len(), 3);
    assert_eq!(versions[2], WorkflowVersion::new(1, 0, 2));
    assert_eq!(manager.get_latest("test").unwrap().name, "Test Workflow v1");
}

#[test]
fn rollback_to_unknown_version_fails() {
    let mut manager = VersionManager::new();
    manager
        .create_version("test", Workflow::new("test", "T"), "system".to_string(), "Initial".to_string(), VersionChangeType::Major)
        .ok()
        .unwrap();
    let r = manager.rollback("test", &WorkflowVersion::new(9, 9, 9), "admin".to_string(), "no".to_string());
    assert!(r.is_err());
    assert_eq!(manager.version_count("test"), 1);
}

#[test]
fn test_version_list() {
    let mut manager = VersionManager::new();
    let workflow = Workflow::new("test", "Test Workflow");

    manager
        .create_version("test", workflow.duplicate(), "system".to_string(), "v1".to_string(), VersionChangeType::Major)
        .ok()
        .unwrap();
    manager
        .create_version("test", workflow.duplicate(), "system".to_string(), "v2".to_string(), VersionChangeType::Minor)
        .ok()
        .unwrap();

    let versions = manager.list_versions("test");
    assert_eq!(versions.len(), 2);
    assert_eq!(versions[0], WorkflowVersion::new(1, 0, 0));
    assert_eq!(versions[1], WorkflowVersion::new(1, 1, 0));
    assert_eq!(manager.list_versions("other").len(), 0);
}

#[test]
fn test_execution_state() {
    let mut state = ExecutionState::new("exec1", "workflow1");

    assert_eq!(state.id, "exec1");
    assert_eq!(state.workflow_id, "workflow1");
    assert!(state.is_running());
    assert!(!state.is_finished());

    state.log("info", "Test log");
    assert_eq!(state.logs.len(), 1);

    state.complete();
    assert!(state.is_finished());
    assert!(matches!(state.status, ExecutionStatus::Completed));
}

#[test]
fn test_execution_tracker() {
    let mut tracker = ExecutionTracker::new(5);

    let permit = tracker.start_execution("exec1", "workflow1", 3);
    assert!(permit.is_some());
    assert_eq!(tracker.running_count(), 1);

    let status = tracker.get_status("exec1").ok().unwrap();
    assert!(matches!(status, ExecutionStatus::Running));

    tracker.complete_execution("exec1").ok().unwrap();
    assert_eq!(tracker.running_count(), 0);

    let exec = tracker.get_execution("exec1").ok().unwrap();
    assert!(exec.is_some());
    assert!(exec.unwrap().is_finished());
}

#[test]
fn tracker_refuses_beyond_its_limit() {
    let mut tracker = ExecutionTracker::new(1);
    assert!(tracker.start_execution("a", "w", 1).is_some());
    assert_eq!(tracker.available_permits(), 0);
    assert!(tracker.start_execution("b", "w", 1).is_none());
    tracker.fail_execution("a", "boom").ok().unwrap();
    assert!(matches!(tracker.get_status("a").ok().unwrap(), ExecutionStatus::Failed));
    assert_eq!(tracker.available_permits(), 1);
    assert!(tracker.get_status("missing").is_err());
}

#[test]
fn test_cancel_execution() {
    let mut tracker = ExecutionTracker::new(5);
    tracker.start_execution("exec1", "workflow1", 3).unwrap();

    let cancelled = tracker.cancel_execution("exec1").ok().unwrap();
    assert!(cancelled);

    let status = tracker.get_status("exec1").ok().unwrap();
    assert!(matches!(status, ExecutionStatus::Cancelled));
}

#[test]
fn test_list_running() {
    let mut tracker = ExecutionTracker::new(5);
    tracker.start_execution("exec1", "workflow1", 3).unwrap();
    tracker.start_execution("exec2", "workflow1", 3).unwrap();

    let running = tracker.list_running();
    assert_eq!(running.len(), 2);
}

#[test]
fn test_workflow_executions() {
    let mut tracker = ExecutionTracker::new(5);
    tracker.start_execution("exec1", "workflow1", 3).unwrap();
    tracker.start_execution("exec2", "workflow2", 3).unwrap();

    tracker.complete_execution("exec1").ok().unwrap();

    let executions = tracker.get_workflow_executions("workflow1");
    assert_eq!(executions.len(), 1);
    assert_eq!(executions[0].id, "exec1");

    let executions = tracker.get_workflow_executions("workflow2");
    assert_eq!(executions.len(), 1);
    assert_eq!(executions[0].id, "exec2");
}

#[test]
fn test_record_step_result() {
    let mut tracker = ExecutionTracker::new(5);
    tracker.start_execution("exec1", "workflow1", 3).unwrap();

    let result = StepResult {
        step_id: "step1".to_string(),
        started_at: 1000,
        completed_at: Some(1100),
        status: ExecutionStatus::Completed,
        output: Some("42".to_string()),
        error: None,
    };
    tracker.record_step_result("exec1", "step1".to_string(), result).ok().unwrap();

    let exec = tracker.get_execution("exec1").ok().unwrap();
    assert!(exec.is_some());
    assert_eq!(exec.unwrap().step_results.len(), 1);
}

#[test]
fn test_scheduler_creation() {
    let mut scheduler = Scheduler::new();
    assert!(!scheduler.is_running());
    scheduler.start();
    assert!(scheduler.is_running());
    scheduler.stop();
    assert!(!scheduler.is_running());
}

#[test]
fn test_scheduled_task() {
    let mut scheduler = Scheduler::new();
    let task = ScheduledTask {
        id: "task1".to_string(),
        workflow_id: "workflow1".to_string(),
        trigger_id: "trigger1".to_string(),
        cron_expression: "0 * * * * *".to_string(),
        active: true,
    };
    scheduler.add_task(task);

    let tasks = scheduler.list_tasks();
    assert_eq!(tasks.len(), 1);
    assert_eq!(tasks[0].id, "task1");
    assert!(scheduler.remove_task("task1"));
    assert!(!scheduler.remove_task("task1"));
    assert!(scheduler.get_task("task1").is_none());
}

#[test]
fn test_trigger_manager() {
    let mut manager = TriggerManager::new();
    manager.register("test_workflow", manual("manual1")).ok().unwrap();

    let triggers = manager.get_workflow_triggers("test_workflow");
    assert_eq!(triggers.len(), 1);
    assert_eq!(triggers[0].id(), "manual1");
    assert!(manager.trigger("manual1").is_ok());
    assert!(manager.trigger("missing").is_err());
}

#[test]
fn test_unregister_workflow() {
    let mut manager = TriggerManager::new();
    manager.register("test_workflow", manual("manual1")).ok().unwrap();
    manager.unregister_workflow("test_workflow");

    let triggers = manager.get_workflow_triggers("test_workflow");
    assert_eq!(triggers.len(), 0);
    assert!(manager.trigger("manual1").is_err());
}

#[test]
fn test_compensation_registry() {
    let registry = CompensationRegistry::new();
    assert!(registry.get("log").is_some());
    assert!(registry.get("send_command").is_some());
    assert!(registry.get("no_such_step").is_none());
}

#[test]
fn compensation_plan_is_last_first() {
    let registry = CompensationRegistry::new();
    let steps = vec!["log".to_string(), "send_command".to_string(), "delay".to_string()];
    assert_eq!(registry.plan(&steps).ok().unwrap(), vec![2, 1, 0]);
    let bad = vec!["log".to_string(), "teleport".to_string()];
    assert!(registry.plan(&bad).is_err());
}

#[test]
fn test_send_command_reverse() {
    assert_eq!(SendCommandCompensation::reverse_command("on"), "off");
    assert_eq!(SendCommandCompensation::reverse_command("off"), "on");
    assert_eq!(SendCommandCompensation::reverse_command("open"), "close");
    assert_eq!(SendCommandCompensation::reverse_command("unknown"), "reverse_unknown");
}

#[test]
fn test_wasm_config_default() {
    let config = WasmConfig::default();
    assert_eq!(config.memory_limit, 64);
    assert_eq!(config.max_execution_time_seconds, 30);
    assert!(config.enable_wasi);
}

#[test]
fn test_export_to_csv_tool() {
    let tool = ExportToCsvTool::new();
    let args = obj(vec![("data_type", s("device_data")), ("device_id", s("sensor_1")), ("metric", s("temperature"))]);
    let result = tool.execute(&args).ok().unwrap();
    assert!(result.success);
    assert_eq!(result.data.get("format"), Some(&s("csv")));
    assert_eq!(result.data.get("rows"), Some(&Json::Int(4)));
    assert_eq!(
        result.data.get("data"),
        Some(&s("timestamp,device_id,metric,value\n1735718400,sensor_1,temperature,22.5\n1735722000,sensor_1,temperature,23.1\n1735725600,sensor_1,temperature,22.8\n"))
    );
}

#[test]
fn export_to_csv_other_types() {
    let tool = ExportToCsvTool::new();
    let result = tool.execute(&obj(vec![("data_type", s("rule_history"))])).ok().unwrap();
    assert_eq!(
        result.data.get("data"),
        Some(&s("timestamp,device_id,metric,value\n1735718400,rule_1,triggered,1\n1735722000,rule_2,triggered,1\n"))
    );
    assert!(tool.execute(&obj(vec![])).is_err());
}

#[test]
fn test_export_to_json_tool() {
    let tool = ExportToJsonTool::new();
    let result = tool.execute(&obj(vec![("data_type", s("rules")), ("pretty", Json::Bool(true))])).ok().unwrap();
    assert!(result.success);
    assert_eq!(result.data.get("format"), Some(&s("json")));
    assert_eq!(result.data.get("pretty"), Some(&Json::Bool(true)));
}

#[test]
fn export_to_json_compact_and_pretty_text() {
    let tool = ExportToJsonTool::new();
    let compact = tool.execute(&obj(vec![("data_type", s("rules"))])).ok().unwrap();
    assert_eq!(
        compact.data.get("data"),
        Some(&s("[{\"condition\":\"temperature > 30\",\"enabled\":true,\"id\":\"rule_1\",\"name\":\"高温告警\"},{\"condition\":\"humidity < 30\",\"enabled\":true,\"id\":\"rule_2\",\"name\":\"低湿提醒\"}]"))
    );
    let pretty = tool
        .execute(&obj(vec![("data_type", s("device_data")), ("device_id", s("d1")), ("pretty", Json::Bool(true))]))
        .ok()
        .unwrap();
    let expected = "{\n  \"data\": [\n    {\n      \"metric\": \"temperature\",\n      \"timestamp\": 1735718400,\n      \"value\": 22.5\n    },\n    {\n      \"metric\": \"temperature\",\n      \"timestamp\": 1735722000,\n      \"value\": 23.1\n    }\n  ],\n  \"device_id\": \"d1\"\n}";
    assert_eq!(pretty.data.get("data"), Some(&s(expected)));
    let unknown = tool.execute(&obj(vec![("data_type", s("nothing"))])).ok().unwrap();
    assert_eq!(unknown.data.get("data"), Some(&s("{\"error\":\"Unknown data type\"}")));
    assert!(tool.execute(&obj(vec![])).is_err());
}

#[test]
fn test_generate_report_tool() {
    let tool = GenerateReportTool::new();
    let result = tool.execute(&obj(vec![("report_type", s("daily"))])).ok().unwrap();
    assert!(result.success);
    assert_eq!(result.data.get("report_type"), Some(&s("daily")));
}

#[test]
fn reports_on_a_given_day() {
    let tool = GenerateReportTool::new();
    let weekly = tool.report("weekly", "2025-01-06", 1736121600);
    assert_eq!(weekly.get("week_start"), Some(&s("2025-01-06")));
    assert_eq!(weekly.get("generated_at"), Some(&Json::Int(1736121600)));
    let sections = weekly.get("sections").unwrap();
    assert_eq!(sections.get("uptime_percentage"), Some(&Json::Real("99.8".to_string())));
    let daily = tool.report("daily", "2025-01-06", 5);
    let alerts = daily.get("sections").unwrap().get("alert_summary").unwrap();
    assert_eq!(alerts.get("warning"), Some(&Json::Int(2)));
    let other = tool.report("monthly", "2025-01-06", 5);
    assert_eq!(other.get("message"), Some(&s("Report generated successfully")));
    assert_eq!(other.get("report_type"), Some(&s("monthly")));
    assert!(tool.execute(&obj(vec![])).is_err());
}

#[test]
fn test_system_info_tool() {
    let tool = SystemInfoTool::new();
    let result = tool.execute(&obj(vec![]));
    assert!(result.success);
    assert!(result.data.is_object());
}

#[test]
fn system_info_in_detail() {
    let tool = SystemInfoTool::new();
    let result = tool.execute(&obj(vec![("detailed", Json::Bool(true))]));
    assert!(result.success);
    assert_eq!(result.data.get("system_name"), Some(&s("NeoTalk-Edge")));
    match result.data.get("service_status") {
        Some(Json::Array(xs)) => assert_eq!(xs.len(), 5),
        _ => panic!("service status missing"),
    }
    let named = SystemInfoTool::with_name("edge-1").info(false, 42);
    assert_eq!(named.data.get("system_name"), Some(&s("edge-1")));
    assert_eq!(named.data.get("timestamp"), Some(&Json::Int(42)));
    assert_eq!(named.data.get("cpu_usage"), Some(&Json::Real("25.5".to_string())));
    assert!(named.data.get("service_status").is_none());
}

#[test]
fn test_service_restart_tool() {
    let tool = ServiceRestartTool::new();
    let args = obj(vec![("service", s("rule_engine")), ("wait", Json::Bool(true))]);
    match tool.plan_restart(&args).ok().unwrap() {
        RestartPlan::Restart { service, wait } => {
            assert_eq!(service, "rule_engine");
            assert!(wait);
            let result = ServiceRestartTool::restarted(&service, 500, 1735718400);
            assert!(result.success);
            assert_eq!(result.data.get("status"), Some(&s("restarted")));
            assert_eq!(result.data.get("duration_ms"), Some(&Json::Int(500)));
        }
        RestartPlan::Refused(_) => panic!("rule_engine may be restarted"),
    }
}

#[test]
fn service_restart_refuses_unknown_services() {
    let tool = ServiceRestartTool::new();
    match tool.plan_restart(&obj(vec![("service", s("kernel"))])).ok().unwrap() {
        RestartPlan::Refused(o) => {
            assert!(!o.success);
            assert_eq!(o.error, Some("Service 'kernel' is not allowed for restart".to_string()));
        }
        RestartPlan::Restart { .. } => panic!("kernel is not allowed"),
    }
    assert!(tool.plan_restart(&obj(vec![])).is_err());
}

#[test]
fn query_workflow_status_reports_running_and_finished() {
    let mut tracker = ExecutionTracker::new(5);
    tracker.start_execution("exec_a1", "wf_a", 1).unwrap();
    tracker.start_execution("exec_b1", "wf_b", 1).unwrap();
    tracker.complete_execution("exec_a1").ok().unwrap();
    let tool = QueryWorkflowStatusTool::new();

    let all = tool.run(&tracker, &obj(vec![]));
    assert!(all.success);
    assert_eq!(all.data.get("count"), Some(&Json::Int(2)));
    let entries = match all.data.get("executions") {
        Some(Json::Array(v)) => v,
        _ => panic!("executions missing"),
    };
    assert_eq!(entries[0].get("execution_id"), Some(&s("exec_b1")));
    assert_eq!(entries[0].get("status"), Some(&s("running")));
    assert_eq!(entries[1].get("execution_id"), Some(&s("exec_a1")));
    assert_eq!(entries[1].get("status"), Some(&s("completed")));
    assert_eq!(entries[1].get("error"), Some(&Json::Null));

    let by_workflow = tool.run(&tracker, &obj(vec![("workflow_id", s("wf_a"))]));
    assert_eq!(by_workflow.data.get("count"), Some(&Json::Int(1)));
    let by_id = tool.run(&tracker, &obj(vec![("execution_id", s("exec_b"))]));
    assert_eq!(by_id.data.get("count"), Some(&Json::Int(1)));
    let none = tool.run(&tracker, &obj(vec![("limit", Json::Int(0)), ("execution_id", s("exec_a"))]));
    assert_eq!(none.data.get("count"), Some(&Json::Int(0)));
}

#[test]
fn store_keys_and_index() {
    assert_eq!(workflow_key("w1"), "workflow:w1");
    assert_eq!(execution_key("e1"), "execution:e1");
    assert_eq!(workflow_executions_key("w1"), "workflow_executions:w1");
    assert_eq!(workflow_id_from_key("workflow:w1"), Some("w1".to_string()));
    assert_eq!(workflow_id_from_key("execution:e1"), None);
    let ids = vec!["a".to_string(), "b".to_string()];
    assert_eq!(index_after_save(ids.clone(), "c".to_string(), 5), vec!["a", "b", "c"]);
    assert_eq!(index_after_save(ids, "c".to_string(), 2), vec!["c", "b"]);
    assert_eq!(newest_order(&vec![10, 30, 20, 30], None), vec![1, 3, 2, 0]);
    assert_eq!(newest_order(&vec![10, 30, 20, 30], Some(2)), vec![1, 3]);
    let entries = vec![("execution:a".to_string(), 5), ("execution:b".to_string(), 50)];
    assert_eq!(stale_keys(&entries, 10), vec!["execution:a"]);
}
