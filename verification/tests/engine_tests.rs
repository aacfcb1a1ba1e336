use neotalk_edge::workflow::compensation::{record_compensation, CompensationOutcome};
use neotalk_edge::workflow::engine::{engine_step, EngineAction, EngineEvent, EnginePhase, EngineRun, StepOutcome};
use neotalk_edge::workflow::error::WorkflowError;
use neotalk_edge::workflow::execution::{ExecutionStatus, StepResult};

fn run_of(steps: &[&str], compensate_all: bool) -> EngineRun {
    EngineRun::new("exec1", "wf1", steps.iter().map(|s| s.to_string()).collect(), compensate_all)
}

fn done(step: &str) -> StepOutcome {
    StepOutcome::Done(StepResult {
        step_id: step.to_string(),
        started_at: 10,
        completed_at: Some(11),
        status: ExecutionStatus::Completed,
        output: None,
        error: None,
    })
}

#[test]
fn disabled_workflow_is_refused() {
    let run = run_of(&["a"], true);
    let (run, action) = engine_step(&run, EngineEvent::Loaded { enabled: false, now: 5 });
    assert_eq!(run.phase, EnginePhase::Done);
    match action {
        EngineAction::Refuse(WorkflowError::ExecutionError(m)) => assert_eq!(m, "Workflow is disabled"),
        _ => panic!("a disabled workflow is refused"),
    }
}

#[test]
fn steps_run_in_order_then_the_run_completes() {
    let run = run_of(&["a", "b"], true);
    let (run, action) = engine_step(&run, EngineEvent::Loaded { enabled: true, now: 5 });
    match action {
        EngineAction::SaveRecord(r) => {
            assert_eq!(r.started_at, 5);
            assert!(r.is_running());
        }
        _ => panic!("the first record is saved"),
    }
    let (run, action) = engine_step(&run, EngineEvent::Saved { now: 6 });
    assert!(matches!(action, EngineAction::RunStep(0)));
    let (run, action) = engine_step(&run, EngineEvent::StepFinished { outcome: done("a"), now: 7 });
    assert!(matches!(action, EngineAction::RunStep(1)));
    let (run, action) = engine_step(&run, EngineEvent::StepFinished { outcome: done("b"), now: 8 });
    match action {
        EngineAction::SaveRecord(r) => {
            assert!(matches!(r.status, ExecutionStatus::Completed));
            assert_eq!(r.completed_at, Some(8));
        }
        _ => panic!("the final record is saved"),
    }
    let (run, action) = engine_step(&run, EngineEvent::Saved { now: 9 });
    assert_eq!(run.phase, EnginePhase::Done);
    match action {
        EngineAction::Finish(result) => {
            assert!(matches!(result.status, ExecutionStatus::Completed));
            assert_eq!(result.step_results.len(), 2);
            assert_eq!(result.compensated_steps, 0);
            assert_eq!(result.error, None);
        }
        _ => panic!("the run finishes"),
    }
}

#[test]
fn timeout_compensates_and_fails() {
    let run = run_of(&["a", "b"], true);
    let (run, _) = engine_step(&run, EngineEvent::Loaded { enabled: true, now: 5 });
    let (run, _) = engine_step(&run, EngineEvent::Saved { now: 6 });
    let (run, _) = engine_step(&run, EngineEvent::StepFinished { outcome: done("a"), now: 7 });
    let (run, action) =
        engine_step(&run, EngineEvent::StepFinished { outcome: StepOutcome::TimedOut("deadline has elapsed".to_string()), now: 8 });
    assert!(matches!(action, EngineAction::Compensate));
    let (run, action) = engine_step(&run, EngineEvent::CompensationDone { count: 1, now: 9 });
    assert!(matches!(action, EngineAction::SaveRecord(_)));
    let (_, action) = engine_step(&run, EngineEvent::Saved { now: 10 });
    match action {
        EngineAction::Finish(result) => {
            assert!(matches!(result.status, ExecutionStatus::Failed));
            assert_eq!(result.error, Some("deadline has elapsed".to_string()));
            assert_eq!(result.compensated_steps, 1);
            let b = result.step_results.get("b").unwrap();
            assert_eq!(b.error, Some("deadline has elapsed".to_string()));
            assert!(matches!(b.status, ExecutionStatus::Failed));
        }
        _ => panic!("the run finishes failed"),
    }
}

#[test]
fn without_compensation_a_timeout_fails_at_once() {
    let run = run_of(&["a"], false);
    let (run, _) = engine_step(&run, EngineEvent::Loaded { enabled: true, now: 5 });
    let (run, _) = engine_step(&run, EngineEvent::Saved { now: 6 });
    let (run, action) = engine_step(&run, EngineEvent::StepFinished { outcome: StepOutcome::TimedOut("t".to_string()), now: 7 });
    assert!(matches!(action, EngineAction::SaveRecord(_)));
    assert_eq!(run.compensated, 0);
    let (run, action) = engine_step(&run, EngineEvent::StepFinished { outcome: done("x"), now: 8 });
    assert!(matches!(action, EngineAction::Ignore));
    assert_eq!(run.phase, EnginePhase::Closing);
}

#[test]
fn a_failing_step_ends_the_run_with_its_error() {
    let run = run_of(&["a"], true);
    let (run, _) = engine_step(&run, EngineEvent::Loaded { enabled: true, now: 5 });
    let (run, _) = engine_step(&run, EngineEvent::Saved { now: 6 });
    let err = WorkflowError::ExecutionError("device offline".to_string());
    let (_, action) = engine_step(&run, EngineEvent::StepFinished { outcome: StepOutcome::Failed(err), now: 7 });
    match action {
        EngineAction::Refuse(WorkflowError::ExecutionError(m)) => assert_eq!(m, "device offline"),
        _ => panic!("the step's error ends the run"),
    }
}

#[test]
fn compensation_records_each_step_last_first() {
    let step = |id: &str| StepResult {
        step_id: id.to_string(),
        started_at: 1,
        completed_at: Some(2),
        status: ExecutionStatus::Completed,
        output: None,
        error: None,
    };
    let outcomes = vec![
        CompensationOutcome { succeeded: true, message: "undone b".to_string() },
        CompensationOutcome { succeeded: false, message: "could not undo a".to_string() },
    ];
    let recorded = record_compensation(vec![step("a"), step("b")], &outcomes);
    assert_eq!(recorded.len(), 2);
    assert_eq!(recorded[0].result.step_id, "b");
    assert!(recorded[0].compensated);
    assert_eq!(recorded[1].result.step_id, "a");
    assert!(!recorded[1].compensated);
    assert_eq!(recorded[1].outcome.message, "could not undo a");
}

#[test]
fn quoted_strings_match_serde_json() {
    let mut samples: Vec<String> = (0u32..0x80).filter_map(char::from_u32).map(|c| format!("a{}b", c)).collect();
    samples.push("高温告警 \"quoted\" \\ back".to_string());
    samples.push(String::new());
    for s in samples {
        assert_eq!(neotalk_edge::json::quoted(&s), serde_json::to_string(&s).unwrap());
    }
}

#[test]
fn trimming_follows_unicode_white_space() {
    for u in 0u32..0x3100 {
        if let Some(c) = char::from_u32(u) {
            let s = format!("{}x{}", c, c);
            assert_eq!(neotalk_edge::text::trim_text(&s), s.trim());
        }
    }
}
