use mywork::models::execution::{
    apply_execution_update, apply_update_if_running, new_execution_record, Execution,
    ExecutionStatus, NewExecution, UpdateExecution, EXECUTION_HISTORY_LIMIT,
};
use mywork::models::task::{apply_task_update, is_enabled, new_task_record, NewTask, Task, UpdateTask};
use mywork::time::{delay_until, generate_output_file_name, parse_rfc3339, UtcTime};

#[test]
fn test_generate_output_file_name() {
    let timestamp = parse_rfc3339("2026-03-11T12:34:56.789Z").expect("timestamp should parse");

    let file_name = generate_output_file_name("exec-123", &timestamp).expect("in range");

    assert_eq!(file_name, "exec-123_20260311_123456_789.jsonl");
}

fn pending(task_id: &str) -> NewExecution {
    NewExecution {
        task_id: task_id.to_string(),
        session_id: None,
        status: None,
        output_file: None,
        error_message: None,
    }
}

fn empty_update() -> UpdateExecution {
    UpdateExecution {
        session_id: None,
        status: None,
        finished_at: None,
        output_file: None,
        error_message: None,
    }
}

#[test]
fn new_execution_record_defaults() {
    let e = new_execution_record(pending("task-1"), "e1".to_string(), "t0".to_string());
    assert_eq!(e.status, "pending");
    assert_eq!(e.id, "e1");
    assert_eq!(e.started_at, "t0");
    assert!(e.session_id.is_none());
    assert!(e.finished_at.is_none());
}

#[test]
fn new_execution_record_all_fields() {
    let new = NewExecution {
        task_id: "task-1".to_string(),
        session_id: Some("session-456".to_string()),
        status: Some(ExecutionStatus::Running),
        output_file: Some("/output/test.jsonl".to_string()),
        error_message: Some("Initial error".to_string()),
    };
    let e = new_execution_record(new, "e2".to_string(), "t0".to_string());
    assert_eq!(e.status, "running");
    assert_eq!(e.session_id, Some("session-456".to_string()));
    assert_eq!(e.output_file, Some("/output/test.jsonl".to_string()));
    assert_eq!(e.error_message, Some("Initial error".to_string()));
}

#[test]
fn execution_partial_update() {
    let e = new_execution_record(pending("task-1"), "e1".to_string(), "t0".to_string());
    let update = UpdateExecution {
        status: Some(ExecutionStatus::Failed),
        error_message: Some("Task failed".to_string()),
        ..empty_update()
    };
    let updated = apply_execution_update(e.clone(), update);
    assert_eq!(updated.status, "failed");
    assert_eq!(updated.error_message, Some("Task failed".to_string()));
    assert!(updated.finished_at.is_none());
    assert_eq!(updated.task_id, e.task_id);
}

#[test]
fn execution_record_lifecycle() {
    let created = new_execution_record(pending("task-1"), "e1".to_string(), "t0".to_string());
    assert_eq!(created.status, "pending");
    let running = apply_execution_update(
        created,
        UpdateExecution { status: Some(ExecutionStatus::Running), ..empty_update() },
    );
    assert_eq!(running.status, "running");
    let success = apply_update_if_running(
        running,
        UpdateExecution {
            status: Some(ExecutionStatus::Success),
            finished_at: Some("t1".to_string()),
            output_file: Some("/output/final.jsonl".to_string()),
            ..empty_update()
        },
    )
    .expect("was running");
    assert_eq!(success.status, "success");
    assert_eq!(success.finished_at, Some("t1".to_string()));
    assert_eq!(success.output_file, Some("/output/final.jsonl".to_string()));
    let late = apply_update_if_running(
        success,
        UpdateExecution { status: Some(ExecutionStatus::Failed), ..empty_update() },
    );
    assert!(late.is_none());
}

#[test]
fn status_texts_round_trip() {
    let all = [
        (ExecutionStatus::Pending, "pending"),
        (ExecutionStatus::Running, "running"),
        (ExecutionStatus::Success, "success"),
        (ExecutionStatus::Failed, "failed"),
        (ExecutionStatus::Timeout, "timeout"),
        (ExecutionStatus::Skipped, "skipped"),
    ];
    for (status, text) in all {
        assert_eq!(status.as_str(), text);
        assert_eq!(ExecutionStatus::from_str(text), Ok(status));
    }
    assert_eq!(
        ExecutionStatus::from_str("done"),
        Err("Invalid execution status: done".to_string())
    );
    assert_eq!(ExecutionStatus::Timeout.debug_name(), "Timeout");
    assert_eq!(EXECUTION_HISTORY_LIMIT, 20);
}

#[test]
fn empty_update_keeps_execution() {
    let e = Execution {
        id: "e".to_string(),
        task_id: "t".to_string(),
        session_id: Some("s".to_string()),
        status: "success".to_string(),
        started_at: "a".to_string(),
        finished_at: Some("b".to_string()),
        output_file: None,
        error_message: None,
    };
    assert_eq!(apply_execution_update(e.clone(), empty_update()), e);
}

fn new_task(enabled: Option<i32>, timeout: Option<i32>) -> NewTask {
    NewTask {
        name: "Test Task".to_string(),
        prompt: "This is a test prompt".to_string(),
        cron_expression: Some("0 * * * *".to_string()),
        simple_schedule: None,
        enabled,
        timeout_seconds: timeout,
    }
}

#[test]
fn new_task_record_defaults() {
    let t = new_task_record(new_task(None, None), "id".to_string(), "now".to_string());
    assert_eq!(t.enabled, 1);
    assert_eq!(t.timeout_seconds, 300);
    assert_eq!(t.created_at, "now");
    assert_eq!(t.updated_at, "now");
    assert!(t.once_at.is_none());
    assert!(is_enabled(&t));
}

#[test]
fn new_task_record_fields() {
    let t = new_task_record(new_task(Some(0), Some(60)), "id".to_string(), "now".to_string());
    assert_eq!(t.name, "Test Task");
    assert_eq!(t.prompt, "This is a test prompt");
    assert_eq!(t.cron_expression, Some("0 * * * *".to_string()));
    assert_eq!(t.enabled, 0);
    assert_eq!(t.timeout_seconds, 60);
    assert!(!is_enabled(&t));
}

#[test]
fn task_partial_update() {
    let t: Task = new_task_record(new_task(None, None), "id".to_string(), "t0".to_string());
    let update = UpdateTask {
        name: Some("Renamed".to_string()),
        prompt: None,
        cron_expression: None,
        simple_schedule: Some("{}".to_string()),
        enabled: Some(0),
        timeout_seconds: None,
    };
    let u = apply_task_update(t.clone(), update, "t1".to_string());
    assert_eq!(u.name, "Renamed");
    assert_eq!(u.prompt, t.prompt);
    assert_eq!(u.cron_expression, t.cron_expression);
    assert_eq!(u.simple_schedule, Some("{}".to_string()));
    assert_eq!(u.enabled, 0);
    assert_eq!(u.timeout_seconds, 300);
    assert_eq!(u.created_at, "t0");
    assert_eq!(u.updated_at, "t1");
}

#[test]
fn one_time_delays() {
    let now = UtcTime { secs: 100, nanos: 500 };
    assert_eq!(delay_until(&UtcTime { secs: 100, nanos: 500 }, &now), None);
    assert_eq!(delay_until(&UtcTime { secs: 99, nanos: 900 }, &now), None);
    assert_eq!(delay_until(&UtcTime { secs: 102, nanos: 400 }, &now), Some((1, 999_999_900)));
    assert_eq!(parse_rfc3339("2030-01-01T01:00:00+01:00"), Some(UtcTime { secs: 1893456000, nanos: 0 }));
    assert_eq!(parse_rfc3339("yesterday"), None);
}

#[test]
fn same_update_twice_stores_the_same() {
    let e = new_execution_record(pending("task-1"), "e1".to_string(), "t0".to_string());
    let u = UpdateExecution {
        status: Some(ExecutionStatus::Success),
        finished_at: Some("t1".to_string()),
        ..empty_update()
    };
    let once = apply_execution_update(e, u.clone());
    let twice = apply_execution_update(once.clone(), u);
    assert_eq!(once, twice);
}

#[test]
fn empty_task_update_only_stamps_the_time() {
    let t = new_task_record(new_task(None, None), "id".to_string(), "t0".to_string());
    let empty = UpdateTask {
        name: None,
        prompt: None,
        cron_expression: None,
        simple_schedule: None,
        enabled: None,
        timeout_seconds: None,
    };
    let u = apply_task_update(t.clone(), empty, "t1".to_string());
    assert_eq!(u, Task { updated_at: "t1".to_string(), ..t });
}
