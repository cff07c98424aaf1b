use mywork::commands::run_flow::{
    closing_entry, error_entry, final_update, observe_session, output_entry,
    record_opencode_run, run_task_result, settle_stream, sleep_failure_update, sleeping_refusal,
    slot_refusal, termination_failure_update, RunVerdict, StreamOutcome,
};
use mywork::commands::scheduler_flow::{
    plan_task_load, reload_summary, reload_unavailable, scheduler_status_text, start_unavailable,
    LoadStep, LoadTally,
};
use mywork::commands::task_flow::{
    cleanup_failure, delete_failure, output_cleanup, restore_after_failed_schedule,
    restore_after_failed_write, restore_after_noop_delete, running_delete_refusal,
    schedule_failure, update_write_failure, OutputCleanup,
};
use mywork::commands::wake_flow::{wake_step, WakeAction, WakeEvent, WakePhase};
use mywork::executor::streaming::StreamLine;
use mywork::models::execution::{Execution, ExecutionStatus};
use mywork::models::task::Task;
use mywork::opencode::executor::{OpenCodeError, OpenCodeOutput};
use mywork::scheduler::job_scheduler::SchedulerState;
use mywork::scheduler::task_queue::TaskQueueError;
use mywork::time::UtcTime;

#[test]
fn stream_outcomes_settle_executions() {
    assert_eq!(
        settle_stream(StreamOutcome::Exited(0)),
        RunVerdict { status: ExecutionStatus::Success, error_message: None }
    );
    assert_eq!(
        settle_stream(StreamOutcome::Exited(2)),
        RunVerdict { status: ExecutionStatus::Failed, error_message: Some("Process exited with code 2".to_string()) }
    );
    assert_eq!(
        settle_stream(StreamOutcome::Exited(-1)),
        RunVerdict { status: ExecutionStatus::Failed, error_message: Some("Process exited with code -1".to_string()) }
    );
    assert_eq!(
        settle_stream(StreamOutcome::StreamFailed("Failed to append stdout: disk".to_string())),
        RunVerdict {
            status: ExecutionStatus::Failed,
            error_message: Some("Failed to append stdout: disk".to_string())
        }
    );
    assert_eq!(
        settle_stream(StreamOutcome::TimedOut),
        RunVerdict { status: ExecutionStatus::Timeout, error_message: Some("Execution timed out".to_string()) }
    );
}

#[test]
fn run_answers() {
    let ok = RunVerdict { status: ExecutionStatus::Success, error_message: None };
    assert_eq!(run_task_result("e1".to_string(), ok), Ok("e1".to_string()));
    let timeout = RunVerdict { status: ExecutionStatus::Timeout, error_message: Some("Execution timed out".to_string()) };
    assert_eq!(
        run_task_result("e1".to_string(), timeout),
        Err("Task execution failed with status: Timeout - Execution timed out".to_string())
    );
    let failed = RunVerdict { status: ExecutionStatus::Failed, error_message: None };
    assert_eq!(
        run_task_result("e1".to_string(), failed),
        Err("Task execution failed with status: Failed".to_string())
    );
    assert_eq!(sleeping_refusal(), "System is sleeping; task execution is paused");
    assert_eq!(
        slot_refusal(&TaskQueueError::TaskAlreadyRunning { task_id: "t".to_string() }),
        "Task 't' is already running"
    );
    assert_eq!(
        slot_refusal(&TaskQueueError::TaskNotFound { task_id: "t".to_string() }),
        "Failed to acquire slot: Task 't' not found in running tasks"
    );
}

#[test]
fn stream_lines_feed_the_output_file_and_the_session() {
    let first = StreamLine::Stdout("Session ID: ses_1".to_string());
    let s = observe_session(None, &first);
    assert_eq!(s, Some("ses_1".to_string()));
    let s = observe_session(s, &StreamLine::Stdout("Session: ses_2".to_string()));
    assert_eq!(s, Some("ses_1".to_string()));
    assert_eq!(observe_session(None, &StreamLine::Stderr("Session: x".to_string())), None);
    assert_eq!(output_entry(&first), Some("Session ID: ses_1\n".to_string()));
    assert_eq!(output_entry(&StreamLine::Finished), None);
    assert_eq!(closing_entry(&StreamOutcome::TimedOut), Some("Execution timed out\n".to_string()));
    assert_eq!(closing_entry(&StreamOutcome::StreamFailed("x".to_string())), Some("Error: x\n".to_string()));
    assert_eq!(closing_entry(&StreamOutcome::Exited(0)), None);
    assert_eq!(error_entry("boom"), "Error: boom\n");
}

#[test]
fn updates_that_close_an_execution() {
    let v = RunVerdict { status: ExecutionStatus::Failed, error_message: Some("e".to_string()) };
    let u = final_update(Some("s".to_string()), v, "now".to_string(), Some("f".to_string()));
    assert_eq!(u.status, Some(ExecutionStatus::Failed));
    assert_eq!(u.session_id, Some("s".to_string()));
    assert_eq!(u.error_message, Some("e".to_string()));
    let u = sleep_failure_update("now".to_string(), None);
    assert_eq!(u.error_message, Some("System entering sleep".to_string()));
    assert_eq!(u.status, Some(ExecutionStatus::Failed));
    let u = termination_failure_update("now".to_string(), Some("f".to_string()));
    assert_eq!(u.error_message, Some("Application was terminated unexpectedly".to_string()));
    assert_eq!(u.output_file, Some("f".to_string()));
}

#[test]
fn recorded_opencode_runs() {
    let out = OpenCodeOutput {
        session_id: "s".to_string(),
        stdout: "out".to_string(),
        stderr: String::new(),
        success: false,
        timed_out: false,
    };
    let r = record_opencode_run(Ok(out));
    assert_eq!(r.status, ExecutionStatus::Failed);
    assert_eq!(r.error_message, Some("out".to_string()));
    assert_eq!(r.content, "Session ID: s\nout");
    let r = record_opencode_run(Err(OpenCodeError::Timeout { timeout_secs: 5 }));
    assert_eq!(r.status, ExecutionStatus::Failed);
    assert_eq!(r.content, "Error: OpenCode execution timed out after 5 seconds");
    assert!(r.session_id.is_none());
}

fn task(enabled: i32, cron: Option<&str>, once_at: Option<&str>) -> Task {
    Task {
        id: "t1".to_string(),
        name: "n".to_string(),
        prompt: "p".to_string(),
        cron_expression: cron.map(|s| s.to_string()),
        simple_schedule: None,
        once_at: once_at.map(|s| s.to_string()),
        enabled,
        timeout_seconds: 300,
        created_at: "c".to_string(),
        updated_at: "u".to_string(),
    }
}

#[test]
fn loading_tasks_into_the_scheduler() {
    let now = UtcTime { secs: 1893455990, nanos: 0 };
    assert_eq!(plan_task_load(&task(0, Some("* * * * *"), None), &now, true), LoadStep::Skip);
    assert_eq!(
        plan_task_load(&task(0, Some("* * * * *"), None), &now, false),
        LoadStep::AddCron("* * * * *".to_string())
    );
    assert_eq!(
        plan_task_load(&task(1, None, None), &now, true),
        LoadStep::Invalid("Task 't1' has no valid schedule".to_string())
    );
    assert_eq!(
        plan_task_load(&task(1, None, Some("2030-01-01T00:00:00Z")), &now, true),
        LoadStep::AddOnce(10, 0)
    );
    let later = UtcTime { secs: 1893456000, nanos: 0 };
    assert_eq!(plan_task_load(&task(1, None, Some("2030-01-01T00:00:00Z")), &later, true), LoadStep::Skip);
}

#[test]
fn reload_summaries() {
    let mut tally = LoadTally::new();
    tally.record_add_result("a", Ok(()));
    tally.record_add_result("b", Err("bad cron".to_string()));
    tally.record_invalid("Task 'c' has no valid schedule".to_string());
    assert_eq!(tally.loaded, 1);
    assert_eq!(
        reload_summary(tally.loaded, &tally.errors),
        "Loaded 1 tasks with 2 errors: Failed to add job for task 'b': bad cron, Task 'c' has no valid schedule"
    );
    assert_eq!(reload_summary(3, &Vec::new()), "Successfully loaded 3 tasks");
    assert_eq!(scheduler_status_text(SchedulerState::Running, 2), "running (2 jobs)");
    assert_eq!(scheduler_status_text(SchedulerState::Stopped, 0), "stopped (0 jobs)");
    assert!(start_unavailable().contains("scheduler start is paused"));
    assert!(reload_unavailable().contains("scheduler reload is paused"));
}

#[test]
fn task_edit_rollbacks() {
    assert!(restore_after_failed_write(true, 1));
    assert!(!restore_after_failed_write(true, 0));
    assert!(!restore_after_failed_write(false, 1));
    assert!(restore_after_failed_schedule(1));
    assert!(restore_after_noop_delete(false, true, 1));
    assert!(!restore_after_noop_delete(true, true, 1));
    assert_eq!(update_write_failure("db", None), "Failed to update task: db");
    assert_eq!(
        update_write_failure("db", Some("busy")),
        "Failed to update task: db. Also failed to restore previous schedule: busy"
    );
    assert_eq!(
        schedule_failure("bad", Some("x")),
        "Failed to schedule updated task: bad. Also failed to restore previous schedule: x"
    );
    assert_eq!(
        delete_failure("db", Some("x")),
        "Failed to delete task with related data: db. Also failed to restore scheduler entry: x"
    );
    assert_eq!(running_delete_refusal("t1"), "Cannot delete task 't1' while it is running");
}

#[test]
fn output_cleanup_of_executions() {
    let mut e = Execution {
        id: "e1".to_string(),
        task_id: "t".to_string(),
        session_id: None,
        status: "success".to_string(),
        started_at: "a".to_string(),
        finished_at: None,
        output_file: Some("e1_x.jsonl".to_string()),
        error_message: None,
    };
    let c = output_cleanup(&e);
    assert_eq!(c, OutputCleanup::File("e1_x.jsonl".to_string()));
    assert_eq!(
        cleanup_failure(&c, "e1", "gone"),
        "Failed to delete output file 'e1_x.jsonl' for execution 'e1': gone"
    );
    e.output_file = None;
    let c = output_cleanup(&e);
    assert_eq!(c, OutputCleanup::AllFor("e1".to_string()));
    assert_eq!(cleanup_failure(&c, "e1", "gone"), "Failed to delete output files for execution 'e1': gone");
}

#[test]
fn wake_handling_steps() {
    let (p, a) = wake_step(WakePhase::Begin, WakeEvent::Observed { clamshell_closed: true });
    assert_eq!((p, a), (WakePhase::WaitingForLid, WakeAction::WaitForLid));
    let (p, a) = wake_step(p, WakeEvent::LidWaitEnded { opened: true });
    assert_eq!((p, a), (WakePhase::Stabilizing, WakeAction::WaitForNetwork));
    let (p, a) = wake_step(p, WakeEvent::Stabilized { can_run: true });
    assert_eq!((p, a), (WakePhase::Reloading, WakeAction::ReloadJobs));
    let (p, a) = wake_step(p, WakeEvent::Reloaded { ok: true, can_run: true });
    assert_eq!((p, a), (WakePhase::Starting, WakeAction::StartScheduler));
    let (p, a) = wake_step(p, WakeEvent::Started);
    assert_eq!((p, a), (WakePhase::Resumed, WakeAction::Nothing));
    assert_eq!(
        wake_step(WakePhase::WaitingForLid, WakeEvent::LidWaitEnded { opened: false }),
        (WakePhase::KeptPaused, WakeAction::Nothing)
    );
    assert_eq!(
        wake_step(WakePhase::Reloading, WakeEvent::Reloaded { ok: true, can_run: false }),
        (WakePhase::KeptPaused, WakeAction::Nothing)
    );
    assert_eq!(
        wake_step(WakePhase::KeptPaused, WakeEvent::Started),
        (WakePhase::KeptPaused, WakeAction::Nothing)
    );
}
