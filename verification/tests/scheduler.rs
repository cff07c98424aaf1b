use mywork::models::task::Task;
use mywork::scheduler::get_task_schedule;
use mywork::scheduler::job_scheduler::{
    AddOutcome, Scheduler, SchedulerError, SchedulerState, StartOutcome,
};
use mywork::scheduler::process_tracker::{
    drain_pids, get_pids, in_work_dir, orphan_candidates, register_pid, running_count,
    unregister_pid, PidRegistry,
};
use mywork::scheduler::simple_schedule::{parse_day_of_week, parse_time, ScheduleError};
use mywork::scheduler::task_queue::{TaskQueue, TaskQueueError};
use mywork::scheduler::timeout::{timed_out_result, ProcessOutput, TimeoutError};
use mywork::scheduler::TaskSchedule;
use mywork::time::UtcTime;

#[test]
fn test_task_queue_creation() {
    let queue = TaskQueue::new();
    assert_eq!(queue.running_count(), 0);
}

#[test]
fn test_acquire_slot_success() {
    let mut queue = TaskQueue::new();
    let guard = queue.acquire_slot("task-1").unwrap();
    assert_eq!(queue.running_count(), 1);
    assert!(queue.is_running("task-1"));
    assert_eq!(guard.task_id(), "task-1");
}

#[test]
fn test_acquire_slot_multiple_tasks() {
    let mut queue = TaskQueue::new();
    let _g1 = queue.acquire_slot("task-1").unwrap();
    let _g2 = queue.acquire_slot("task-2").unwrap();
    let _g3 = queue.acquire_slot("task-3").unwrap();
    assert_eq!(queue.running_count(), 3);
    assert!(queue.is_running("task-1"));
    assert!(queue.is_running("task-2"));
    assert!(queue.is_running("task-3"));
}

#[test]
fn test_acquire_slot_already_running() {
    let mut queue = TaskQueue::new();
    let _guard = queue.acquire_slot("task-1").unwrap();
    let result = queue.acquire_slot("task-1");
    assert!(result.is_err());
    let err = result.unwrap_err();
    assert!(matches!(err, TaskQueueError::TaskAlreadyRunning { .. }));
    assert_eq!(queue.running_count(), 1);
}

#[test]
fn test_release_slot_success() {
    let mut queue = TaskQueue::new();
    let _guard = queue.acquire_slot("task-1").unwrap();
    assert_eq!(queue.running_count(), 1);
    queue.release_slot("task-1").unwrap();
    assert_eq!(queue.running_count(), 0);
    assert!(!queue.is_running("task-1"));
}

#[test]
fn test_release_slot_not_found() {
    let mut queue = TaskQueue::new();
    let result = queue.release_slot("nonexistent");
    assert!(result.is_err());
    assert!(matches!(result.unwrap_err(), TaskQueueError::TaskNotFound { .. }));
}

#[test]
fn test_slot_guard_auto_release() {
    let mut queue = TaskQueue::new();
    let guard = queue.acquire_slot("task-1").unwrap();
    assert_eq!(queue.running_count(), 1);
    queue.release(guard);
    assert_eq!(queue.running_count(), 0);
}

#[test]
fn test_release_and_reacquire() {
    let mut queue = TaskQueue::new();
    let g1 = queue.acquire_slot("task-1").unwrap();
    let _g2 = queue.acquire_slot("task-2").unwrap();
    assert_eq!(queue.running_count(), 2);
    queue.release(g1);
    assert!(!queue.is_running("task-1"));
    let _g3 = queue.acquire_slot("task-3").unwrap();
    assert!(queue.is_running("task-3"));
    let _again = queue.acquire_slot("task-1").unwrap();
    assert!(queue.is_running("task-1"));
}

#[test]
fn test_error_display() {
    let err = TaskQueueError::TaskAlreadyRunning { task_id: "task-1".to_string() };
    assert!(err.to_string().contains("already running"));
    assert_eq!(err.to_string(), "Task 'task-1' is already running");
    let err = TaskQueueError::TaskNotFound { task_id: "task-1".to_string() };
    assert!(err.to_string().contains("not found"));
    assert_eq!(err.to_string(), "Task 'task-1' not found in running tasks");
}

#[test]
fn test_scheduler_creation() {
    let scheduler = Scheduler::new();
    assert_eq!(scheduler.get_state(), SchedulerState::Stopped);
    assert_eq!(scheduler.job_count(), 0);
}

#[test]
fn test_add_job_success() {
    let mut scheduler = Scheduler::new();
    let plan = scheduler.engine_plan();
    assert!(plan.create);
    assert!(!plan.start);
    let job_id = scheduler.add_job("task-1", "*/5 * * * *", 7, AddOutcome::Added).expect("add");
    assert_eq!(job_id, 7);
    assert_eq!(scheduler.job_count(), 1);
    assert!(scheduler.has_job("task-1"));
    assert!(!scheduler.engine_plan().create);
}

#[test]
fn test_add_job_invalid_cron() {
    let mut scheduler = Scheduler::new();
    let result = scheduler.add_job("task-1", "invalid", 9, AddOutcome::Added);
    assert_eq!(
        result,
        Err(SchedulerError::InvalidCronExpression {
            expression: "invalid".to_string(),
            message: "Invalid field count: expected 5, got 1".to_string(),
        })
    );
    assert_eq!(scheduler.job_count(), 0);
    let result = scheduler.check_job("invalid");
    assert!(result.is_err());
    assert!(matches!(result.unwrap_err(), SchedulerError::InvalidCronExpression { .. }));
    assert_eq!(scheduler.check_job("*/5 * * * *"), Ok("0 */5 * * * *".to_string()));
}

#[test]
fn test_remove_job_success() {
    let mut scheduler = Scheduler::new();
    scheduler.add_job("task-1", "*/5 * * * *", 1, AddOutcome::Added).unwrap();
    assert_eq!(scheduler.job_count(), 1);
    scheduler.remove_job("task-1", Ok(())).expect("remove");
    assert_eq!(scheduler.job_count(), 0);
    assert!(!scheduler.has_job("task-1"));
}

#[test]
fn test_remove_job_not_found() {
    let mut scheduler = Scheduler::new();
    let result = scheduler.remove_job("nonexistent", Ok(()));
    assert!(result.is_err());
    assert!(matches!(result.unwrap_err(), SchedulerError::JobNotFound { .. }));
}

#[test]
fn test_start_scheduler() {
    let mut scheduler = Scheduler::new();
    scheduler.add_job("task-1", "*/5 * * * *", 1, AddOutcome::Added).unwrap();
    scheduler.start(StartOutcome::Started).expect("start");
    assert_eq!(scheduler.get_state(), SchedulerState::Running);
}

#[test]
fn test_start_already_running() {
    let mut scheduler = Scheduler::new();
    scheduler.start(StartOutcome::Started).unwrap();
    let result = scheduler.start(StartOutcome::Started);
    assert!(matches!(result.unwrap_err(), SchedulerError::AlreadyRunning));
}

#[test]
fn test_stop_scheduler() {
    let mut scheduler = Scheduler::new();
    scheduler.start(StartOutcome::Started).unwrap();
    scheduler.stop(Ok(())).unwrap();
    assert_eq!(scheduler.get_state(), SchedulerState::Stopped);
}

#[test]
fn test_stop_not_running() {
    let mut scheduler = Scheduler::new();
    let result = scheduler.stop(Ok(()));
    assert!(matches!(result.unwrap_err(), SchedulerError::NotRunning));
}

#[test]
fn test_get_job_info() {
    let mut scheduler = Scheduler::new();
    scheduler.add_job("task-1", "0 9 * * 1-5", 11, AddOutcome::Added).unwrap();
    let info = scheduler.get_job_info("task-1").expect("info");
    assert_eq!(info.task_id, "task-1");
    assert_eq!(info.job_id, 11);
    assert_eq!(info.cron_expression, "0 9 * * 1-5");
    assert!(scheduler.get_job_info("other").is_none());
}

#[test]
fn test_scheduler_error_display() {
    let err = SchedulerError::JobNotFound { task_id: "task-1".to_string() };
    assert_eq!(err.to_string(), "Job not found for task task-1");
    assert_eq!(SchedulerError::AlreadyRunning.to_string(), "Scheduler is already running");
    assert_eq!(SchedulerError::NotRunning.to_string(), "Scheduler is not running");
}

#[test]
fn test_one_shot_cleanup_does_not_remove_replaced_job_entry() {
    let mut scheduler = Scheduler::new();
    scheduler.add_one_shot_job("task-1", 30, 1, AddOutcome::Added).unwrap();
    assert_eq!(scheduler.get_job_info("task-1").unwrap().cron_expression, "@once+30s");
    scheduler.add_job("task-1", "*/5 * * * *", 2, AddOutcome::Added).unwrap();
    assert!(!scheduler.complete_one_shot("task-1", 1));
    assert!(scheduler.has_job("task-1"));
    assert!(scheduler.complete_one_shot("task-1", 2));
    assert!(!scheduler.has_job("task-1"));
}

#[test]
fn engine_failures_leave_jobs_unchanged() {
    let mut scheduler = Scheduler::new();
    let r = scheduler.add_job("task-1", "* * * * *", 1, AddOutcome::CreateFailed("no".to_string()));
    assert_eq!(r, Err(SchedulerError::SchedulerCreationFailed { message: "no".to_string() }));
    assert_eq!(scheduler.job_count(), 0);
    let r = scheduler.add_job("task-1", "* * * * *", 1, AddOutcome::AddFailed("bad".to_string()));
    assert_eq!(
        r,
        Err(SchedulerError::JobAddFailed { task_id: "task-1".to_string(), message: "bad".to_string() })
    );
    scheduler.start(StartOutcome::Started).unwrap();
    scheduler.add_job("task-1", "* * * * *", 3, AddOutcome::Added).unwrap();
    let r = scheduler.remove_job("task-1", Err("busy".to_string()));
    assert!(matches!(r, Err(SchedulerError::JobRemoveFailed { .. })));
    assert!(scheduler.has_job("task-1"));
    let r = scheduler.stop(Err("stuck".to_string()));
    assert_eq!(r, Err(SchedulerError::StopFailed { message: "stuck".to_string() }));
    assert_eq!(scheduler.get_state(), SchedulerState::Running);
    scheduler.clear_jobs();
    assert_eq!(scheduler.job_count(), 0);
}

#[test]
fn test_process_output_success() {
    let output = ProcessOutput {
        status: 0,
        stdout: "output".to_string(),
        stderr: String::new(),
        timed_out: false,
    };
    assert!(output.success());
    assert_eq!(output.code(), Some(0));
    assert!(!output.timed_out);
}

#[test]
fn test_process_output_failure() {
    let output = ProcessOutput {
        status: 1,
        stdout: String::new(),
        stderr: "error".to_string(),
        timed_out: false,
    };
    assert!(!output.success());
    assert!(!output.timed_out);
}

#[test]
fn test_process_output_timeout() {
    let output = ProcessOutput {
        status: 137,
        stdout: String::new(),
        stderr: String::new(),
        timed_out: true,
    };
    assert!(!output.success());
    assert!(output.timed_out);
}

#[test]
fn test_timeout_error_display() {
    let error = TimeoutError::Timeout { timeout_secs: 30 };
    assert_eq!(error.to_string(), "Process execution timed out after 30 seconds");

    let error = TimeoutError::SpawnFailed { message: "command not found".to_string() };
    assert_eq!(error.to_string(), "Failed to spawn process: command not found");

    let error = TimeoutError::KillFailed { pid: 1234, message: "no such process".to_string() };
    assert_eq!(error.to_string(), "Failed to kill process 1234: no such process");
}

#[test]
fn exit_codes_of_wait_statuses() {
    let exited_3 = ProcessOutput { status: 3 << 8, stdout: String::new(), stderr: String::new(), timed_out: false };
    assert_eq!(exited_3.code(), Some(3));
    assert!(!exited_3.success());
    let killed = ProcessOutput::timed_out_output();
    assert_eq!(killed.code(), None);
    assert_eq!(killed.status, 137);
    assert!(killed.timed_out);
    assert_eq!(timed_out_result(Ok(())), Ok(ProcessOutput::timed_out_output()));
    let e = TimeoutError::KillFailed { pid: 5, message: "x".to_string() };
    assert_eq!(timed_out_result(Err(e.clone())), Err(e));
    assert_eq!(
        TimeoutError::ExecutionFailed { message: "m".to_string() }.to_string(),
        "Process execution failed: m"
    );
}

#[test]
fn pid_registry_tracks_processes() {
    let mut registry = PidRegistry::new();
    register_pid(&mut registry, 10);
    register_pid(&mut registry, 20);
    register_pid(&mut registry, 10);
    assert_eq!(running_count(&registry), 2);
    let mut pids = get_pids(&registry);
    pids.sort();
    assert_eq!(pids, vec![10, 20]);
    unregister_pid(&mut registry, 10);
    assert_eq!(running_count(&registry), 1);
    let drained = drain_pids(&mut registry);
    assert_eq!(drained, vec![20]);
    assert_eq!(running_count(&registry), 0);
}

#[test]
fn orphan_opencode_processes_from_ps_output() {
    let ps = "  PID COMM\n  101 /usr/bin/opencode\n  102 bash\nabc opencode\n  103 opencode-helper\n";
    assert_eq!(orphan_candidates(ps), vec![101, 103]);
    assert!(in_work_dir("4242: /home/me/.local/share/mywork", "/home/me/.local/share/mywork"));
    assert!(!in_work_dir("4242: /tmp", "/home/me"));
}

#[test]
fn simple_schedule_parts() {
    assert_eq!(parse_time(&"7:05".to_string()), Ok((7, 5)));
    assert!(matches!(parse_time(&"7".to_string()), Err(ScheduleError::InvalidTimeFormat(_))));
    assert_eq!(parse_day_of_week(&"Sun".to_string()), Ok(0));
    assert_eq!(parse_day_of_week(&"friday".to_string()), Ok(5));
    assert!(matches!(parse_day_of_week(&"x".to_string()), Err(ScheduleError::InvalidDayOfWeek(_))));
}

fn task_with(cron: Option<&str>, once_at: Option<&str>, simple: Option<&str>) -> Task {
    Task {
        id: "t1".to_string(),
        name: "n".to_string(),
        prompt: "p".to_string(),
        cron_expression: cron.map(|s| s.to_string()),
        simple_schedule: simple.map(|s| s.to_string()),
        once_at: once_at.map(|s| s.to_string()),
        enabled: 1,
        timeout_seconds: 300,
        created_at: "c".to_string(),
        updated_at: "u".to_string(),
    }
}

#[test]
fn schedule_of_a_task() {
    assert_eq!(
        get_task_schedule(&task_with(Some("0 * * * *"), Some("2030-01-01T00:00:00Z"), None)),
        Some(TaskSchedule::Cron("0 * * * *".to_string()))
    );
    assert_eq!(
        get_task_schedule(&task_with(None, Some("2030-01-01T00:00:00Z"), None)),
        Some(TaskSchedule::Once(UtcTime { secs: 1893456000, nanos: 0 }))
    );
    assert_eq!(
        get_task_schedule(&task_with(None, Some("not a date"), Some("{\"type\":\"daily\",\"time\":\"09:30\"}"))),
        Some(TaskSchedule::Cron("30 9 * * *".to_string()))
    );
    assert_eq!(get_task_schedule(&task_with(None, None, Some("{}"))), None);
    assert_eq!(get_task_schedule(&task_with(None, None, None)), None);
}

#[test]
fn test_task_queue_default() {
    let queue = TaskQueue::default();
    assert_eq!(queue.running_count(), 0);
}

#[test]
fn test_concurrent_tasks_allowed() {
    let mut queue = TaskQueue::new();
    let guard1 = queue.acquire_slot("task-1").expect("Failed to acquire slot 1");
    let guard2 = queue.acquire_slot("task-2").expect("Failed to acquire slot 2");
    let guard3 = queue.acquire_slot("task-3").expect("Failed to acquire slot 3");
    assert_eq!(queue.running_count(), 3);
    queue.release(guard1);
    queue.release(guard2);
    queue.release(guard3);
    assert_eq!(queue.running_count(), 0);
}

#[test]
fn test_full_lifecycle() {
    let mut queue = TaskQueue::new();
    let guard1 = queue.acquire_slot("task-1").expect("Failed to acquire slot 1");
    let guard2 = queue.acquire_slot("task-2").expect("Failed to acquire slot 2");
    let guard3 = queue.acquire_slot("task-3").expect("Failed to acquire slot 3");
    assert_eq!(queue.running_count(), 3);
    let result = queue.acquire_slot("task-1");
    assert!(matches!(result.unwrap_err(), TaskQueueError::TaskAlreadyRunning { .. }));
    queue.release(guard1);
    assert_eq!(queue.running_count(), 2);
    let guard4 = queue.acquire_slot("task-4").expect("Failed to acquire slot 4");
    assert!(queue.is_running("task-4"));
    queue.release(guard2);
    queue.release(guard3);
    queue.release(guard4);
    assert_eq!(queue.running_count(), 0);
}

#[test]
fn test_multiple_jobs() {
    let mut scheduler = Scheduler::new();
    scheduler.add_job("task-1", "*/5 * * * *", 1, AddOutcome::Added).expect("Failed to add job 1");
    scheduler.add_job("task-2", "*/10 * * * *", 2, AddOutcome::Added).expect("Failed to add job 2");
    scheduler.add_job("task-3", "*/15 * * * *", 3, AddOutcome::Added).expect("Failed to add job 3");
    assert_eq!(scheduler.job_count(), 3);
    assert!(scheduler.has_job("task-1"));
    assert!(scheduler.has_job("task-2"));
    assert!(scheduler.has_job("task-3"));
}

#[test]
fn test_add_job_after_start() {
    let mut scheduler = Scheduler::new();
    scheduler.add_job("task-1", "*/5 * * * *", 1, AddOutcome::Added).expect("Failed to add job 1");
    scheduler.start(StartOutcome::Started).expect("Failed to start scheduler");
    assert!(!scheduler.engine_plan().create);
    scheduler.add_job("task-2", "*/10 * * * *", 2, AddOutcome::Added).expect("Failed to add job 2");
    assert_eq!(scheduler.job_count(), 2);
}

#[test]
fn test_start_initializes_scheduler_without_jobs() {
    let mut scheduler = Scheduler::new();
    scheduler.start(StartOutcome::Started).expect("Failed to start scheduler");
    assert_eq!(scheduler.get_state(), SchedulerState::Running);
    assert!(!scheduler.engine_plan().create, "scheduler instance should be initialized on start");
}

#[test]
fn test_replace_one_shot_with_cron_reuses_task_id_safely() {
    let mut scheduler = Scheduler::new();
    scheduler.add_one_shot_job("task-switch", 30, 1, AddOutcome::Added).expect("Failed to add one-shot job");
    let one_shot_info = scheduler.get_job_info("task-switch").expect("Expected one-shot job info");
    assert!(one_shot_info.cron_expression.starts_with("@once+"));
    scheduler.remove_job("task-switch", Ok(())).expect("Failed to remove one-shot job");
    assert!(!scheduler.has_job("task-switch"));
    scheduler.add_job("task-switch", "0 * * * *", 2, AddOutcome::Added).expect("Failed to add cron job");
    let cron_info = scheduler.get_job_info("task-switch").expect("Expected cron job info");
    assert_eq!(cron_info.cron_expression, "0 * * * *");
}

#[test]
fn test_remove_job_after_start() {
    let mut scheduler = Scheduler::new();
    scheduler.add_job("task-1", "*/5 * * * *", 1, AddOutcome::Added).expect("Failed to add job 1");
    scheduler.add_job("task-2", "*/10 * * * *", 2, AddOutcome::Added).expect("Failed to add job 2");
    scheduler.start(StartOutcome::Started).expect("Failed to start scheduler");
    scheduler.remove_job("task-1", Ok(())).expect("Failed to remove job");
    assert_eq!(scheduler.job_count(), 1);
    assert!(!scheduler.has_job("task-1"));
    assert!(scheduler.has_job("task-2"));
}

#[test]
fn test_scheduler_full_lifecycle() {
    let mut scheduler = Scheduler::new();
    scheduler.add_job("task-1", "* * * * *", 1, AddOutcome::Added).expect("Failed to add job 1");
    scheduler.add_job("task-2", "* * * * *", 2, AddOutcome::Added).expect("Failed to add job 2");
    assert_eq!(scheduler.job_count(), 2);
    scheduler.start(StartOutcome::Started).expect("Failed to start scheduler");
    assert_eq!(scheduler.get_state(), SchedulerState::Running);
    scheduler.remove_job("task-1", Ok(())).expect("Failed to remove job");
    assert_eq!(scheduler.job_count(), 1);
    scheduler.stop(Ok(())).expect("Failed to stop scheduler");
    assert_eq!(scheduler.get_state(), SchedulerState::Stopped);
}

#[test]
fn invalid_cron_error_names_the_expression() {
    let err = SchedulerError::InvalidCronExpression {
        expression: "* * *".to_string(),
        message: "Invalid field count".to_string(),
    };
    assert!(err.to_string().contains("* * *"));
    assert_eq!(err.to_string(), "Invalid cron expression '* * *': Invalid field count");
}
