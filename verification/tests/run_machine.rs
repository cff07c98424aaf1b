use mywork::commands::run_flow::{
    manual_answer, run_step, scheduled_answer, MarkReason, RunAction, RunAnswer, RunEnd,
    RunEvent, RunPhase, StreamOutcome,
};
use mywork::commands::task_flow::{
    delete_answer, delete_step, DeleteAction, DeleteAnswer, DeleteEvent, DeletePhase,
};
use mywork::scheduler::task_queue::TaskQueueError;

fn drive(mut phase: RunPhase, events: Vec<RunEvent>) -> (RunPhase, Vec<RunAction>) {
    let mut actions = Vec::new();
    for event in events {
        let (next, action) = run_step(phase, event);
        phase = next;
        actions.push(action);
    }
    (phase, actions)
}

fn unstarted(answer: RunAnswer) -> RunAction {
    RunAction::Finish(RunEnd {
        mark_failed: None,
        release_slot: false,
        notify_finished: false,
        prune_history: false,
        answer,
    })
}

fn held(mark: Option<MarkReason>, notify: bool, prune: bool, answer: RunAnswer) -> RunAction {
    RunAction::Finish(RunEnd {
        mark_failed: mark,
        release_slot: true,
        notify_finished: notify,
        prune_history: prune,
        answer,
    })
}

#[test]
fn sleeping_system_refuses_a_manual_run_before_anything() {
    let (phase, actions) = drive(
        RunPhase::Start { scheduled: false },
        vec![RunEvent::Checked { sleeping: true }],
    );
    assert_eq!(phase, RunPhase::Done);
    assert_eq!(actions, vec![unstarted(RunAnswer::Sleeping)]);
    assert_eq!(
        manual_answer("e".to_string(), RunAnswer::Sleeping),
        Err("System is sleeping; task execution is paused".to_string())
    );
}

#[test]
fn scheduled_run_skips_quietly_when_sleeping_or_busy() {
    let (_, actions) = drive(
        RunPhase::Start { scheduled: true },
        vec![RunEvent::Checked { sleeping: true }],
    );
    assert_eq!(actions, vec![unstarted(RunAnswer::Sleeping)]);
    assert_eq!(scheduled_answer(RunAnswer::Sleeping), Ok(()));

    let refusal = TaskQueueError::TaskAlreadyRunning { task_id: "t".to_string() };
    let (phase, actions) = drive(
        RunPhase::Start { scheduled: true },
        vec![RunEvent::Checked { sleeping: false }, RunEvent::SlotRefused(refusal.clone())],
    );
    assert_eq!(phase, RunPhase::Done);
    assert_eq!(
        actions,
        vec![RunAction::AcquireSlot, unstarted(RunAnswer::SlotTaken(refusal.clone()))]
    );
    assert_eq!(scheduled_answer(RunAnswer::SlotTaken(refusal)), Ok(()));
}

#[test]
fn busy_task_refuses_a_manual_run() {
    let refusal = TaskQueueError::TaskAlreadyRunning { task_id: "t".to_string() };
    let (_, actions) = drive(
        RunPhase::Start { scheduled: false },
        vec![RunEvent::Checked { sleeping: false }, RunEvent::SlotRefused(refusal.clone())],
    );
    assert_eq!(actions[1], unstarted(RunAnswer::SlotTaken(refusal.clone())));
    assert_eq!(
        manual_answer("e".to_string(), RunAnswer::SlotTaken(refusal)),
        Err("Task 't' is already running".to_string())
    );
    let other = TaskQueueError::TaskNotFound { task_id: "t".to_string() };
    assert_eq!(
        manual_answer("e".to_string(), RunAnswer::SlotTaken(other)),
        Err("Failed to acquire slot: Task 't' not found in running tasks".to_string())
    );
}

#[test]
fn successful_manual_run_walks_every_phase() {
    let (phase, actions) = drive(
        RunPhase::Start { scheduled: false },
        vec![
            RunEvent::Checked { sleeping: false },
            RunEvent::SlotGranted,
            RunEvent::ExecutionCreated,
            RunEvent::OutputReady,
            RunEvent::Spawned,
            RunEvent::StreamEnded(StreamOutcome::Exited(0)),
            RunEvent::Recorded,
        ],
    );
    assert_eq!(phase, RunPhase::Done);
    assert_eq!(
        actions,
        vec![
            RunAction::AcquireSlot,
            RunAction::Proceed { notify_started: false },
            RunAction::Proceed { notify_started: true },
            RunAction::Proceed { notify_started: false },
            RunAction::Proceed { notify_started: false },
            RunAction::Record,
            held(None, true, true, RunAnswer::Finished(StreamOutcome::Exited(0))),
        ]
    );
    assert_eq!(
        manual_answer("exec-1".to_string(), RunAnswer::Finished(StreamOutcome::Exited(0))),
        Ok("exec-1".to_string())
    );
    assert_eq!(
        manual_answer("exec-1".to_string(), RunAnswer::Finished(StreamOutcome::Exited(2))),
        Err("Task execution failed with status: Failed - Process exited with code 2".to_string())
    );
    assert_eq!(
        manual_answer("exec-1".to_string(), RunAnswer::Finished(StreamOutcome::TimedOut)),
        Err("Task execution failed with status: Timeout - Execution timed out".to_string())
    );
    assert_eq!(scheduled_answer(RunAnswer::Finished(StreamOutcome::Exited(2))), Ok(()));
}

#[test]
fn manual_failure_after_creation_marks_the_execution() {
    let (phase, actions) = drive(
        RunPhase::Start { scheduled: false },
        vec![
            RunEvent::Checked { sleeping: false },
            RunEvent::SlotGranted,
            RunEvent::ExecutionCreated,
            RunEvent::StepFailed("Failed to create output directory: denied".to_string()),
        ],
    );
    assert_eq!(phase, RunPhase::Done);
    let answer = RunAnswer::Failed("Failed to create output directory: denied".to_string());
    assert_eq!(actions[3], held(Some(MarkReason::StepError), true, false, answer.clone()));
    assert_eq!(
        manual_answer("e".to_string(), answer),
        Err("Failed to create output directory: denied".to_string())
    );
}

#[test]
fn scheduled_failure_after_creation_leaves_the_execution() {
    let (_, actions) = drive(
        RunPhase::Start { scheduled: true },
        vec![
            RunEvent::Checked { sleeping: false },
            RunEvent::SlotGranted,
            RunEvent::ExecutionCreated,
            RunEvent::StepFailed("boom".to_string()),
        ],
    );
    let answer = RunAnswer::Failed("boom".to_string());
    assert_eq!(actions[3], held(None, true, false, answer.clone()));
    assert_eq!(scheduled_answer(answer), Err("boom".to_string()));
}

#[test]
fn failure_before_creation_releases_without_announcing() {
    let (_, actions) = drive(
        RunPhase::Start { scheduled: false },
        vec![
            RunEvent::Checked { sleeping: false },
            RunEvent::SlotGranted,
            RunEvent::StepFailed("Task not found: gone".to_string()),
        ],
    );
    assert_eq!(
        actions[2],
        held(None, false, false, RunAnswer::Failed("Task not found: gone".to_string()))
    );
}

#[test]
fn sleep_after_creation_fails_the_execution() {
    let (phase, actions) = drive(
        RunPhase::Start { scheduled: false },
        vec![
            RunEvent::Checked { sleeping: false },
            RunEvent::SlotGranted,
            RunEvent::ExecutionCreated,
            RunEvent::SleepDetected,
            RunEvent::Recorded,
        ],
    );
    assert_eq!(phase, RunPhase::Done);
    assert_eq!(actions[3], RunAction::MarkSleepIfRunning);
    assert_eq!(actions[4], held(None, true, false, RunAnswer::Sleeping));

    let (_, actions) = drive(
        RunPhase::Start { scheduled: false },
        vec![
            RunEvent::Checked { sleeping: false },
            RunEvent::SlotGranted,
            RunEvent::ExecutionCreated,
            RunEvent::OutputReady,
            RunEvent::SleepDetected,
        ],
    );
    assert_eq!(
        actions[4],
        held(Some(MarkReason::SystemSleep), true, false, RunAnswer::Sleeping)
    );

    let (_, actions) = drive(
        RunPhase::Start { scheduled: true },
        vec![
            RunEvent::Checked { sleeping: false },
            RunEvent::SlotGranted,
            RunEvent::ExecutionCreated,
            RunEvent::OutputReady,
            RunEvent::SleepDetected,
            RunEvent::RecordFailed("Failed to update execution: locked".to_string()),
        ],
    );
    assert_eq!(actions[4], RunAction::MarkSleepIfRunning);
    assert_eq!(
        actions[5],
        held(None, true, false, RunAnswer::Failed("Failed to update execution: locked".to_string()))
    );
}

#[test]
fn failed_record_skips_pruning() {
    let (_, actions) = drive(
        RunPhase::Streaming { scheduled: false },
        vec![
            RunEvent::StreamEnded(StreamOutcome::TimedOut),
            RunEvent::RecordFailed("Failed to update execution: x".to_string()),
        ],
    );
    assert_eq!(
        actions[1],
        held(None, true, false, RunAnswer::Failed("Failed to update execution: x".to_string()))
    );
}

#[test]
fn stray_events_change_nothing() {
    let (phase, action) = run_step(RunPhase::Done, RunEvent::SlotGranted);
    assert_eq!((phase, action), (RunPhase::Done, RunAction::Ignore));
    let start = RunPhase::Start { scheduled: false };
    assert_eq!(run_step(start.clone(), RunEvent::Spawned), (start, RunAction::Ignore));
    let preparing =
        RunPhase::Preparing { scheduled: false, execution_created: false, output_ready: false };
    assert_eq!(
        run_step(preparing.clone(), RunEvent::Spawned),
        (preparing, RunAction::Ignore)
    );
}

fn drive_delete(events: Vec<DeleteEvent>) -> (DeletePhase, Vec<DeleteAction>) {
    let mut phase = DeletePhase::Start;
    let mut actions = Vec::new();
    for event in events {
        let (next, action) = delete_step(phase, event);
        phase = next;
        actions.push(action);
    }
    (phase, actions)
}

#[test]
fn running_task_is_refused_and_nothing_changes() {
    let (phase, actions) = drive_delete(vec![
        DeleteEvent::TaskLoaded { enabled: 1 },
        DeleteEvent::RunningChecked { running: true },
    ]);
    assert_eq!(phase, DeletePhase::Done);
    assert_eq!(
        actions,
        vec![DeleteAction::CheckRunning, DeleteAction::Finish(DeleteAnswer::Running)]
    );
    assert_eq!(
        delete_answer("task-1", DeleteAnswer::Running),
        Err("Cannot delete task 'task-1' while it is running".to_string())
    );
}

#[test]
fn idle_task_is_cleaned_unscheduled_and_deleted() {
    let (phase, actions) = drive_delete(vec![
        DeleteEvent::TaskLoaded { enabled: 1 },
        DeleteEvent::RunningChecked { running: false },
        DeleteEvent::OutputsCleaned,
        DeleteEvent::JobChecked { had_job: true },
        DeleteEvent::JobRemoved,
        DeleteEvent::RowDeleted { deleted: true },
    ]);
    assert_eq!(phase, DeletePhase::Done);
    assert_eq!(
        actions,
        vec![
            DeleteAction::CheckRunning,
            DeleteAction::CleanOutputs,
            DeleteAction::CheckJob,
            DeleteAction::RemoveJob,
            DeleteAction::DeleteRow,
            DeleteAction::Finish(DeleteAnswer::Deleted(true)),
        ]
    );
    assert_eq!(delete_answer("t", DeleteAnswer::Deleted(true)), Ok(true));
}

#[test]
fn noop_delete_restores_the_job() {
    let (_, actions) = drive_delete(vec![
        DeleteEvent::TaskLoaded { enabled: 1 },
        DeleteEvent::RunningChecked { running: false },
        DeleteEvent::OutputsCleaned,
        DeleteEvent::JobChecked { had_job: true },
        DeleteEvent::JobRemoved,
        DeleteEvent::RowDeleted { deleted: false },
        DeleteEvent::RestoreFailed("bad cron".to_string()),
    ]);
    assert_eq!(actions[5], DeleteAction::RestoreJob);
    assert_eq!(
        actions[6],
        DeleteAction::Finish(DeleteAnswer::RestoreFailed("bad cron".to_string()))
    );
    assert_eq!(
        delete_answer("t", DeleteAnswer::RestoreFailed("bad cron".to_string())),
        Err("Task was not deleted and scheduler restore failed: bad cron".to_string())
    );

    let (_, actions) = drive_delete(vec![
        DeleteEvent::TaskLoaded { enabled: 0 },
        DeleteEvent::RunningChecked { running: false },
        DeleteEvent::OutputsCleaned,
        DeleteEvent::JobChecked { had_job: false },
        DeleteEvent::RowDeleted { deleted: false },
    ]);
    assert_eq!(actions[4], DeleteAction::Finish(DeleteAnswer::Deleted(false)));
}

#[test]
fn failed_delete_restores_the_job_and_reports_both() {
    let (_, actions) = drive_delete(vec![
        DeleteEvent::TaskLoaded { enabled: 1 },
        DeleteEvent::RunningChecked { running: false },
        DeleteEvent::OutputsCleaned,
        DeleteEvent::JobChecked { had_job: true },
        DeleteEvent::JobRemoved,
        DeleteEvent::DeleteFailed("disk I/O error".to_string()),
        DeleteEvent::RestoreFailed("engine down".to_string()),
    ]);
    let answer = DeleteAnswer::DeleteFailed {
        error: "disk I/O error".to_string(),
        restore_error: Some("engine down".to_string()),
    };
    assert_eq!(actions[6], DeleteAction::Finish(answer.clone()));
    assert_eq!(
        delete_answer("t", answer),
        Err("Failed to delete task with related data: disk I/O error. Also failed to restore scheduler entry: engine down".to_string())
    );

    let (_, actions) = drive_delete(vec![
        DeleteEvent::TaskLoaded { enabled: 1 },
        DeleteEvent::RunningChecked { running: false },
        DeleteEvent::OutputsCleaned,
        DeleteEvent::JobChecked { had_job: false },
        DeleteEvent::DeleteFailed("disk I/O error".to_string()),
    ]);
    assert_eq!(
        actions[4],
        DeleteAction::Finish(DeleteAnswer::DeleteFailed {
            error: "disk I/O error".to_string(),
            restore_error: None
        })
    );
}

#[test]
fn failed_step_ends_the_delete() {
    let (phase, actions) = drive_delete(vec![
        DeleteEvent::TaskLoaded { enabled: 1 },
        DeleteEvent::RunningChecked { running: false },
        DeleteEvent::StepFailed("Failed to get output directory: none".to_string()),
    ]);
    assert_eq!(phase, DeletePhase::Done);
    assert_eq!(
        actions[2],
        DeleteAction::Finish(DeleteAnswer::Failed("Failed to get output directory: none".to_string()))
    );
    assert_eq!(
        delete_answer("t", DeleteAnswer::Failed("x".to_string())),
        Err("x".to_string())
    );
    assert_eq!(
        delete_step(DeletePhase::Done, DeleteEvent::OutputsCleaned),
        (DeletePhase::Done, DeleteAction::Ignore)
    );
}
