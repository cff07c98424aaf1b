//! The decisions behind editing and deleting tasks: the order of a
//! deletion's steps (`delete_step`), when the previous scheduler entry is
//! restored after a failure, what the caller is told, and which output
//! files an execution leaves to delete.
use crate::models::execution::Execution;
use crate::text::{chars_of, chars_of_string, extend_chars, str_then_chars, string_of};
use vstd::prelude::*;

verus! {

/// After the stored task could not be rewritten (updated or deleted), its
/// old job is put back when it had one and the task was enabled.
pub fn restore_after_failed_write(had_scheduler_job: bool, previous_enabled: i32) -> (r: bool)
    ensures
        r == (had_scheduler_job && previous_enabled == 1),
{
    had_scheduler_job && previous_enabled == 1
}

/// After the updated task could not be scheduled, its old job is put back
/// when the task was enabled before.
pub fn restore_after_failed_schedule(previous_enabled: i32) -> (r: bool)
    ensures
        r == (previous_enabled == 1),
{
    previous_enabled == 1
}

/// After a delete that removed no row, the job that was removed for it is
/// put back when the task had one and was enabled.
pub fn restore_after_noop_delete(deleted: bool, had_scheduler_job: bool, enabled: i32) -> (r: bool)
    ensures
        r == (!deleted && had_scheduler_job && enabled == 1),
{
    !deleted && had_scheduler_job && enabled == 1
}

/// The message of a failure, with the failure of the restore that followed
/// if there was one: `<what>: <error>`, then
/// `. Also failed to restore <entry>: <restore error>`.
pub open spec fn failure_text(
    what: Seq<char>,
    error: Seq<char>,
    entry: Seq<char>,
    restore_error: Option<Seq<char>>,
) -> Seq<char> {
    what + ": "@ + error + match restore_error {
        Some(r) => ". Also failed to restore "@ + entry + ": "@ + r,
        None => Seq::<char>::empty(),
    }
}

fn failure_message(what: &str, error: &str, entry: &str, restore_error: Option<&str>) -> (r: String)
    ensures
        r@ == failure_text(
            what@,
            error@,
            entry@,
            match restore_error {
                Some(x) => Some(x@),
                None => None,
            },
        ),
{
    let mut v = chars_of(what);
    extend_chars(&mut v, chars_of(": ").as_slice());
    extend_chars(&mut v, chars_of(error).as_slice());
    let ghost head = v@;
    match restore_error {
        Some(x) => {
            extend_chars(&mut v, chars_of(". Also failed to restore ").as_slice());
            extend_chars(&mut v, chars_of(entry).as_slice());
            extend_chars(&mut v, chars_of(": ").as_slice());
            extend_chars(&mut v, chars_of(x).as_slice());
            assert(v@ =~= head + (". Also failed to restore "@ + entry@ + ": "@ + x@));
        },
        None => {
            assert(v@ =~= head + Seq::<char>::empty());
        },
    }
    string_of(v.as_slice())
}

/// The answer when the stored task could not be updated.
pub fn update_write_failure(error: &str, restore_error: Option<&str>) -> (r: String)
    ensures
        r@ == failure_text(
            "Failed to update task"@,
            error@,
            "previous schedule"@,
            match restore_error {
                Some(x) => Some(x@),
                None => None,
            },
        ),
{
    failure_message("Failed to update task", error, "previous schedule", restore_error)
}

/// The answer when the updated task could not be scheduled.
pub fn schedule_failure(error: &str, restore_error: Option<&str>) -> (r: String)
    ensures
        r@ == failure_text(
            "Failed to schedule updated task"@,
            error@,
            "previous schedule"@,
            match restore_error {
                Some(x) => Some(x@),
                None => None,
            },
        ),
{
    failure_message("Failed to schedule updated task", error, "previous schedule", restore_error)
}

/// The answer when the stored task could not be deleted.
pub fn delete_failure(error: &str, restore_error: Option<&str>) -> (r: String)
    ensures
        r@ == failure_text(
            "Failed to delete task with related data"@,
            error@,
            "scheduler entry"@,
            match restore_error {
                Some(x) => Some(x@),
                None => None,
            },
        ),
{
    failure_message("Failed to delete task with related data", error, "scheduler entry", restore_error)
}

/// The answer to deleting a task that is running.
pub fn running_delete_refusal(task_id: &str) -> (r: String)
    ensures
        r@ == "Cannot delete task '"@ + task_id@ + "' while it is running"@,
{
    let mut v = str_then_chars("Cannot delete task '", chars_of(task_id).as_slice());
    extend_chars(&mut v, chars_of("' while it is running").as_slice());
    string_of(v.as_slice())
}

/// The output files an execution leaves behind.
#[derive(Debug, Clone, PartialEq, Eq)]
pub enum OutputCleanup {
    /// The file the execution recorded.
    File(String),
    /// Every file named after the execution (none was recorded).
    AllFor(String),
}

/// Which output files to delete with an execution: its recorded file, or
/// all files named after it.
pub fn output_cleanup(execution: &Execution) -> (r: OutputCleanup)
    ensures
        match execution.output_file {
            Some(f) => r == OutputCleanup::File(f),
            None => r == OutputCleanup::AllFor(execution.id),
        },
{
    match &execution.output_file {
        Some(f) => OutputCleanup::File(f.clone()),
        None => OutputCleanup::AllFor(execution.id.clone()),
    }
}

/// The message when the output of an execution could not be deleted.
pub fn cleanup_failure(cleanup: &OutputCleanup, execution_id: &str, error: &str) -> (r: String)
    ensures
        match *cleanup {
            OutputCleanup::File(f) => r@ == "Failed to delete output file '"@ + f@
                + "' for execution '"@ + execution_id@ + "': "@ + error@,
            OutputCleanup::AllFor(_) => r@ == "Failed to delete output files for execution '"@
                + execution_id@ + "': "@ + error@,
        },
{
    let mut v = match cleanup {
        OutputCleanup::File(f) => {
            let mut v = str_then_chars("Failed to delete output file '", chars_of_string(f).as_slice());
            extend_chars(&mut v, chars_of("' for execution '").as_slice());
            v
        },
        OutputCleanup::AllFor(_) => chars_of("Failed to delete output files for execution '"),
    };
    extend_chars(&mut v, chars_of(execution_id).as_slice());
    extend_chars(&mut v, chars_of("': ").as_slice());
    extend_chars(&mut v, chars_of(error).as_slice());
    string_of(v.as_slice())
}


/// Where the deletion of a task stands.
#[derive(Debug, Clone, PartialEq, Eq)]
pub enum DeletePhase {
    /// The task is being loaded.
    Start,
    /// The task was loaded (with its `enabled` flag); whether it runs is
    /// being checked.
    Loaded { enabled: i32 },
    /// The output files of its executions are being deleted.
    Cleaning { enabled: i32 },
    /// Whether the scheduler has a job for it is being checked.
    Unscheduling { enabled: i32 },
    /// Its scheduler job is being removed.
    Removing { enabled: i32 },
    /// Its row is being deleted.
    Deleting { enabled: i32, had_job: bool },
    /// No row was deleted; the removed job is being put back.
    RestoringNoop,
    /// Deleting the row failed with `error`; the removed job is being put
    /// back.
    RestoringAfterError { error: String },
    /// The deletion is over.
    Done,
}

/// What the caller observed since the last step.
#[derive(Debug, Clone, PartialEq, Eq)]
pub enum DeleteEvent {
    /// The task was loaded.
    TaskLoaded { enabled: i32 },
    /// Whether the task runs was checked.
    RunningChecked { running: bool },
    /// The output files were deleted.
    OutputsCleaned,
    /// Whether the scheduler has a job for the task was checked.
    JobChecked { had_job: bool },
    /// The scheduler job was removed.
    JobRemoved,
    /// The row deletion ended; `deleted` tells whether a row went.
    RowDeleted { deleted: bool },
    /// Deleting the row failed with this message.
    DeleteFailed(String),
    /// The job was put back.
    Restored,
    /// Putting the job back failed with this message.
    RestoreFailed(String),
    /// A step before the row deletion failed with this message.
    StepFailed(String),
}

/// What a deletion comes to.
#[derive(Debug, Clone, PartialEq, Eq)]
pub enum DeleteAnswer {
    /// The row deletion ended; `deleted` tells whether a row went.
    Deleted(bool),
    /// The task runs; nothing was changed.
    Running,
    /// A step before the row deletion failed with this message.
    Failed(String),
    /// Deleting the row failed with `error`; putting the job back failed
    /// with `restore_error` if it did.
    DeleteFailed { error: String, restore_error: Option<String> },
    /// No row was deleted and putting the job back failed with this
    /// message.
    RestoreFailed(String),
}

/// What the caller does next.
#[derive(Debug, Clone, PartialEq, Eq)]
pub enum DeleteAction {
    /// Check whether the task runs.
    CheckRunning,
    /// Delete the output files of the task's executions.
    CleanOutputs,
    /// Check whether the scheduler has a job for the task.
    CheckJob,
    /// Remove the task's scheduler job.
    RemoveJob,
    /// Delete the task's row.
    DeleteRow,
    /// Put the task's job back in the scheduler.
    RestoreJob,
    /// End the deletion.
    Finish(DeleteAnswer),
    /// The event does not belong to this phase; nothing changes.
    Ignore,
}

/// The next phase of a deletion and what the caller does, given what it
/// observed.
///
/// A task that runs is refused before anything changes. Otherwise its
/// output files are deleted, its job is removed if it has one, and its row
/// is deleted. When the row deletion fails, or deletes no row, the removed
/// job of an enabled task is put back.
pub open spec fn delete_next(phase: DeletePhase, event: DeleteEvent) -> (DeletePhase, DeleteAction) {
    match (phase, event) {
        (DeletePhase::Start, DeleteEvent::TaskLoaded { enabled }) => (
            DeletePhase::Loaded { enabled },
            DeleteAction::CheckRunning,
        ),
        (DeletePhase::Loaded { enabled }, DeleteEvent::RunningChecked { running }) => if running {
            (DeletePhase::Done, DeleteAction::Finish(DeleteAnswer::Running))
        } else {
            (DeletePhase::Cleaning { enabled }, DeleteAction::CleanOutputs)
        },
        (DeletePhase::Cleaning { enabled }, DeleteEvent::OutputsCleaned) => (
            DeletePhase::Unscheduling { enabled },
            DeleteAction::CheckJob,
        ),
        (DeletePhase::Unscheduling { enabled }, DeleteEvent::JobChecked { had_job }) => if had_job {
            (DeletePhase::Removing { enabled }, DeleteAction::RemoveJob)
        } else {
            (DeletePhase::Deleting { enabled, had_job: false }, DeleteAction::DeleteRow)
        },
        (DeletePhase::Removing { enabled }, DeleteEvent::JobRemoved) => (
            DeletePhase::Deleting { enabled, had_job: true },
            DeleteAction::DeleteRow,
        ),
        (DeletePhase::Deleting { enabled, had_job }, DeleteEvent::RowDeleted { deleted }) => if !deleted
            && had_job && enabled == 1 {
            (DeletePhase::RestoringNoop, DeleteAction::RestoreJob)
        } else {
            (DeletePhase::Done, DeleteAction::Finish(DeleteAnswer::Deleted(deleted)))
        },
        (DeletePhase::Deleting { enabled, had_job }, DeleteEvent::DeleteFailed(error)) => if had_job
            && enabled == 1 {
            (DeletePhase::RestoringAfterError { error }, DeleteAction::RestoreJob)
        } else {
            (
                DeletePhase::Done,
                DeleteAction::Finish(DeleteAnswer::DeleteFailed { error, restore_error: None }),
            )
        },
        (DeletePhase::RestoringNoop, DeleteEvent::Restored) => (
            DeletePhase::Done,
            DeleteAction::Finish(DeleteAnswer::Deleted(false)),
        ),
        (DeletePhase::RestoringNoop, DeleteEvent::RestoreFailed(r)) => (
            DeletePhase::Done,
            DeleteAction::Finish(DeleteAnswer::RestoreFailed(r)),
        ),
        (DeletePhase::RestoringAfterError { error }, DeleteEvent::Restored) => (
            DeletePhase::Done,
            DeleteAction::Finish(DeleteAnswer::DeleteFailed { error, restore_error: None }),
        ),
        (DeletePhase::RestoringAfterError { error }, DeleteEvent::RestoreFailed(r)) => (
            DeletePhase::Done,
            DeleteAction::Finish(DeleteAnswer::DeleteFailed { error, restore_error: Some(r) }),
        ),
        (DeletePhase::Start, DeleteEvent::StepFailed(m)) | (
            DeletePhase::Cleaning { .. },
            DeleteEvent::StepFailed(m),
        ) | (DeletePhase::Removing { .. }, DeleteEvent::StepFailed(m)) => (
            DeletePhase::Done,
            DeleteAction::Finish(DeleteAnswer::Failed(m)),
        ),
        (p, _) => (p, DeleteAction::Ignore),
    }
}

/// Takes one step of a deletion.
pub fn delete_step(phase: DeletePhase, event: DeleteEvent) -> (r: (DeletePhase, DeleteAction))
    ensures
        r == delete_next(phase, event),
{
    match (phase, event) {
        (DeletePhase::Start, DeleteEvent::TaskLoaded { enabled }) => (
            DeletePhase::Loaded { enabled },
            DeleteAction::CheckRunning,
        ),
        (DeletePhase::Loaded { enabled }, DeleteEvent::RunningChecked { running }) => if running {
            (DeletePhase::Done, DeleteAction::Finish(DeleteAnswer::Running))
        } else {
            (DeletePhase::Cleaning { enabled }, DeleteAction::CleanOutputs)
        },
        (DeletePhase::Cleaning { enabled }, DeleteEvent::OutputsCleaned) => (
            DeletePhase::Unscheduling { enabled },
            DeleteAction::CheckJob,
        ),
        (DeletePhase::Unscheduling { enabled }, DeleteEvent::JobChecked { had_job }) => if had_job {
            (DeletePhase::Removing { enabled }, DeleteAction::RemoveJob)
        } else {
            (DeletePhase::Deleting { enabled, had_job: false }, DeleteAction::DeleteRow)
        },
        (DeletePhase::Removing { enabled }, DeleteEvent::JobRemoved) => (
            DeletePhase::Deleting { enabled, had_job: true },
            DeleteAction::DeleteRow,
        ),
        (DeletePhase::Deleting { enabled, had_job }, DeleteEvent::RowDeleted { deleted }) => {
            if restore_after_noop_delete(deleted, had_job, enabled) {
                (DeletePhase::RestoringNoop, DeleteAction::RestoreJob)
            } else {
                (DeletePhase::Done, DeleteAction::Finish(DeleteAnswer::Deleted(deleted)))
            }
        },
        (DeletePhase::Deleting { enabled, had_job }, DeleteEvent::DeleteFailed(error)) => {
            if restore_after_failed_write(had_job, enabled) {
                (DeletePhase::RestoringAfterError { error }, DeleteAction::RestoreJob)
            } else {
                (
                    DeletePhase::Done,
                    DeleteAction::Finish(DeleteAnswer::DeleteFailed { error, restore_error: None }),
                )
            }
        },
        (DeletePhase::RestoringNoop, DeleteEvent::Restored) => (
            DeletePhase::Done,
            DeleteAction::Finish(DeleteAnswer::Deleted(false)),
        ),
        (DeletePhase::RestoringNoop, DeleteEvent::RestoreFailed(r)) => (
            DeletePhase::Done,
            DeleteAction::Finish(DeleteAnswer::RestoreFailed(r)),
        ),
        (DeletePhase::RestoringAfterError { error }, DeleteEvent::Restored) => (
            DeletePhase::Done,
            DeleteAction::Finish(DeleteAnswer::DeleteFailed { error, restore_error: None }),
        ),
        (DeletePhase::RestoringAfterError { error }, DeleteEvent::RestoreFailed(r)) => (
            DeletePhase::Done,
            DeleteAction::Finish(DeleteAnswer::DeleteFailed { error, restore_error: Some(r) }),
        ),
        (DeletePhase::Start, DeleteEvent::StepFailed(m)) => (
            DeletePhase::Done,
            DeleteAction::Finish(DeleteAnswer::Failed(m)),
        ),
        (DeletePhase::Cleaning { .. }, DeleteEvent::StepFailed(m)) => (
            DeletePhase::Done,
            DeleteAction::Finish(DeleteAnswer::Failed(m)),
        ),
        (DeletePhase::Removing { .. }, DeleteEvent::StepFailed(m)) => (
            DeletePhase::Done,
            DeleteAction::Finish(DeleteAnswer::Failed(m)),
        ),
        (p, _) => (p, DeleteAction::Ignore),
    }
}

/// The reply to a deletion: whether a row went, or the message of what
/// stopped it.
pub open spec fn delete_reply_matches(task_id: Seq<char>, answer: DeleteAnswer, r: Result<
    bool,
    String,
>) -> bool {
    match answer {
        DeleteAnswer::Deleted(d) => r == Ok::<bool, String>(d),
        DeleteAnswer::Running => r is Err && r->Err_0@ == "Cannot delete task '"@ + task_id
            + "' while it is running"@,
        DeleteAnswer::Failed(m) => r == Err::<bool, String>(m),
        DeleteAnswer::DeleteFailed { error, restore_error } => r is Err && r->Err_0@
            == failure_text(
            "Failed to delete task with related data"@,
            error@,
            "scheduler entry"@,
            match restore_error {
                Some(x) => Some(x@),
                None => None,
            },
        ),
        DeleteAnswer::RestoreFailed(x) => r is Err && r->Err_0@
            == "Task was not deleted and scheduler restore failed: "@ + x@,
    }
}

/// Replies to the deletion of the task `task_id`.
pub fn delete_answer(task_id: &str, answer: DeleteAnswer) -> (r: Result<bool, String>)
    ensures
        delete_reply_matches(task_id@, answer, r),
{
    match answer {
        DeleteAnswer::Deleted(d) => Ok(d),
        DeleteAnswer::Running => Err(running_delete_refusal(task_id)),
        DeleteAnswer::Failed(m) => Err(m),
        DeleteAnswer::DeleteFailed { error, restore_error } => {
            let r = match &restore_error {
                Some(x) => Some(x.as_str()),
                None => None,
            };
            Err(delete_failure(error.as_str(), r))
        },
        DeleteAnswer::RestoreFailed(x) => {
            let v = str_then_chars(
                "Task was not deleted and scheduler restore failed: ",
                chars_of_string(&x).as_slice(),
            );
            Err(string_of(v.as_slice()))
        },
    }
}

/// The actions that change something: files, the scheduler or the row.
pub open spec fn changes_something(action: DeleteAction) -> bool {
    match action {
        DeleteAction::CleanOutputs | DeleteAction::RemoveJob | DeleteAction::DeleteRow
        | DeleteAction::RestoreJob => true,
        _ => false,
    }
}

/// A task that runs is refused, and nothing is changed before that: the
/// refusal ends the deletion, and no step before the running check changes
/// anything.
pub proof fn law_running_task_is_refused(enabled: i32, phase: DeletePhase, event: DeleteEvent)
    requires
        phase is Start || phase is Loaded,
    ensures
        delete_next(DeletePhase::Loaded { enabled }, DeleteEvent::RunningChecked { running: true })
            == (DeletePhase::Done, DeleteAction::Finish(DeleteAnswer::Running)),
        changes_something(delete_next(phase, event).1) ==> phase is Loaded && event == (
        DeleteEvent::RunningChecked { running: false }),
{
}

/// The row is deleted only after the output files were deleted and the
/// job, if there was one, removed; a job is put back only if one was
/// removed and the task was enabled.
pub proof fn law_delete_order(phase: DeletePhase, event: DeleteEvent)
    ensures
        ({
            let action = delete_next(phase, event).1;
            &&& action is DeleteRow ==> phase is Unscheduling || phase is Removing
            &&& action is RestoreJob ==> (phase matches DeletePhase::Deleting { enabled, had_job }
                && had_job && enabled == 1)
            &&& action is RemoveJob ==> phase is Unscheduling
        }),
{
}

/// A finished deletion stays finished.
pub proof fn law_finished_delete_is_final(event: DeleteEvent)
    ensures
        delete_next(DeletePhase::Done, event) == (DeletePhase::Done, DeleteAction::Ignore),
{
}


/// The phase a deletion reaches and the actions it takes when it observes
/// `events` in turn from `phase`.
pub open spec fn delete_trace(phase: DeletePhase, events: Seq<DeleteEvent>) -> (
    DeletePhase,
    Seq<DeleteAction>,
)
    decreases events.len(),
{
    if events.len() == 0 {
        (phase, Seq::empty())
    } else {
        let (next, action) = delete_next(phase, events[0]);
        let (last, rest) = delete_trace(next, events.drop_first());
        (last, seq![action] + rest)
    }
}

/// The phases after the check found the task idle.
pub open spec fn past_running_check(phase: DeletePhase) -> bool {
    match phase {
        DeletePhase::Cleaning { .. } | DeletePhase::Unscheduling { .. } | DeletePhase::Removing {
            ..
        } | DeletePhase::Deleting { .. } | DeletePhase::RestoringNoop
        | DeletePhase::RestoringAfterError { .. } => true,
        _ => false,
    }
}

/// Whether, by the deletion's `i`-th step, the check found the task idle.
pub open spec fn found_idle_by(events: Seq<DeleteEvent>, actions: Seq<DeleteAction>, i: int) -> bool {
    exists|j: int|
        0 <= j <= i && #[trigger] events[j] == (DeleteEvent::RunningChecked { running: false })
            && actions[j] !is Ignore
}

proof fn lemma_done_delete_ignores(events: Seq<DeleteEvent>)
    ensures
        delete_trace(DeletePhase::Done, events).1.len() == events.len(),
        forall|i: int| 0 <= i < events.len() ==> #[trigger] delete_trace(DeletePhase::Done, events).1[i]
            is Ignore,
    decreases events.len(),
{
    if events.len() > 0 {
        lemma_done_delete_ignores(events.drop_first());
    }
}

proof fn lemma_delete_changes(phase: DeletePhase, events: Seq<DeleteEvent>)
    ensures
        delete_trace(phase, events).1.len() == events.len(),
        forall|i: int|
            0 <= i < events.len() && changes_something(#[trigger] delete_trace(phase, events).1[i])
                ==> past_running_check(phase) || found_idle_by(
                events,
                delete_trace(phase, events).1,
                i,
            ),
    decreases events.len(),
{
    if events.len() > 0 {
        let e0 = events[0];
        let rest = events.drop_first();
        let (next, a0) = delete_next(phase, e0);
        let acts = delete_trace(phase, events).1;
        let tail = delete_trace(next, rest).1;
        lemma_delete_changes(next, rest);
        assert(acts =~= seq![a0] + tail);
        assert forall|i: int| 0 <= i < events.len() && changes_something(#[trigger] acts[i]) implies past_running_check(
            phase,
        ) || found_idle_by(events, acts, i) by {
            if i == 0 {
                if !past_running_check(phase) {
                    assert(events[0] == (DeleteEvent::RunningChecked { running: false }));
                    assert(found_idle_by(events, acts, 0));
                }
            } else {
                assert(acts[i] == tail[i - 1]);
                if a0 is Finish {
                    lemma_done_delete_ignores(rest);
                    assert(tail[i - 1] is Ignore);
                } else if past_running_check(next) && !past_running_check(phase) {
                    assert(events[0] == (DeleteEvent::RunningChecked { running: false }));
                    assert(found_idle_by(events, acts, i));
                } else if found_idle_by(rest, tail, i - 1) {
                    let k = choose|k: int|
                        0 <= k <= i - 1 && #[trigger] rest[k] == (DeleteEvent::RunningChecked {
                            running: false,
                        }) && tail[k] !is Ignore;
                    assert(events[k + 1] == rest[k]);
                    assert(acts[k + 1] == tail[k]);
                    assert(found_idle_by(events, acts, i));
                }
            }
        }
    }
}

/// Over a whole deletion from its start, nothing is changed (no file, job
/// or row) unless the check found the task idle at or before that step.
pub proof fn law_delete_changes_only_idle_tasks(events: Seq<DeleteEvent>)
    ensures
        ({
            let actions = delete_trace(DeletePhase::Start, events).1;
            &&& actions.len() == events.len()
            &&& forall|i: int|
                0 <= i < events.len() && changes_something(#[trigger] actions[i]) ==> found_idle_by(
                    events,
                    actions,
                    i,
                )
        }),
{
    lemma_delete_changes(DeletePhase::Start, events);
}


/// Whether the check found the task running at some step of the deletion.
pub open spec fn found_running(events: Seq<DeleteEvent>, actions: Seq<DeleteAction>) -> bool {
    exists|j: int|
        0 <= j < events.len() && #[trigger] events[j] == (DeleteEvent::RunningChecked {
            running: true,
        }) && actions[j] !is Ignore
}

/// Whether the check found the task idle at some step of the deletion.
pub open spec fn found_idle(events: Seq<DeleteEvent>, actions: Seq<DeleteAction>) -> bool {
    found_idle_by(events, actions, events.len() - 1)
}

proof fn lemma_check_answers_once(phase: DeletePhase, events: Seq<DeleteEvent>)
    ensures
        !(found_running(events, delete_trace(phase, events).1) && found_idle(
            events,
            delete_trace(phase, events).1,
        )),
        !(phase is Start || phase is Loaded) ==> !found_running(events, delete_trace(phase, events).1)
            && !found_idle(events, delete_trace(phase, events).1),
    decreases events.len(),
{
    lemma_delete_changes(phase, events);
    if events.len() > 0 {
        let e0 = events[0];
        let rest = events.drop_first();
        let (next, a0) = delete_next(phase, e0);
        let acts = delete_trace(phase, events).1;
        let tail = delete_trace(next, rest).1;
        lemma_check_answers_once(next, rest);
        lemma_delete_changes(next, rest);
        assert(acts =~= seq![a0] + tail);
        if next is Done {
            lemma_done_delete_ignores(rest);
        }
        if found_running(events, acts) {
            let j = choose|j: int|
                0 <= j < events.len() && #[trigger] events[j] == (DeleteEvent::RunningChecked {
                    running: true,
                }) && acts[j] !is Ignore;
            if j > 0 {
                assert(rest[j - 1] == events[j]);
                assert(found_running(rest, tail));
            }
        }
        if found_idle(events, acts) {
            let j = choose|j: int|
                0 <= j <= events.len() - 1 && #[trigger] events[j] == (DeleteEvent::RunningChecked {
                    running: false,
                }) && acts[j] !is Ignore;
            if j > 0 {
                assert(rest[j - 1] == events[j]);
                assert(found_idle_by(rest, tail, rest.len() - 1));
            }
        }
    }
}

/// Over a whole deletion from its start, a task that the check found
/// running is left as it was: no file, job or row is changed at any step.
pub proof fn law_running_task_left_unchanged(events: Seq<DeleteEvent>)
    ensures
        ({
            let actions = delete_trace(DeletePhase::Start, events).1;
            found_running(events, actions) ==> forall|i: int|
                0 <= i < events.len() ==> !changes_something(#[trigger] actions[i])
        }),
{
    let actions = delete_trace(DeletePhase::Start, events).1;
    lemma_delete_changes(DeletePhase::Start, events);
    lemma_check_answers_once(DeletePhase::Start, events);
    assert forall|i: int| 0 <= i < events.len() && found_running(events, actions) implies !changes_something(
        #[trigger] actions[i],
    ) by {
        if changes_something(actions[i]) {
            let j = choose|j: int|
                0 <= j <= i && #[trigger] events[j] == (DeleteEvent::RunningChecked { running: false })
                    && actions[j] !is Ignore;
            assert(found_idle_by(events, actions, events.len() - 1));
        }
    }
}

} // verus!
