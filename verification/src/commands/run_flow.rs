//! The decisions of a task run: the order of its steps (`run_step`), what
//! is kept of the streamed output, which status and error a finished stream
//! gives the execution, and what the caller is answered.
//!
//! The run itself (the database, the output file, the child process and the
//! deadline) is performed by the caller, which does each action that
//! `run_step` asks for and hands back what it observed.
use crate::executor::streaming::StreamLine;
use crate::models::execution::{status_name, ExecutionStatus, UpdateExecution};
use crate::opencode::executor::{OpenCodeError, OpenCodeOutput};
use crate::opencode::session_parser::{first_session, parse_session_id};
use crate::scheduler::task_queue::TaskQueueError;
use crate::text::{
    chars_of, chars_of_string, extend_chars, i64_decimal, lines, signed_decimal, str_then_chars,
    string_of,
};
use vstd::prelude::*;

verus! {

/// How reading a process's stream ended.
#[derive(Debug, Clone, PartialEq, Eq)]
pub enum StreamOutcome {
    /// The stream ended and the process exited with this code (-1 when it
    /// has none).
    Exited(i32),
    /// Keeping the output failed, with this message.
    StreamFailed(String),
    /// The deadline passed first.
    TimedOut,
}

/// The status and error message an execution ends with.
#[derive(Debug, Clone, PartialEq, Eq)]
pub struct RunVerdict {
    pub status: ExecutionStatus,
    pub error_message: Option<String>,
}

/// The message of an execution whose deadline passed.
pub open spec fn timed_out_text() -> Seq<char> {
    "Execution timed out"@
}

/// The verdict of a finished stream: exit code 0 succeeds; another code
/// fails naming it; a failure to keep the output fails with its message; a
/// passed deadline is a timeout.
pub open spec fn verdict_matches(outcome: StreamOutcome, v: RunVerdict) -> bool {
    match outcome {
        StreamOutcome::Exited(code) => if code == 0 {
            v.status == ExecutionStatus::Success && v.error_message is None
        } else {
            v.status == ExecutionStatus::Failed && v.error_message is Some
                && v.error_message->0@ == "Process exited with code "@ + signed_decimal(
                code as int,
            )
        },
        StreamOutcome::StreamFailed(e) => v.status == ExecutionStatus::Failed
            && v.error_message == Some(e),
        StreamOutcome::TimedOut => v.status == ExecutionStatus::Timeout && v.error_message is Some
            && v.error_message->0@ == timed_out_text(),
    }
}

/// Settles the execution of a finished stream.
pub fn settle_stream(outcome: StreamOutcome) -> (r: RunVerdict)
    ensures
        verdict_matches(outcome, r),
{
    match outcome {
        StreamOutcome::Exited(code) => {
            if code == 0 {
                RunVerdict { status: ExecutionStatus::Success, error_message: None }
            } else {
                let v = str_then_chars(
                    "Process exited with code ",
                    i64_decimal(code as i64).as_slice(),
                );
                RunVerdict {
                    status: ExecutionStatus::Failed,
                    error_message: Some(string_of(v.as_slice())),
                }
            }
        },
        StreamOutcome::StreamFailed(e) => RunVerdict {
            status: ExecutionStatus::Failed,
            error_message: Some(e),
        },
        StreamOutcome::TimedOut => RunVerdict {
            status: ExecutionStatus::Timeout,
            error_message: Some(string_of(chars_of("Execution timed out").as_slice())),
        },
    }
}

/// Only a process that exited with code 0 makes a successful execution.
pub proof fn law_success_needs_exit_zero(outcome: StreamOutcome, v: RunVerdict)
    requires
        verdict_matches(outcome, v),
    ensures
        v.status == ExecutionStatus::Success <==> outcome == StreamOutcome::Exited(0),
        v.status == ExecutionStatus::Success <==> v.error_message is None,
{
}

/// The session id known after reading `line`: the first one found on a
/// standard output line is kept.
pub open spec fn session_after(current: Option<Seq<char>>, line: StreamLine) -> Option<Seq<char>> {
    match current {
        Some(s) => Some(s),
        None => match line {
            StreamLine::Stdout(t) => first_session(lines(t@), true),
            _ => None,
        },
    }
}

/// Updates the session id known so far with a line of the stream.
pub fn observe_session(current: Option<String>, line: &StreamLine) -> (r: Option<String>)
    ensures
        crate::json::opt_view(r) == session_after(crate::json::opt_view(current), *line),
{
    match current {
        Some(s) => Some(s),
        None => match line {
            StreamLine::Stdout(t) => parse_session_id(t.as_str()),
            _ => None,
        },
    }
}

/// What is appended to the output file for a line: its text and a newline;
/// nothing for the end of the stream.
pub fn output_entry(line: &StreamLine) -> (r: Option<String>)
    ensures
        match *line {
            StreamLine::Stdout(t) => r is Some && r->0@ == t@ + "\n"@,
            StreamLine::Stderr(t) => r is Some && r->0@ == t@ + "\n"@,
            StreamLine::Finished => r is None,
        },
{
    match line {
        StreamLine::Stdout(t) | StreamLine::Stderr(t) => {
            let mut v = chars_of_string(t);
            extend_chars(&mut v, chars_of("\n").as_slice());
            Some(string_of(v.as_slice()))
        },
        StreamLine::Finished => None,
    }
}

/// What is appended to the output file when a run ends badly: the error
/// line of a failed stream, the timeout line, nothing otherwise.
pub fn closing_entry(outcome: &StreamOutcome) -> (r: Option<String>)
    ensures
        match *outcome {
            StreamOutcome::StreamFailed(e) => r is Some && r->0@ == "Error: "@ + e@ + "\n"@,
            StreamOutcome::TimedOut => r is Some && r->0@ == timed_out_text() + "\n"@,
            StreamOutcome::Exited(_) => r is None,
        },
{
    match outcome {
        StreamOutcome::StreamFailed(e) => Some(error_entry(e.as_str())),
        StreamOutcome::TimedOut => {
            let v = str_then_chars("Execution timed out", chars_of("\n").as_slice());
            Some(string_of(v.as_slice()))
        },
        StreamOutcome::Exited(_) => None,
    }
}

/// The error line appended to an output file: `Error: <message>` and a
/// newline.
pub fn error_entry(message: &str) -> (r: String)
    ensures
        r@ == "Error: "@ + message@ + "\n"@,
{
    let mut v = str_then_chars("Error: ", chars_of(message).as_slice());
    extend_chars(&mut v, chars_of("\n").as_slice());
    string_of(v.as_slice())
}

/// The update that records the end of a run.
pub fn final_update(
    session_id: Option<String>,
    verdict: RunVerdict,
    finished_at: String,
    output_file: Option<String>,
) -> (r: UpdateExecution)
    ensures
        r == (UpdateExecution {
            session_id,
            status: Some(verdict.status),
            finished_at: Some(finished_at),
            output_file,
            error_message: verdict.error_message,
        }),
{
    UpdateExecution {
        session_id,
        status: Some(verdict.status),
        finished_at: Some(finished_at),
        output_file,
        error_message: verdict.error_message,
    }
}

/// The update that marks a run failed with `message`.
pub fn failure_update(finished_at: String, output_file: Option<String>, message: &str) -> (r:
    UpdateExecution)
    ensures
        r.session_id is None,
        r.status == Some(ExecutionStatus::Failed),
        r.finished_at == Some(finished_at),
        r.output_file == output_file,
        r.error_message is Some && r.error_message->0@ == message@,
{
    UpdateExecution {
        session_id: None,
        status: Some(ExecutionStatus::Failed),
        finished_at: Some(finished_at),
        output_file,
        error_message: Some(string_of(chars_of(message).as_slice())),
    }
}

/// The message of a run that the system's sleep interrupted.
pub open spec fn sleep_interruption_text() -> Seq<char> {
    "System entering sleep"@
}

/// The update that marks a run failed because the system went to sleep.
pub fn sleep_failure_update(finished_at: String, output_file: Option<String>) -> (r:
    UpdateExecution)
    ensures
        r.session_id is None,
        r.status == Some(ExecutionStatus::Failed),
        r.finished_at == Some(finished_at),
        r.output_file == output_file,
        r.error_message is Some && r.error_message->0@ == sleep_interruption_text(),
{
    failure_update(finished_at, output_file, "System entering sleep")
}

/// The update that marks a run failed because the application stopped
/// while it ran.
pub fn termination_failure_update(finished_at: String, output_file: Option<String>) -> (r:
    UpdateExecution)
    ensures
        r.session_id is None,
        r.status == Some(ExecutionStatus::Failed),
        r.finished_at == Some(finished_at),
        r.output_file == output_file,
        r.error_message is Some && r.error_message->0@ == "Application was terminated unexpectedly"@,
{
    failure_update(finished_at, output_file, "Application was terminated unexpectedly")
}

/// The answer to a manual run request while the system sleeps.
pub fn sleeping_refusal() -> (r: String)
    ensures
        r@ == "System is sleeping; task execution is paused"@,
{
    string_of(chars_of("System is sleeping; task execution is paused").as_slice())
}

/// The answer to a manual run request that found no free slot: a task
/// that is already running is named; another error is passed on.
pub open spec fn slot_refusal_text(error: TaskQueueError) -> Seq<char> {
    match error {
        TaskQueueError::TaskAlreadyRunning { task_id } => "Task '"@ + task_id@
            + "' is already running"@,
        TaskQueueError::TaskNotFound { .. } => "Failed to acquire slot: "@ + error.message(),
    }
}

/// The answer to a manual run request that found no free slot.
pub fn slot_refusal(error: &TaskQueueError) -> (r: String)
    ensures
        r@ == slot_refusal_text(*error),
{
    match error {
        TaskQueueError::TaskAlreadyRunning { task_id } => {
            let mut v = str_then_chars("Task '", chars_of_string(task_id).as_slice());
            extend_chars(&mut v, chars_of("' is already running").as_slice());
            string_of(v.as_slice())
        },
        TaskQueueError::TaskNotFound { .. } => {
            let m = error.to_string();
            let v = str_then_chars("Failed to acquire slot: ", chars_of_string(&m).as_slice());
            string_of(v.as_slice())
        },
    }
}

/// The answer to a manual run: the execution id when it succeeded, else a
/// message with the status (as `{:?}` prints it) and the error if any.
pub open spec fn run_answer_matches(
    execution_id: String,
    verdict: RunVerdict,
    r: Result<String, String>,
) -> bool {
    if verdict.status == ExecutionStatus::Success {
        r == Ok::<String, String>(execution_id)
    } else {
        r is Err && r->Err_0@ == "Task execution failed with status: "@ + status_name(
            verdict.status,
        ) + (match verdict.error_message {
            Some(e) => " - "@ + e@,
            None => Seq::<char>::empty(),
        })
    }
}

/// Answers a manual run.
pub fn run_task_result(execution_id: String, verdict: RunVerdict) -> (r: Result<String, String>)
    ensures
        run_answer_matches(execution_id, verdict, r),
{
    if verdict.status == ExecutionStatus::Success {
        return Ok(execution_id);
    }
    let mut v = str_then_chars(
        "Task execution failed with status: ",
        chars_of(verdict.status.debug_name()).as_slice(),
    );
    let ghost head = v@;
    match &verdict.error_message {
        Some(e) => {
            extend_chars(&mut v, chars_of(" - ").as_slice());
            extend_chars(&mut v, chars_of_string(e).as_slice());
            assert(v@ =~= head + (" - "@ + e@));
        },
        None => {
            assert(v@ =~= head + Seq::<char>::empty());
        },
    }
    Err(string_of(v.as_slice()))
}

/// The outcome of an opencode run as an execution records it: its status,
/// error message and the content of its output file.
#[derive(Debug, Clone, PartialEq, Eq)]
pub struct RecordedRun {
    pub session_id: Option<String>,
    pub status: ExecutionStatus,
    pub error_message: Option<String>,
    pub content: String,
}

/// How an opencode run is recorded: a timed-out run is a timeout; an
/// unsuccessful one failed with its output as the message; otherwise it
/// succeeded. Its file holds the session line and the output. A run that
/// could not be made failed with the error's text, which its file holds.
pub open spec fn recorded_run_matches(
    result: Result<OpenCodeOutput, OpenCodeError>,
    r: RecordedRun,
) -> bool {
    match result {
        Ok(o) => {
            &&& r.session_id == Some(o.session_id)
            &&& r.status == (if o.timed_out {
                ExecutionStatus::Timeout
            } else if !o.success {
                ExecutionStatus::Failed
            } else {
                ExecutionStatus::Success
            })
            &&& (if o.timed_out {
                r.error_message is Some && r.error_message->0@ == timed_out_text()
            } else if !o.success {
                r.error_message == Some(o.stdout)
            } else {
                r.error_message is None
            })
            &&& r.content@ == "Session ID: "@ + o.session_id@ + "\n"@ + o.stdout@
        },
        Err(e) => {
            &&& r.session_id is None
            &&& r.status == ExecutionStatus::Failed
            &&& r.error_message is Some && r.error_message->0@ == e.message()
            &&& r.content@ == "Error: "@ + e.message()
        },
    }
}

/// Records the result of an opencode run.
pub fn record_opencode_run(result: Result<OpenCodeOutput, OpenCodeError>) -> (r: RecordedRun)
    ensures
        recorded_run_matches(result, r),
{
    match result {
        Ok(o) => {
            let mut v = str_then_chars("Session ID: ", chars_of_string(&o.session_id).as_slice());
            extend_chars(&mut v, chars_of("\n").as_slice());
            extend_chars(&mut v, chars_of_string(&o.stdout).as_slice());
            let content = string_of(v.as_slice());
            let (status, error_message) = if o.timed_out {
                (
                    ExecutionStatus::Timeout,
                    Some(string_of(chars_of("Execution timed out").as_slice())),
                )
            } else if !o.success {
                (ExecutionStatus::Failed, Some(o.stdout.clone()))
            } else {
                (ExecutionStatus::Success, None)
            };
            RecordedRun { session_id: Some(o.session_id), status, error_message, content }
        },
        Err(e) => {
            let m = e.to_string();
            let content = str_then_chars("Error: ", chars_of_string(&m).as_slice());
            RecordedRun {
                session_id: None,
                status: ExecutionStatus::Failed,
                error_message: Some(m),
                content: string_of(content.as_slice()),
            }
        },
    }
}


/// Where a run of a task stands. `scheduled` tells a run that the scheduler
/// started from one that a user asked for.
#[derive(Debug, Clone, PartialEq, Eq)]
pub enum RunPhase {
    /// Nothing done yet; the power state is checked first.
    Start { scheduled: bool },
    /// The task's slot was asked for.
    AwaitingSlot { scheduled: bool },
    /// The slot is held and the run is being prepared: the task is loaded,
    /// the execution row created, the output file set up, the process
    /// started.
    Preparing { scheduled: bool, execution_created: bool, output_ready: bool },
    /// The system went to sleep after the execution was created; the
    /// execution is being marked failed if it still runs.
    MarkingSleep { scheduled: bool },
    /// The process runs and its output is streamed.
    Streaming { scheduled: bool },
    /// The stream ended; its verdict is being recorded.
    Recording { scheduled: bool, outcome: StreamOutcome },
    /// The run is over.
    Done,
}

/// What the caller observed since the last step.
#[derive(Debug, Clone, PartialEq, Eq)]
pub enum RunEvent {
    /// The power state was read.
    Checked { sleeping: bool },
    /// The task's slot was granted.
    SlotGranted,
    /// The task's slot was refused.
    SlotRefused(TaskQueueError),
    /// The execution row was created.
    ExecutionCreated,
    /// The output file was created and recorded on the execution.
    OutputReady,
    /// The system was found sleeping after the execution was created.
    SleepDetected,
    /// A step of the preparation failed with this message.
    StepFailed(String),
    /// The process was started.
    Spawned,
    /// The stream ended this way.
    StreamEnded(StreamOutcome),
    /// The execution row was written.
    Recorded,
    /// Writing to the execution row failed with this message.
    RecordFailed(String),
}

/// Why an execution is marked failed when a run ends.
#[derive(Debug, Clone, Copy, PartialEq, Eq)]
pub enum MarkReason {
    /// A step failed: its message is appended to the output file as an
    /// error line and recorded as the execution's error.
    StepError,
    /// The system went to sleep: the execution fails with the sleep
    /// message.
    SystemSleep,
}

/// What a run comes to.
#[derive(Debug, Clone, PartialEq, Eq)]
pub enum RunAnswer {
    /// The system sleeps; the run stopped.
    Sleeping,
    /// The task's slot was refused with this error.
    SlotTaken(TaskQueueError),
    /// A step failed with this message.
    Failed(String),
    /// The process ran and its stream ended this way.
    Finished(StreamOutcome),
}

/// How a run ends: whether the execution is marked failed, the slot
/// released, the end announced and the history pruned, and what the run
/// comes to.
#[derive(Debug, Clone, PartialEq, Eq)]
pub struct RunEnd {
    pub mark_failed: Option<MarkReason>,
    pub release_slot: bool,
    pub notify_finished: bool,
    pub prune_history: bool,
    pub answer: RunAnswer,
}

/// What the caller does next.
#[derive(Debug, Clone, PartialEq, Eq)]
pub enum RunAction {
    /// Ask for the task's slot.
    AcquireSlot,
    /// Go on with the next step; announce that the execution started first
    /// when `notify_started` is set.
    Proceed { notify_started: bool },
    /// Mark the execution failed for the system's sleep, if it still runs.
    MarkSleepIfRunning,
    /// Record the verdict of the stream on the execution, if it still runs.
    Record,
    /// End the run.
    Finish(RunEnd),
    /// The event does not belong to this phase; nothing changes.
    Ignore,
}

/// The end of a run that never held the slot.
pub open spec fn unstarted_end(answer: RunAnswer) -> RunEnd {
    RunEnd {
        mark_failed: None,
        release_slot: false,
        notify_finished: false,
        prune_history: false,
        answer,
    }
}

/// The end of a run that held the slot.
pub open spec fn held_end(
    mark_failed: Option<MarkReason>,
    notify_finished: bool,
    prune_history: bool,
    answer: RunAnswer,
) -> RunEnd {
    RunEnd { mark_failed, release_slot: true, notify_finished, prune_history, answer }
}

/// The next phase of a run and what the caller does, given what it
/// observed.
///
/// A sleeping system or a taken slot stops the run before anything is
/// written. Once the slot is held, every end releases it, and every end
/// after the execution row exists announces the end of the run. A manual run marks its execution
/// failed when a later step fails; a scheduled one leaves it as it is. A
/// sleep found after the execution exists fails the execution: a manual run
/// whose output file is ready marks it directly, otherwise it is marked if
/// it still runs. A recorded stream prunes the history and ends with the
/// stream's outcome.
pub open spec fn run_next(phase: RunPhase, event: RunEvent) -> (RunPhase, RunAction) {
    match (phase, event) {
        (RunPhase::Start { scheduled }, RunEvent::Checked { sleeping }) => if sleeping {
            (
                RunPhase::Done,
                RunAction::Finish(
                    unstarted_end(
                        RunAnswer::Sleeping,
                    ),
                ),
            )
        } else {
            (RunPhase::AwaitingSlot { scheduled }, RunAction::AcquireSlot)
        },
        (RunPhase::AwaitingSlot { scheduled }, RunEvent::SlotGranted) => (
            RunPhase::Preparing { scheduled, execution_created: false, output_ready: false },
            RunAction::Proceed { notify_started: false },
        ),
        (RunPhase::AwaitingSlot { .. }, RunEvent::SlotRefused(e)) => (
            RunPhase::Done,
            RunAction::Finish(
                unstarted_end(
                    RunAnswer::SlotTaken(e),
                ),
            ),
        ),
        (
            RunPhase::Preparing { scheduled, execution_created: false, .. },
            RunEvent::ExecutionCreated,
        ) => (
            RunPhase::Preparing { scheduled, execution_created: true, output_ready: false },
            RunAction::Proceed { notify_started: true },
        ),
        (
            RunPhase::Preparing { scheduled, execution_created: true, output_ready: false },
            RunEvent::OutputReady,
        ) => (
            RunPhase::Preparing { scheduled, execution_created: true, output_ready: true },
            RunAction::Proceed { notify_started: false },
        ),
        (RunPhase::Preparing { scheduled, execution_created, .. }, RunEvent::StepFailed(m)) => (
            RunPhase::Done,
            RunAction::Finish(
                held_end(
                    if execution_created && !scheduled {
                        Some(MarkReason::StepError)
                    } else {
                        None
                    },
                    execution_created,
                    false,
                    RunAnswer::Failed(m),
                ),
            ),
        ),
        (
            RunPhase::Preparing { scheduled, execution_created: true, output_ready },
            RunEvent::SleepDetected,
        ) => if output_ready && !scheduled {
            (
                RunPhase::Done,
                RunAction::Finish(
                    held_end(Some(MarkReason::SystemSleep), true, false, RunAnswer::Sleeping),
                ),
            )
        } else {
            (RunPhase::MarkingSleep { scheduled }, RunAction::MarkSleepIfRunning)
        },
        (
            RunPhase::Preparing { scheduled, execution_created: true, output_ready: true },
            RunEvent::Spawned,
        ) => (RunPhase::Streaming { scheduled }, RunAction::Proceed { notify_started: false }),
        (RunPhase::MarkingSleep { .. }, RunEvent::Recorded) => (
            RunPhase::Done,
            RunAction::Finish(
                held_end(
                    None,
                    true,
                    false,
                    RunAnswer::Sleeping,
                ),
            ),
        ),
        (RunPhase::MarkingSleep { .. }, RunEvent::RecordFailed(m)) => (
            RunPhase::Done,
            RunAction::Finish(held_end(None, true, false, RunAnswer::Failed(m))),
        ),
        (RunPhase::Streaming { scheduled }, RunEvent::StreamEnded(outcome)) => (
            RunPhase::Recording { scheduled, outcome },
            RunAction::Record,
        ),
        (RunPhase::Recording { outcome, .. }, RunEvent::Recorded) => (
            RunPhase::Done,
            RunAction::Finish(held_end(None, true, true, RunAnswer::Finished(outcome))),
        ),
        (RunPhase::Recording { .. }, RunEvent::RecordFailed(m)) => (
            RunPhase::Done,
            RunAction::Finish(held_end(None, true, false, RunAnswer::Failed(m))),
        ),
        (p, _) => (p, RunAction::Ignore),
    }
}

/// Takes one step of a run.
pub fn run_step(phase: RunPhase, event: RunEvent) -> (r: (RunPhase, RunAction))
    ensures
        r == run_next(phase, event),
{
    let unstarted = |answer: RunAnswer| -> (e: RunEnd)
        ensures
            e == unstarted_end(answer),
        {
            RunEnd {
                mark_failed: None,
                release_slot: false,
                notify_finished: false,
                prune_history: false,
                answer,
            }
        };
    let held = |mark_failed: Option<MarkReason>,
        notify_finished: bool,
        prune_history: bool,
        answer: RunAnswer|
        -> (e: RunEnd)
        ensures
            e == held_end(mark_failed, notify_finished, prune_history, answer),
        { RunEnd { mark_failed, release_slot: true, notify_finished, prune_history, answer } };
    match (phase, event) {
        (RunPhase::Start { scheduled }, RunEvent::Checked { sleeping }) => if sleeping {
            (RunPhase::Done, RunAction::Finish(unstarted(RunAnswer::Sleeping)))
        } else {
            (RunPhase::AwaitingSlot { scheduled }, RunAction::AcquireSlot)
        },
        (RunPhase::AwaitingSlot { scheduled }, RunEvent::SlotGranted) => (
            RunPhase::Preparing { scheduled, execution_created: false, output_ready: false },
            RunAction::Proceed { notify_started: false },
        ),
        (RunPhase::AwaitingSlot { .. }, RunEvent::SlotRefused(e)) => {
            (RunPhase::Done, RunAction::Finish(unstarted(RunAnswer::SlotTaken(e))))
        },
        (
            RunPhase::Preparing { scheduled, execution_created: false, .. },
            RunEvent::ExecutionCreated,
        ) => (
            RunPhase::Preparing { scheduled, execution_created: true, output_ready: false },
            RunAction::Proceed { notify_started: true },
        ),
        (
            RunPhase::Preparing { scheduled, execution_created: true, output_ready: false },
            RunEvent::OutputReady,
        ) => (
            RunPhase::Preparing { scheduled, execution_created: true, output_ready: true },
            RunAction::Proceed { notify_started: false },
        ),
        (RunPhase::Preparing { scheduled, execution_created, .. }, RunEvent::StepFailed(m)) => {
            let mark = if execution_created && !scheduled {
                Some(MarkReason::StepError)
            } else {
                None
            };
            (
                RunPhase::Done,
                RunAction::Finish(held(mark, execution_created, false, RunAnswer::Failed(m))),
            )
        },
        (
            RunPhase::Preparing { scheduled, execution_created: true, output_ready },
            RunEvent::SleepDetected,
        ) => if output_ready && !scheduled {
            (
                RunPhase::Done,
                RunAction::Finish(
                    held(Some(MarkReason::SystemSleep), true, false, RunAnswer::Sleeping),
                ),
            )
        } else {
            (RunPhase::MarkingSleep { scheduled }, RunAction::MarkSleepIfRunning)
        },
        (
            RunPhase::Preparing { scheduled, execution_created: true, output_ready: true },
            RunEvent::Spawned,
        ) => (RunPhase::Streaming { scheduled }, RunAction::Proceed { notify_started: false }),
        (RunPhase::MarkingSleep { .. }, RunEvent::Recorded) => {
            (RunPhase::Done, RunAction::Finish(held(None, true, false, RunAnswer::Sleeping)))
        },
        (RunPhase::MarkingSleep { .. }, RunEvent::RecordFailed(m)) => (
            RunPhase::Done,
            RunAction::Finish(held(None, true, false, RunAnswer::Failed(m))),
        ),
        (RunPhase::Streaming { scheduled }, RunEvent::StreamEnded(outcome)) => (
            RunPhase::Recording { scheduled, outcome },
            RunAction::Record,
        ),
        (RunPhase::Recording { outcome, .. }, RunEvent::Recorded) => (
            RunPhase::Done,
            RunAction::Finish(held(None, true, true, RunAnswer::Finished(outcome))),
        ),
        (RunPhase::Recording { .. }, RunEvent::RecordFailed(m)) => (
            RunPhase::Done,
            RunAction::Finish(held(None, true, false, RunAnswer::Failed(m))),
        ),
        (p, _) => (p, RunAction::Ignore),
    }
}


/// The reply to a user who asked for a run: the sleeping and slot
/// refusals, the message of a failed step, or the answer of the verdict of
/// the stream.
pub open spec fn manual_reply_matches(
    execution_id: String,
    answer: RunAnswer,
    r: Result<String, String>,
) -> bool {
    match answer {
        RunAnswer::Sleeping => r is Err && r->Err_0@
            == "System is sleeping; task execution is paused"@,
        RunAnswer::SlotTaken(e) => r is Err && r->Err_0@ == slot_refusal_text(e),
        RunAnswer::Failed(m) => r == Err::<String, String>(m),
        RunAnswer::Finished(outcome) => exists|v: RunVerdict|
            verdict_matches(outcome, v) && run_answer_matches(execution_id, v, r),
    }
}

/// Replies to a user who asked for a run of a task; `execution_id` names
/// the execution the run created.
pub fn manual_answer(execution_id: String, answer: RunAnswer) -> (r: Result<String, String>)
    ensures
        manual_reply_matches(execution_id, answer, r),
{
    match answer {
        RunAnswer::Sleeping => Err(sleeping_refusal()),
        RunAnswer::SlotTaken(e) => Err(slot_refusal(&e)),
        RunAnswer::Failed(m) => Err(m),
        RunAnswer::Finished(outcome) => {
            let verdict = settle_stream(outcome);
            let ghost v = verdict;
            let r = run_task_result(execution_id, verdict);
            assert(verdict_matches(outcome, v) && run_answer_matches(execution_id, v, r));
            r
        },
    }
}

/// The result of a run the scheduler started: only a failed step is an
/// error; a run that slept, found its slot taken or finished in any way is
/// done.
pub open spec fn scheduled_reply(answer: RunAnswer) -> Result<(), String> {
    match answer {
        RunAnswer::Failed(m) => Err(m),
        _ => Ok(()),
    }
}

/// Replies to the scheduler for a run it started.
pub fn scheduled_answer(answer: RunAnswer) -> (r: Result<(), String>)
    ensures
        r == scheduled_reply(answer),
{
    match answer {
        RunAnswer::Failed(m) => Err(m),
        _ => Ok(()),
    }
}

/// The phases in which the run holds its task's slot.
pub open spec fn holds_slot(phase: RunPhase) -> bool {
    match phase {
        RunPhase::Preparing { .. } | RunPhase::MarkingSleep { .. } | RunPhase::Streaming { .. }
        | RunPhase::Recording { .. } => true,
        _ => false,
    }
}

/// The phases in which the run's execution row exists.
pub open spec fn execution_exists(phase: RunPhase) -> bool {
    match phase {
        RunPhase::Preparing { execution_created, .. } => execution_created,
        RunPhase::MarkingSleep { .. } | RunPhase::Streaming { .. } | RunPhase::Recording {
            ..
        } => true,
        _ => false,
    }
}

/// A run that stops before it holds its slot (the system sleeps, or the
/// slot is taken) creates no execution and writes nothing: its end marks
/// nothing, releases nothing, announces nothing and prunes nothing, and it
/// answers the sleep or the refusal.
pub proof fn law_refused_run_writes_nothing(phase: RunPhase, event: RunEvent)
    requires
        !holds_slot(phase),
        phase !is Done,
    ensures
        ({
            let (next, action) = run_next(phase, event);
            &&& !execution_exists(next)
            &&& action !is Record && action !is MarkSleepIfRunning
            &&& action != (RunAction::Proceed { notify_started: true })
            &&& action is Finish ==> action->0 == unstarted_end(action->0.answer) && (
            action->0.answer is Sleeping || action->0.answer is SlotTaken)
        }),
{
}

/// Every run that was granted its slot releases it when it ends, and only
/// such a run releases one: the slot is held from the grant until the end,
/// and the end is announced exactly when the execution row exists.
pub proof fn law_slot_released_on_every_end(phase: RunPhase, event: RunEvent)
    ensures
        ({
            let (next, action) = run_next(phase, event);
            &&& action is Finish ==> next is Done && action->0.release_slot == holds_slot(phase)
                && action->0.notify_finished == execution_exists(phase)
            &&& action !is Finish ==> holds_slot(next) == (holds_slot(phase) || (phase is AwaitingSlot
                && event is SlotGranted))
            &&& action !is Finish ==> execution_exists(next) == (execution_exists(phase) || (
            phase is Preparing && event is ExecutionCreated))
        }),
{
}

/// In a run a user asked for, a step that fails after the execution row
/// exists marks the execution failed with the step's message, and a sleep
/// found then fails it too.
pub proof fn law_manual_failure_marks_execution(output_ready: bool, message: String)
    ensures
        run_next(
            RunPhase::Preparing { scheduled: false, execution_created: true, output_ready },
            RunEvent::StepFailed(message),
        ) == (RunPhase::Done, RunAction::Finish(
            held_end(Some(MarkReason::StepError), true, false, RunAnswer::Failed(message)),
        )),
        run_next(
            RunPhase::Preparing { scheduled: false, execution_created: true, output_ready },
            RunEvent::SleepDetected,
        ) == (if output_ready {
            (
                RunPhase::Done,
                RunAction::Finish(
                    held_end(Some(MarkReason::SystemSleep), true, false, RunAnswer::Sleeping),
                ),
            )
        } else {
            (RunPhase::MarkingSleep { scheduled: false }, RunAction::MarkSleepIfRunning)
        }),
{
}

/// A stream whose verdict was recorded prunes the history and ends the run
/// with the stream's outcome, which the user is answered as its verdict.
pub proof fn law_recorded_run_answers_its_verdict(scheduled: bool, outcome: StreamOutcome)
    ensures
        run_next(RunPhase::Recording { scheduled, outcome }, RunEvent::Recorded) == (
        RunPhase::Done, RunAction::Finish(held_end(None, true, true, RunAnswer::Finished(outcome)))),
{
}

/// A scheduled run that the system's sleep or a taken slot stops is done
/// without an error.
pub proof fn law_scheduled_run_skips_quietly(event: RunEvent, phase: RunPhase)
    requires
        phase == (RunPhase::Start { scheduled: true }) || phase == (RunPhase::AwaitingSlot {
            scheduled: true,
        }),
    ensures
        ({
            let (next, action) = run_next(phase, event);
            action is Finish ==> scheduled_reply(action->0.answer) == Ok::<(), String>(())
        }),
{
}

/// A finished run stays finished.
pub proof fn law_finished_run_is_final(event: RunEvent)
    ensures
        run_next(RunPhase::Done, event) == (RunPhase::Done, RunAction::Ignore),
{
}


/// The phase a run reaches and the actions it takes when it observes
/// `events` in turn from `phase`.
pub open spec fn run_trace(phase: RunPhase, events: Seq<RunEvent>) -> (RunPhase, Seq<RunAction>)
    decreases events.len(),
{
    if events.len() == 0 {
        (phase, Seq::empty())
    } else {
        let (next, action) = run_next(phase, events[0]);
        let (last, rest) = run_trace(next, events.drop_first());
        (last, seq![action] + rest)
    }
}

/// Whether the run was granted its slot before its `i`-th step: an earlier
/// `SlotGranted` was taken up.
pub open spec fn granted_before(events: Seq<RunEvent>, actions: Seq<RunAction>, i: int) -> bool {
    exists|j: int| 0 <= j < i && #[trigger] events[j] is SlotGranted && actions[j] !is Ignore
}

proof fn lemma_done_trace_ignores(events: Seq<RunEvent>)
    ensures
        run_trace(RunPhase::Done, events).1.len() == events.len(),
        forall|i: int| 0 <= i < events.len() ==> #[trigger] run_trace(RunPhase::Done, events).1[i]
            is Ignore,
    decreases events.len(),
{
    if events.len() > 0 {
        lemma_done_trace_ignores(events.drop_first());
    }
}

proof fn lemma_trace_release(phase: RunPhase, events: Seq<RunEvent>)
    ensures
        run_trace(phase, events).1.len() == events.len(),
        forall|i: int|
            0 <= i < events.len() && #[trigger] run_trace(phase, events).1[i] is Finish ==> run_trace(
                phase,
                events,
            ).1[i]->0.release_slot == (holds_slot(phase) || granted_before(
                events,
                run_trace(phase, events).1,
                i,
            )),
    decreases events.len(),
{
    if events.len() > 0 {
        let e0 = events[0];
        let rest = events.drop_first();
        let (next, a0) = run_next(phase, e0);
        let acts = run_trace(phase, events).1;
        let tail = run_trace(next, rest).1;
        lemma_trace_release(next, rest);
        assert(acts =~= seq![a0] + tail);
        assert forall|i: int| 0 <= i < events.len() && #[trigger] acts[i] is Finish implies acts[i]->0.release_slot
            == (holds_slot(phase) || granted_before(events, acts, i)) by {
            if i == 0 {
                assert(!granted_before(events, acts, 0));
            } else {
                assert(acts[i] == tail[i - 1]);
                if a0 is Finish {
                    lemma_done_trace_ignores(rest);
                    assert(tail[i - 1] is Ignore);
                } else {
                    if granted_before(events, acts, i) {
                        let j = choose|j: int|
                            0 <= j < i && #[trigger] events[j] is SlotGranted && acts[j] !is Ignore;
                        if j > 0 {
                            assert(rest[j - 1] == events[j]);
                            assert(tail[j - 1] == acts[j]);
                            assert(granted_before(rest, tail, i - 1));
                        }
                    }
                    if granted_before(rest, tail, i - 1) {
                        let k = choose|k: int|
                            0 <= k < i - 1 && #[trigger] rest[k] is SlotGranted && tail[k] !is Ignore;
                        assert(events[k + 1] == rest[k]);
                        assert(acts[k + 1] == tail[k]);
                        assert(granted_before(events, acts, i));
                    }
                    if e0 is SlotGranted && a0 !is Ignore {
                        assert(granted_before(events, acts, i));
                    }
                }
            }
        }
    }
}

/// Over a whole run from its start, each end releases the task's slot
/// exactly when the slot was granted earlier in that run.
pub proof fn law_run_releases_what_it_acquired(scheduled: bool, events: Seq<RunEvent>)
    ensures
        ({
            let actions = run_trace(RunPhase::Start { scheduled }, events).1;
            &&& actions.len() == events.len()
            &&& forall|i: int|
                0 <= i < events.len() && #[trigger] actions[i] is Finish ==> actions[i]->0.release_slot
                    == granted_before(events, actions, i)
        }),
{
    lemma_trace_release(RunPhase::Start { scheduled }, events);
}


/// The actions that go on with a run past its slot (its preparation, its
/// execution row, its output), or end it with a write: a failed mark, an
/// announcement or a pruning.
pub open spec fn touches_execution(action: RunAction) -> bool {
    match action {
        RunAction::Proceed { .. } | RunAction::MarkSleepIfRunning | RunAction::Record => true,
        RunAction::Finish(end) => end.mark_failed is Some || end.notify_finished
            || end.prune_history,
        _ => false,
    }
}

proof fn lemma_trace_touches(phase: RunPhase, events: Seq<RunEvent>)
    ensures
        run_trace(phase, events).1.len() == events.len(),
        forall|i: int|
            0 <= i < events.len() && touches_execution(#[trigger] run_trace(phase, events).1[i])
                ==> holds_slot(phase) || granted_before(events, run_trace(phase, events).1, i + 1),
    decreases events.len(),
{
    if events.len() > 0 {
        let e0 = events[0];
        let rest = events.drop_first();
        let (next, a0) = run_next(phase, e0);
        let acts = run_trace(phase, events).1;
        let tail = run_trace(next, rest).1;
        lemma_trace_touches(next, rest);
        assert(acts =~= seq![a0] + tail);
        assert forall|i: int| 0 <= i < events.len() && touches_execution(#[trigger] acts[i]) implies holds_slot(
            phase,
        ) || granted_before(events, acts, i + 1) by {
            if i == 0 {
                if !holds_slot(phase) {
                    assert(events[0] is SlotGranted && acts[0] !is Ignore);
                }
            } else {
                assert(acts[i] == tail[i - 1]);
                if a0 is Finish {
                    lemma_done_trace_ignores(rest);
                    assert(tail[i - 1] is Ignore);
                } else {
                    if e0 is SlotGranted && a0 !is Ignore {
                        assert(granted_before(events, acts, i + 1));
                    }
                    if granted_before(rest, tail, i) {
                        let k = choose|k: int|
                            0 <= k < i && #[trigger] rest[k] is SlotGranted && tail[k] !is Ignore;
                        assert(events[k + 1] == rest[k]);
                        assert(acts[k + 1] == tail[k]);
                        assert(granted_before(events, acts, i + 1));
                    }
                }
            }
        }
    }
}

/// Over a whole run from its start, nothing goes on past the slot and
/// nothing is written (no execution row, mark, announcement or pruning)
/// unless the slot was granted at or before that step: a run refused for
/// the system's sleep or a taken slot writes nothing.
pub proof fn law_refused_run_never_writes(scheduled: bool, events: Seq<RunEvent>)
    ensures
        ({
            let actions = run_trace(RunPhase::Start { scheduled }, events).1;
            &&& actions.len() == events.len()
            &&& forall|i: int|
                0 <= i < events.len() && touches_execution(#[trigger] actions[i]) ==> granted_before(
                    events,
                    actions,
                    i + 1,
                )
        }),
{
    lemma_trace_touches(RunPhase::Start { scheduled }, events);
}

} // verus!
