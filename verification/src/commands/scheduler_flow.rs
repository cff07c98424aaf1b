//! The decisions behind the scheduler commands: what each task contributes
//! when the scheduler is (re)loaded, how the outcome is summed up, and how
//! the scheduler's state is reported.
use crate::models::task::Task;
use crate::scheduler::job_scheduler::SchedulerState;
use crate::scheduler::{get_task_schedule, task_schedule, ScheduleSpec, TaskSchedule};
use crate::text::{
    chars_of, chars_of_string, decimal, extend_chars, joined, str_then_chars, string_of,
    u64_decimal,
};
use crate::time::{delay_until, delay_until_spec, UtcTime};
use vstd::prelude::*;

verus! {

/// What loading a task into the scheduler does.
#[derive(Debug, Clone, PartialEq, Eq)]
pub enum LoadStep {
    /// Nothing: the task is disabled, or its one-time run is past.
    Skip,
    /// The task has no valid schedule; the message says so.
    Invalid(String),
    /// Add a cron job with this expression.
    AddCron(String),
    /// Add a one-time job that fires after this many seconds and
    /// nanoseconds.
    AddOnce(u64, u32),
}

/// What loading `task` at `now` does: a disabled task is skipped (when
/// `check_enabled`); a task without a schedule is invalid; a cron schedule
/// adds a cron job; a one-time schedule adds a one-time job if its instant
/// is still ahead and is skipped otherwise.
pub open spec fn load_step_matches(task: Task, now: UtcTime, check_enabled: bool, r: LoadStep) -> bool {
    if check_enabled && task.enabled == 0 {
        r == LoadStep::Skip
    } else {
        match task_schedule(task) {
            None => r matches LoadStep::Invalid(m) && m@ == "Task '"@ + task.id@
                + "' has no valid schedule"@,
            Some(ScheduleSpec::Cron(e)) => r matches LoadStep::AddCron(c) && c@ == e,
            Some(ScheduleSpec::Once(t)) => match delay_until_spec(t, now) {
                None => r == LoadStep::Skip,
                Some((s, n)) => r == LoadStep::AddOnce(s, n),
            },
        }
    }
}

/// Decides what loading `task` at `now` does.
pub fn plan_task_load(task: &Task, now: &UtcTime, check_enabled: bool) -> (r: LoadStep)
    ensures
        load_step_matches(*task, *now, check_enabled, r),
{
    if check_enabled && task.enabled == 0 {
        return LoadStep::Skip;
    }
    match get_task_schedule(task) {
        None => {
            let mut v = str_then_chars("Task '", chars_of_string(&task.id).as_slice());
            extend_chars(&mut v, chars_of("' has no valid schedule").as_slice());
            LoadStep::Invalid(string_of(v.as_slice()))
        },
        Some(TaskSchedule::Cron(e)) => LoadStep::AddCron(e),
        Some(TaskSchedule::Once(t)) => match delay_until(&t, now) {
            None => LoadStep::Skip,
            Some((s, n)) => LoadStep::AddOnce(s, n),
        },
    }
}

/// A one-time job is only ever added for an instant that is still ahead.
pub proof fn law_past_one_time_runs_are_skipped(task: Task, now: UtcTime, check: bool, r: LoadStep)
    requires
        load_step_matches(task, now, check, r),
        task_schedule(task) matches Some(ScheduleSpec::Once(t)) && !crate::time::is_after(t, now),
    ensures
        r == LoadStep::Skip,
{
}

/// The running count of a scheduler load: the jobs added, and the messages
/// of the tasks that could not be added, in order.
#[derive(Debug, Clone, PartialEq, Eq)]
pub struct LoadTally {
    pub loaded: usize,
    pub errors: Vec<String>,
}

impl LoadTally {
    /// Nothing loaded yet.
    pub fn new() -> (r: Self)
        ensures
            r.loaded == 0,
            r.errors@.len() == 0,
    {
        LoadTally { loaded: 0, errors: Vec::new() }
    }

    /// Counts an invalid task.
    pub fn record_invalid(&mut self, message: String)
        ensures
            final(self).loaded == old(self).loaded,
            final(self).errors@ == old(self).errors@.push(message),
    {
        self.errors.push(message);
    }

    /// Counts the outcome of adding the job of `task_id`.
    pub fn record_add_result(&mut self, task_id: &str, result: Result<(), String>)
        requires
            old(self).loaded < usize::MAX,
        ensures
            match result {
                Ok(()) => final(self).loaded == old(self).loaded + 1 && final(self).errors@
                    == old(self).errors@,
                Err(e) => final(self).loaded == old(self).loaded && final(self).errors@.len()
                    == old(self).errors@.len() + 1 && final(self).errors@.drop_last()
                    == old(self).errors@ && final(self).errors@.last()@ == "Failed to add job for task '"@
                    + task_id@ + "': "@ + e@,
            },
    {
        match result {
            Ok(()) => {
                self.loaded = self.loaded + 1;
            },
            Err(e) => {
                let mut v = str_then_chars("Failed to add job for task '", chars_of(task_id).as_slice());
                extend_chars(&mut v, chars_of("': ").as_slice());
                extend_chars(&mut v, chars_of_string(&e).as_slice());
                self.errors.push(string_of(v.as_slice()));
                proof {
                    assert(self.errors@.drop_last() == old(self).errors@);
                }
            },
        }
    }
}

/// The views of a sequence of strings.
pub open spec fn texts(v: Seq<String>) -> Seq<Seq<char>> {
    v.map_values(|s: String| s@)
}

/// The answer of a reload: how many tasks were loaded and, if some failed,
/// how many and why.
pub open spec fn reload_summary_text(loaded: nat, errors: Seq<Seq<char>>) -> Seq<char> {
    if errors.len() == 0 {
        "Successfully loaded "@ + decimal(loaded) + " tasks"@
    } else {
        "Loaded "@ + decimal(loaded) + " tasks with "@ + decimal(errors.len()) + " errors: "@
            + joined(errors, ", "@)
    }
}

/// Sums up a reload.
pub fn reload_summary(loaded: usize, errors: &Vec<String>) -> (r: String)
    ensures
        r@ == reload_summary_text(loaded as nat, texts(errors@)),
{
    if errors.len() == 0 {
        let mut v = str_then_chars("Successfully loaded ", u64_decimal(loaded as u64).as_slice());
        extend_chars(&mut v, chars_of(" tasks").as_slice());
        return string_of(v.as_slice());
    }
    let mut v = str_then_chars("Loaded ", u64_decimal(loaded as u64).as_slice());
    extend_chars(&mut v, chars_of(" tasks with ").as_slice());
    extend_chars(&mut v, u64_decimal(errors.len() as u64).as_slice());
    extend_chars(&mut v, chars_of(" errors: ").as_slice());
    let joined_errors = crate::text::join_strings(errors, ", ");
    extend_chars(&mut v, chars_of_string(&joined_errors).as_slice());
    string_of(v.as_slice())
}

/// The report of the scheduler's state: `running` or `stopped`, and the
/// number of jobs.
pub open spec fn status_report_text(state: SchedulerState, job_count: nat) -> Seq<char> {
    (match state {
        SchedulerState::Running => "running"@,
        SchedulerState::Stopped => "stopped"@,
    }) + " ("@ + decimal(job_count) + " jobs)"@
}

/// Reports the scheduler's state.
pub fn scheduler_status_text(state: SchedulerState, job_count: usize) -> (r: String)
    ensures
        r@ == status_report_text(state, job_count as nat),
{
    let mut v = match state {
        SchedulerState::Running => chars_of("running"),
        SchedulerState::Stopped => chars_of("stopped"),
    };
    extend_chars(&mut v, chars_of(" (").as_slice());
    extend_chars(&mut v, u64_decimal(job_count as u64).as_slice());
    extend_chars(&mut v, chars_of(" jobs)").as_slice());
    string_of(v.as_slice())
}

/// The answer to a scheduler start requested while the system is
/// unavailable.
pub fn start_unavailable() -> (r: String)
    ensures
        r@ == "System is unavailable (sleeping or lid closed); scheduler start is paused"@,
{
    string_of(
        chars_of("System is unavailable (sleeping or lid closed); scheduler start is paused").as_slice(),
    )
}

/// The answer to a scheduler reload requested while the system is
/// unavailable.
pub fn reload_unavailable() -> (r: String)
    ensures
        r@ == "System is unavailable (sleeping or lid closed); scheduler reload is paused"@,
{
    string_of(
        chars_of("System is unavailable (sleeping or lid closed); scheduler reload is paused").as_slice(),
    )
}

/// A message with a prefix: `<prefix>: <message>`.
pub fn prefixed_error(prefix: &str, message: &str) -> (r: String)
    ensures
        r@ == prefix@ + ": "@ + message@,
{
    let mut v = chars_of(prefix);
    extend_chars(&mut v, chars_of(": ").as_slice());
    extend_chars(&mut v, chars_of(message).as_slice());
    string_of(v.as_slice())
}

} // verus!
