//! Scheduling: cron validation, simple schedules, the job registry, the task
//! queue, process bookkeeping and process outcomes, and the schedule a task
//! record stands for.
use crate::models::task::Task;
use crate::scheduler::simple_schedule::{parse_simple_schedule, simple_schedule};
use crate::time::{parse_rfc3339, rfc3339_instant, UtcTime};
use vstd::prelude::*;

pub mod cron_parser;
pub mod job_scheduler;
pub mod process_tracker;
pub mod simple_schedule;
pub mod task_queue;
pub mod timeout;

verus! {

/// When a task runs: on a cron schedule, or once at an instant.
#[derive(Debug, Clone, PartialEq, Eq)]
pub enum TaskSchedule {
    Cron(String),
    Once(UtcTime),
}

/// The schedule of a task, as the values of its view: a cron expression, or
/// one instant.
pub enum ScheduleSpec {
    Cron(Seq<char>),
    Once(UtcTime),
}

/// The schedule a task stands for. A cron expression wins; then a one-time
/// instant that parses as RFC 3339; then a simple schedule that converts to
/// cron. A task with none of these has no schedule.
pub open spec fn task_schedule(task: Task) -> Option<ScheduleSpec> {
    match task.cron_expression {
        Some(c) => Some(ScheduleSpec::Cron(c@)),
        None => {
            let once = match task.once_at {
                Some(o) => match rfc3339_instant(o@) {
                    Some((s, n)) => Some(ScheduleSpec::Once(UtcTime { secs: s, nanos: n })),
                    None => None,
                },
                None => None,
            };
            match once {
                Some(x) => Some(x),
                None => match task.simple_schedule {
                    Some(j) => match simple_schedule(j@) {
                        Ok(expr) => Some(ScheduleSpec::Cron(expr)),
                        Err(_) => None,
                    },
                    None => None,
                },
            }
        },
    }
}

/// `r` is the executable value of the schedule `s`.
pub open spec fn schedule_matches(r: Option<TaskSchedule>, s: Option<ScheduleSpec>) -> bool {
    match (r, s) {
        (None, None) => true,
        (Some(TaskSchedule::Cron(c)), Some(ScheduleSpec::Cron(e))) => c@ == e,
        (Some(TaskSchedule::Once(t)), Some(ScheduleSpec::Once(u))) => t == u,
        _ => false,
    }
}

/// The schedule of a task, if it has a valid one.
pub fn get_task_schedule(task: &Task) -> (r: Option<TaskSchedule>)
    ensures
        schedule_matches(r, task_schedule(*task)),
{
    if let Some(cron) = &task.cron_expression {
        return Some(TaskSchedule::Cron(cron.clone()));
    }
    if let Some(once_at) = &task.once_at {
        if let Some(t) = parse_rfc3339(once_at.as_str()) {
            return Some(TaskSchedule::Once(t));
        }
    }
    if let Some(json) = &task.simple_schedule {
        return match parse_simple_schedule(json.as_str()) {
            Ok(expr) => Some(TaskSchedule::Cron(expr)),
            Err(_) => None,
        };
    }
    None
}

} // verus!
