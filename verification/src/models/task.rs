//! Task records: what is stored for a scheduled task, and how creations and
//! partial updates shape the stored record.
use vstd::prelude::*;

verus! {

/// Whether a new task is enabled when the request does not say.
pub const DEFAULT_ENABLED: i32 = 1;

/// The timeout of a new task, in seconds, when the request does not say.
pub const DEFAULT_TIMEOUT_SECONDS: i32 = 300;

/// Task model representing a scheduled task.
#[derive(Debug, Clone, PartialEq, Eq)]
pub struct Task {
    pub id: String,
    pub name: String,
    pub prompt: String,
    pub cron_expression: Option<String>,
    pub simple_schedule: Option<String>,
    pub once_at: Option<String>,
    pub enabled: i32,
    pub timeout_seconds: i32,
    pub created_at: String,
    pub updated_at: String,
}

/// NewTask struct for creating a new task.
#[derive(Debug, Clone, PartialEq, Eq)]
pub struct NewTask {
    pub name: String,
    pub prompt: String,
    pub cron_expression: Option<String>,
    pub simple_schedule: Option<String>,
    pub enabled: Option<i32>,
    pub timeout_seconds: Option<i32>,
}

/// UpdateTask struct for updating an existing task.
#[derive(Debug, Clone, PartialEq, Eq)]
pub struct UpdateTask {
    pub name: Option<String>,
    pub prompt: Option<String>,
    pub cron_expression: Option<String>,
    pub simple_schedule: Option<String>,
    pub enabled: Option<i32>,
    pub timeout_seconds: Option<i32>,
}

/// The value of an optional field, or its default (`Option::unwrap_or`).
pub open spec fn or_default<T>(v: Option<T>, d: T) -> T {
    match v {
        Some(x) => x,
        None => d,
    }
}

/// The record stored for a new task with the given id and creation time:
/// enabled and a five-minute timeout unless the request says otherwise, no
/// one-time run, and both timestamps equal to the creation time.
pub open spec fn created_task_matches(r: Task, t: NewTask, id: String, now: String) -> bool {
    &&& r.id == id
    &&& r.name == t.name
    &&& r.prompt == t.prompt
    &&& r.cron_expression == t.cron_expression
    &&& r.simple_schedule == t.simple_schedule
    &&& r.once_at is None
    &&& r.enabled == or_default(t.enabled, DEFAULT_ENABLED)
    &&& r.timeout_seconds == or_default(t.timeout_seconds, DEFAULT_TIMEOUT_SECONDS)
    &&& r.created_at == now
    &&& r.updated_at == now
}

/// Builds the record of a new task.
pub fn new_task_record(new_task: NewTask, id: String, now: String) -> (r: Task)
    ensures
        created_task_matches(r, new_task, id, now),
{
    let enabled = match new_task.enabled {
        Some(v) => v,
        None => DEFAULT_ENABLED,
    };
    let timeout_seconds = match new_task.timeout_seconds {
        Some(v) => v,
        None => DEFAULT_TIMEOUT_SECONDS,
    };
    let updated_at = now.clone();
    Task {
        id,
        name: new_task.name,
        prompt: new_task.prompt,
        cron_expression: new_task.cron_expression,
        simple_schedule: new_task.simple_schedule,
        once_at: None,
        enabled,
        timeout_seconds,
        created_at: now,
        updated_at,
    }
}

/// The stored record after a partial update at time `now`: each field
/// present in the update replaces the stored one; the id, the one-time run
/// and the creation time never change, and the record is stamped `now`.
pub open spec fn updated_task_matches(r: Task, e: Task, u: UpdateTask, now: String) -> bool {
    &&& r.id == e.id
    &&& r.name == or_default(u.name, e.name)
    &&& r.prompt == or_default(u.prompt, e.prompt)
    &&& r.cron_expression == (match u.cron_expression {
        Some(c) => Some(c),
        None => e.cron_expression,
    })
    &&& r.simple_schedule == (match u.simple_schedule {
        Some(c) => Some(c),
        None => e.simple_schedule,
    })
    &&& r.once_at == e.once_at
    &&& r.enabled == or_default(u.enabled, e.enabled)
    &&& r.timeout_seconds == or_default(u.timeout_seconds, e.timeout_seconds)
    &&& r.created_at == e.created_at
    &&& r.updated_at == now
}

/// Applies a partial update to a stored task.
pub fn apply_task_update(existing: Task, update: UpdateTask, now: String) -> (r: Task)
    ensures
        updated_task_matches(r, existing, update, now),
{
    Task {
        id: existing.id,
        name: match update.name {
            Some(v) => v,
            None => existing.name,
        },
        prompt: match update.prompt {
            Some(v) => v,
            None => existing.prompt,
        },
        cron_expression: match update.cron_expression {
            Some(v) => Some(v),
            None => existing.cron_expression,
        },
        simple_schedule: match update.simple_schedule {
            Some(v) => Some(v),
            None => existing.simple_schedule,
        },
        once_at: existing.once_at,
        enabled: match update.enabled {
            Some(v) => v,
            None => existing.enabled,
        },
        timeout_seconds: match update.timeout_seconds {
            Some(v) => v,
            None => existing.timeout_seconds,
        },
        created_at: existing.created_at,
        updated_at: now,
    }
}

/// An update that carries no field changes nothing but the update time.
pub proof fn law_empty_task_update_keeps_task(e: Task, r: Task, now: String)
    requires
        updated_task_matches(
            r,
            e,
            UpdateTask {
                name: None,
                prompt: None,
                cron_expression: None,
                simple_schedule: None,
                enabled: None,
                timeout_seconds: None,
            },
            now,
        ),
    ensures
        r == (Task { updated_at: now, ..e }),
{
}

/// Applying the same update twice stores what applying it once stored, up
/// to the update time.
pub proof fn law_task_update_is_idempotent(
    e: Task,
    u: UpdateTask,
    r1: Task,
    r2: Task,
    now1: String,
    now2: String,
)
    requires
        updated_task_matches(r1, e, u, now1),
        updated_task_matches(r2, r1, u, now2),
    ensures
        r2 == (Task { updated_at: now2, ..r1 }),
{
}

/// Whether a task is enabled for scheduling (its flag is exactly 1).
pub fn is_enabled(task: &Task) -> (r: bool)
    ensures
        r == (task.enabled == 1),
{
    task.enabled == 1
}

} // verus!
