//! Execution records: the status of a run, the record stored for it, and how
//! creations and partial updates shape the stored record.
use crate::text::{chars_eq, chars_of, chars_of_string, str_then_chars, string_of};
use vstd::prelude::*;

verus! {

/// How many finished executions are kept in the history.
pub const EXECUTION_HISTORY_LIMIT: i64 = 20;

/// Execution status enum.
#[derive(Debug, Clone, Copy, PartialEq, Eq, Structural)]
pub enum ExecutionStatus {
    Pending,
    Running,
    Success,
    Failed,
    Timeout,
    Skipped,
}

/// The stored text of a status.
pub open spec fn status_text(s: ExecutionStatus) -> Seq<char> {
    match s {
        ExecutionStatus::Pending => "pending"@,
        ExecutionStatus::Running => "running"@,
        ExecutionStatus::Success => "success"@,
        ExecutionStatus::Failed => "failed"@,
        ExecutionStatus::Timeout => "timeout"@,
        ExecutionStatus::Skipped => "skipped"@,
    }
}

/// The status a stored text names, if any.
pub open spec fn status_of_text(t: Seq<char>) -> Option<ExecutionStatus> {
    if t == "pending"@ {
        Some(ExecutionStatus::Pending)
    } else if t == "running"@ {
        Some(ExecutionStatus::Running)
    } else if t == "success"@ {
        Some(ExecutionStatus::Success)
    } else if t == "failed"@ {
        Some(ExecutionStatus::Failed)
    } else if t == "timeout"@ {
        Some(ExecutionStatus::Timeout)
    } else if t == "skipped"@ {
        Some(ExecutionStatus::Skipped)
    } else {
        None
    }
}

impl ExecutionStatus {
    /// The stored text of this status.
    pub fn as_str(&self) -> (r: &'static str)
        ensures
            r@ == status_text(*self),
    {
        match self {
            ExecutionStatus::Pending => "pending",
            ExecutionStatus::Running => "running",
            ExecutionStatus::Success => "success",
            ExecutionStatus::Failed => "failed",
            ExecutionStatus::Timeout => "timeout",
            ExecutionStatus::Skipped => "skipped",
        }
    }

    /// Reads a stored status text; any other text is refused with
    /// `Invalid execution status: <text>`.
    pub fn from_str(s: &str) -> (r: Result<ExecutionStatus, String>)
        ensures
            match status_of_text(s@) {
                Some(st) => r == Ok::<ExecutionStatus, String>(st),
                None => r is Err && r->Err_0@ == "Invalid execution status: "@ + s@,
            },
    {
        let v = chars_of(s);
        if chars_eq(v.as_slice(), chars_of("pending").as_slice()) {
            Ok(ExecutionStatus::Pending)
        } else if chars_eq(v.as_slice(), chars_of("running").as_slice()) {
            Ok(ExecutionStatus::Running)
        } else if chars_eq(v.as_slice(), chars_of("success").as_slice()) {
            Ok(ExecutionStatus::Success)
        } else if chars_eq(v.as_slice(), chars_of("failed").as_slice()) {
            Ok(ExecutionStatus::Failed)
        } else if chars_eq(v.as_slice(), chars_of("timeout").as_slice()) {
            Ok(ExecutionStatus::Timeout)
        } else if chars_eq(v.as_slice(), chars_of("skipped").as_slice()) {
            Ok(ExecutionStatus::Skipped)
        } else {
            let m = str_then_chars("Invalid execution status: ", v.as_slice());
            Err(string_of(m.as_slice()))
        }
    }

    /// The name of the variant, as `{:?}` prints it.
    pub fn debug_name(&self) -> (r: &'static str)
        ensures
            r@ == status_name(*self),
    {
        match self {
            ExecutionStatus::Pending => "Pending",
            ExecutionStatus::Running => "Running",
            ExecutionStatus::Success => "Success",
            ExecutionStatus::Failed => "Failed",
            ExecutionStatus::Timeout => "Timeout",
            ExecutionStatus::Skipped => "Skipped",
        }
    }
}

/// The name of a status variant.
pub open spec fn status_name(s: ExecutionStatus) -> Seq<char> {
    match s {
        ExecutionStatus::Pending => "Pending"@,
        ExecutionStatus::Running => "Running"@,
        ExecutionStatus::Success => "Success"@,
        ExecutionStatus::Failed => "Failed"@,
        ExecutionStatus::Timeout => "Timeout"@,
        ExecutionStatus::Skipped => "Skipped"@,
    }
}

/// Reading back the stored text of a status gives the status again, so two
/// statuses never share a text.
pub proof fn law_status_text_round_trip(s: ExecutionStatus)
    ensures
        status_of_text(status_text(s)) == Some(s),
{
    lemma_status_texts_distinct();
}

/// The six status texts differ from each other (by their first two letters).
proof fn lemma_status_texts_distinct()
    ensures
        "running"@ != "pending"@,
        "success"@ != "pending"@,
        "success"@ != "running"@,
        "failed"@ != "pending"@,
        "failed"@ != "running"@,
        "failed"@ != "success"@,
        "timeout"@ != "pending"@,
        "timeout"@ != "running"@,
        "timeout"@ != "success"@,
        "timeout"@ != "failed"@,
        "skipped"@ != "pending"@,
        "skipped"@ != "running"@,
        "skipped"@ != "success"@,
        "skipped"@ != "failed"@,
        "skipped"@ != "timeout"@,
{
    reveal_strlit("pending");
    reveal_strlit("running");
    reveal_strlit("success");
    reveal_strlit("failed");
    reveal_strlit("timeout");
    reveal_strlit("skipped");
    assert("pending"@[0] == 'p');
    assert("running"@[0] == 'r');
    assert("success"@[0] == 's');
    assert("success"@[1] == 'u');
    assert("failed"@[0] == 'f');
    assert("timeout"@[0] == 't');
    assert("skipped"@[0] == 's');
    assert("skipped"@[1] == 'k');
}

/// Execution model representing a task execution record.
#[derive(Debug, Clone, PartialEq, Eq)]
pub struct Execution {
    pub id: String,
    pub task_id: String,
    pub session_id: Option<String>,
    pub status: String,
    pub started_at: String,
    pub finished_at: Option<String>,
    pub output_file: Option<String>,
    pub error_message: Option<String>,
}

/// NewExecution struct for creating a new execution.
#[derive(Debug, Clone, PartialEq, Eq)]
pub struct NewExecution {
    pub task_id: String,
    pub session_id: Option<String>,
    pub status: Option<ExecutionStatus>,
    pub output_file: Option<String>,
    pub error_message: Option<String>,
}

/// UpdateExecution struct for updating an existing execution.
#[derive(Debug, Clone, PartialEq, Eq)]
pub struct UpdateExecution {
    pub session_id: Option<String>,
    pub status: Option<ExecutionStatus>,
    pub finished_at: Option<String>,
    pub output_file: Option<String>,
    pub error_message: Option<String>,
}

/// A field of an update wins over the stored one when it is present
/// (`Option::or`).
pub open spec fn prefer<T>(new: Option<T>, old: Option<T>) -> Option<T> {
    match new {
        Some(v) => Some(v),
        None => old,
    }
}

fn prefer_string(new: Option<String>, old: Option<String>) -> (r: Option<String>)
    ensures
        r == prefer(new, old),
{
    match new {
        Some(v) => Some(v),
        None => old,
    }
}

fn status_string(s: ExecutionStatus) -> (r: String)
    ensures
        r@ == status_text(s),
{
    let v = chars_of(s.as_str());
    string_of(v.as_slice())
}

/// The record stored for a new execution, given the id and start time it
/// was created with: the status defaults to `pending`, and it has not
/// finished.
pub open spec fn created_execution_matches(
    r: Execution,
    new: NewExecution,
    id: Seq<char>,
    started_at: Seq<char>,
) -> bool {
    &&& r.id@ == id
    &&& r.task_id == new.task_id
    &&& r.session_id == new.session_id
    &&& r.status@ == (match new.status {
        Some(s) => status_text(s),
        None => "pending"@,
    })
    &&& r.started_at@ == started_at
    &&& r.finished_at is None
    &&& r.output_file == new.output_file
    &&& r.error_message == new.error_message
}

/// Builds the record of a new execution.
pub fn new_execution_record(new_execution: NewExecution, id: String, started_at: String) -> (r:
    Execution)
    ensures
        created_execution_matches(r, new_execution, id@, started_at@),
{
    let status = match new_execution.status {
        Some(s) => status_string(s),
        None => string_of(chars_of("pending").as_slice()),
    };
    Execution {
        id,
        task_id: new_execution.task_id,
        session_id: new_execution.session_id,
        status,
        started_at,
        finished_at: None,
        output_file: new_execution.output_file,
        error_message: new_execution.error_message,
    }
}

/// The stored record after a partial update: each field present in the
/// update replaces the stored one; the id, task and start time never change.
pub open spec fn updated_execution_matches(r: Execution, e: Execution, u: UpdateExecution) -> bool {
    &&& r.id == e.id
    &&& r.task_id == e.task_id
    &&& r.session_id == prefer(u.session_id, e.session_id)
    &&& r.status@ == (match u.status {
        Some(s) => status_text(s),
        None => e.status@,
    })
    &&& r.started_at == e.started_at
    &&& r.finished_at == prefer(u.finished_at, e.finished_at)
    &&& r.output_file == prefer(u.output_file, e.output_file)
    &&& r.error_message == prefer(u.error_message, e.error_message)
}

/// Applies a partial update to a stored execution.
pub fn apply_execution_update(existing: Execution, update: UpdateExecution) -> (r: Execution)
    ensures
        updated_execution_matches(r, existing, update),
{
    let status = match update.status {
        Some(s) => status_string(s),
        None => existing.status,
    };
    Execution {
        id: existing.id,
        task_id: existing.task_id,
        session_id: prefer_string(update.session_id, existing.session_id),
        status,
        started_at: existing.started_at,
        finished_at: prefer_string(update.finished_at, existing.finished_at),
        output_file: prefer_string(update.output_file, existing.output_file),
        error_message: prefer_string(update.error_message, existing.error_message),
    }
}

/// Whether a stored execution is still running.
pub fn is_running_record(e: &Execution) -> (r: bool)
    ensures
        r == (e.status@ == "running"@),
{
    let v = chars_of_string(&e.status);
    chars_eq(v.as_slice(), chars_of("running").as_slice())
}

/// Applies a partial update only to an execution that is still running; a
/// finished execution is left alone (`None`).
pub fn apply_update_if_running(existing: Execution, update: UpdateExecution) -> (r: Option<
    Execution,
>)
    ensures
        existing.status@ == "running"@ ==> (r is Some && updated_execution_matches(
            r->0,
            existing,
            update,
        )),
        existing.status@ != "running"@ ==> r is None,
{
    if is_running_record(&existing) {
        Some(apply_execution_update(existing, update))
    } else {
        None
    }
}

/// An update that carries no field leaves a stored execution as it was.
pub proof fn law_empty_update_keeps_execution(e: Execution, r: Execution)
    requires
        updated_execution_matches(
            r,
            e,
            UpdateExecution {
                session_id: None,
                status: None,
                finished_at: None,
                output_file: None,
                error_message: None,
            },
        ),
    ensures
        r.id == e.id && r.task_id == e.task_id && r.session_id == e.session_id && r.status@
            == e.status@ && r.started_at == e.started_at && r.finished_at == e.finished_at
            && r.output_file == e.output_file && r.error_message == e.error_message,
{
}

/// Applying the same update twice stores what applying it once stored.
pub proof fn law_update_is_idempotent(e: Execution, u: UpdateExecution, r1: Execution, r2: Execution)
    requires
        updated_execution_matches(r1, e, u),
        updated_execution_matches(r2, r1, u),
    ensures
        r2.id == r1.id && r2.task_id == r1.task_id && r2.session_id == r1.session_id && r2.status@
            == r1.status@ && r2.started_at == r1.started_at && r2.finished_at == r1.finished_at
            && r2.output_file == r1.output_file && r2.error_message == r1.error_message,
{
}

/// A finished execution is never changed by a guarded update, so a late
/// result cannot overwrite the outcome recorded first.
pub proof fn law_finished_execution_is_final(e: Execution, u: UpdateExecution, r: Option<Execution>)
    requires
        e.status@ == status_text(ExecutionStatus::Success) || e.status@ == status_text(
            ExecutionStatus::Failed,
        ) || e.status@ == status_text(ExecutionStatus::Timeout),
        e.status@ != "running"@ ==> r is None,
    ensures
        r is None,
{
    lemma_status_texts_distinct();
}

} // verus!
