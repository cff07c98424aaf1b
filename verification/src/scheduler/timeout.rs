//! Running a child process under a deadline: the errors it can end in, what
//! a finished run reports, and how a process (group) is killed.
//!
//! Spawning, waiting and reading the pipes are done by the caller; this
//! module holds what is decided around them.
use crate::text::{chars_of, chars_of_string, decimal, extend_chars, str_then_chars, string_of, u64_decimal};
use vstd::prelude::*;

verus! {

/// Timeout error types.
#[derive(Debug, Clone, PartialEq, Eq)]
pub enum TimeoutError {
    /// Process execution timed out.
    Timeout { timeout_secs: u64 },
    /// Failed to spawn process.
    SpawnFailed { message: String },
    /// Failed to kill process.
    KillFailed { pid: u32, message: String },
    /// Process execution failed.
    ExecutionFailed { message: String },
}

impl TimeoutError {
    /// The text this error displays.
    pub open spec fn message(&self) -> Seq<char> {
        match self {
            TimeoutError::Timeout { timeout_secs } => "Process execution timed out after "@
                + decimal(*timeout_secs as nat) + " seconds"@,
            TimeoutError::SpawnFailed { message } => "Failed to spawn process: "@ + message@,
            TimeoutError::KillFailed { pid, message } => "Failed to kill process "@ + decimal(
                *pid as nat,
            ) + ": "@ + message@,
            TimeoutError::ExecutionFailed { message } => "Process execution failed: "@
                + message@,
        }
    }

    /// The text this error displays.
    pub fn to_string(&self) -> (r: String)
        ensures
            r@ == self.message(),
    {
        let v = match self {
            TimeoutError::Timeout { timeout_secs } => {
                let mut v = str_then_chars(
                    "Process execution timed out after ",
                    u64_decimal(*timeout_secs).as_slice(),
                );
                extend_chars(&mut v, chars_of(" seconds").as_slice());
                v
            },
            TimeoutError::SpawnFailed { message } => str_then_chars(
                "Failed to spawn process: ",
                chars_of_string(message).as_slice(),
            ),
            TimeoutError::KillFailed { pid, message } => {
                let mut v = str_then_chars(
                    "Failed to kill process ",
                    u64_decimal(*pid as u64).as_slice(),
                );
                extend_chars(&mut v, chars_of(": ").as_slice());
                extend_chars(&mut v, chars_of_string(message).as_slice());
                v
            },
            TimeoutError::ExecutionFailed { message } => str_then_chars(
                "Process execution failed: ",
                chars_of_string(message).as_slice(),
            ),
        };
        string_of(v.as_slice())
    }
}

/// The exit code carried by a raw Unix wait status: present when the process
/// exited normally (no terminating signal in the low seven bits), and then
/// the second byte of the status.
pub open spec fn wait_exit_code(status: i32) -> Option<i32> {
    if status & 0x7f == 0 {
        Some((status >> 8) & 0xff)
    } else {
        None
    }
}

/// The raw wait status of a child killed by `SIGKILL`.
pub const KILLED_STATUS: i32 = 137;

/// Output from a process execution.
///
/// `status` is the raw Unix wait status of the process.
#[derive(Debug, Clone, PartialEq, Eq)]
pub struct ProcessOutput {
    /// Exit status of the process (raw wait status).
    pub status: i32,
    /// Standard output from the process.
    pub stdout: String,
    /// Standard error from the process.
    pub stderr: String,
    /// Whether the process timed out.
    pub timed_out: bool,
}

impl ProcessOutput {
    /// Check if the process exited successfully: it exited normally, with
    /// code 0.
    pub fn success(&self) -> (r: bool)
        ensures
            r == (wait_exit_code(self.status) == Some(0i32)),
    {
        let s = self.status;
        let r = s & 0xff7f == 0;
        assert((s & 0xff7f == 0) == (s & 0x7f == 0 && (s >> 8) & 0xff == 0)) by (bit_vector);
        r
    }

    /// Get the exit code if available (none when a signal ended the process).
    pub fn code(&self) -> (r: Option<i32>)
        ensures
            r == wait_exit_code(self.status),
    {
        let s = self.status;
        if s & 0x7f == 0 {
            Some((s >> 8) & 0xff)
        } else {
            None
        }
    }

    /// What a run reports when its deadline passed and its process group was
    /// killed: no output, the status of a `SIGKILL`, and the timeout flag.
    pub fn timed_out_output() -> (r: ProcessOutput)
        ensures
            r.status == KILLED_STATUS,
            r.stdout@ == Seq::<char>::empty(),
            r.stderr@ == Seq::<char>::empty(),
            r.timed_out,
            wait_exit_code(r.status) is None,
    {
        let s: i32 = KILLED_STATUS;
        assert(s & 0x7f != 0) by (bit_vector)
            requires
                s == 137i32,
        ;
        ProcessOutput {
            status: KILLED_STATUS,
            stdout: String::new(),
            stderr: String::new(),
            timed_out: true,
        }
    }
}

/// Success of a process output is exactly an exit code of 0.
pub proof fn law_success_is_exit_code_zero(status: i32)
    ensures
        (status & 0xff7f == 0) <==> wait_exit_code(status) == Some(0i32),
{
    assert((status & 0xff7f == 0) == (status & 0x7f == 0 && (status >> 8) & 0xff == 0))
        by (bit_vector);
}

/// The process id that `kill` is sent to: the process itself, or (negated)
/// the process group it leads.
pub open spec fn signal_target_spec(pid: u32, kill_process_group: bool) -> int {
    if kill_process_group {
        -((pid as i32) as int)
    } else {
        (pid as i32) as int
    }
}

/// Computes the id handed to `kill` for `pid`.
pub fn signal_target(pid: u32, kill_process_group: bool) -> (r: i32)
    requires
        kill_process_group ==> pid as i32 != i32::MIN,
    ensures
        r == signal_target_spec(pid, kill_process_group),
{
    let p = pid as i32;
    if kill_process_group {
        -p
    } else {
        p
    }
}

/// Sends `SIGKILL` to `target` with `nix::sys::signal::kill` (a negative
/// target names a process group). Whether the signal could be delivered
/// depends on the processes of the machine, so nothing is promised of the
/// result; an error carries the errno's text.
#[verifier::external_body]
pub(crate) fn send_sigkill(target: i32) -> (r: Result<(), String>) {
    nix::sys::signal::kill(nix::unistd::Pid::from_raw(target), nix::sys::signal::Signal::SIGKILL)
        .map_err(|e| e.to_string())
}

/// Kills `pid` (or the process group it leads) with `SIGKILL`. A failed
/// `kill` is reported as `KillFailed` for `pid`, with the system's message.
pub fn kill_process(pid: u32, kill_process_group: bool) -> (r: Result<(), TimeoutError>)
    requires
        kill_process_group ==> pid as i32 != i32::MIN,
    ensures
        match r {
            Ok(()) => true,
            Err(TimeoutError::KillFailed { pid: p, .. }) => p == pid,
            Err(_) => false,
        },
{
    let target = signal_target(pid, kill_process_group);
    match send_sigkill(target) {
        Ok(()) => Ok(()),
        Err(message) => Err(TimeoutError::KillFailed { pid, message }),
    }
}

/// What `run_with_timeout` returns once the deadline passed: the outcome of
/// killing the process group decides it, an error of the kill is the error
/// of the run, and otherwise the run reports a timed-out output.
pub fn timed_out_result(kill_result: Result<(), TimeoutError>) -> (r: Result<
    ProcessOutput,
    TimeoutError,
>)
    ensures
        match kill_result {
            Err(e) => r == Err::<ProcessOutput, TimeoutError>(e),
            Ok(()) => match r {
                Ok(o) => o.timed_out && o.status == KILLED_STATUS && o.stdout@.len() == 0
                    && o.stderr@.len() == 0,
                Err(_) => false,
            },
        },
{
    match kill_result {
        Err(e) => Err(e),
        Ok(()) => Ok(ProcessOutput::timed_out_output()),
    }
}

} // verus!
