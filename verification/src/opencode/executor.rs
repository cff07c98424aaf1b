//! The errors and results of an opencode run, the arguments it is started
//! with, and the session the application keeps.
//!
//! Starting the process and waiting for it is done by the caller with
//! `run_with_timeout`; the functions here prepare its arguments and turn
//! what it returned into the result of the run.
use crate::opencode::session_parser::{find_session, first_session};
use crate::scheduler::timeout::{wait_exit_code, ProcessOutput, TimeoutError};
use crate::text::{
    chars_of, chars_of_string, decimal, extend_chars, lines, str_then_chars, string_of,
    u64_decimal,
};
use vstd::prelude::*;

verus! {

/// OpenCode execution error types.
#[derive(Debug, Clone, PartialEq, Eq)]
pub enum OpenCodeError {
    /// CLI execution failed.
    ExecutionFailed { message: String },
    /// Process timed out.
    Timeout { timeout_secs: u64 },
    /// Failed to spawn process.
    SpawnFailed { message: String },
    /// Invalid session ID.
    InvalidSession { message: String },
    /// Output parsing failed.
    OutputParseFailed { message: String },
}

impl OpenCodeError {
    /// The text this error displays.
    pub open spec fn message(&self) -> Seq<char> {
        match self {
            OpenCodeError::ExecutionFailed { message } => "OpenCode execution failed: "@
                + message@,
            OpenCodeError::Timeout { timeout_secs } => "OpenCode execution timed out after "@
                + decimal(*timeout_secs as nat) + " seconds"@,
            OpenCodeError::SpawnFailed { message } => "Failed to spawn OpenCode process: "@
                + message@,
            OpenCodeError::InvalidSession { message } => "Invalid session: "@ + message@,
            OpenCodeError::OutputParseFailed { message } => "Failed to parse OpenCode output: "@
                + message@,
        }
    }

    /// The text this error displays.
    pub fn to_string(&self) -> (r: String)
        ensures
            r@ == self.message(),
    {
        let v = match self {
            OpenCodeError::ExecutionFailed { message } => str_then_chars(
                "OpenCode execution failed: ",
                chars_of_string(message).as_slice(),
            ),
            OpenCodeError::Timeout { timeout_secs } => {
                let mut v = str_then_chars(
                    "OpenCode execution timed out after ",
                    u64_decimal(*timeout_secs).as_slice(),
                );
                extend_chars(&mut v, chars_of(" seconds").as_slice());
                v
            },
            OpenCodeError::SpawnFailed { message } => str_then_chars(
                "Failed to spawn OpenCode process: ",
                chars_of_string(message).as_slice(),
            ),
            OpenCodeError::InvalidSession { message } => str_then_chars(
                "Invalid session: ",
                chars_of_string(message).as_slice(),
            ),
            OpenCodeError::OutputParseFailed { message } => str_then_chars(
                "Failed to parse OpenCode output: ",
                chars_of_string(message).as_slice(),
            ),
        };
        string_of(v.as_slice())
    }
}

/// The opencode error a process error becomes: a timeout, a spawn failure
/// and an execution failure keep their kind; a failed kill becomes an
/// execution failure that names the process.
pub open spec fn converts_timeout_error(e: TimeoutError, r: OpenCodeError) -> bool {
    match e {
        TimeoutError::Timeout { timeout_secs } => r == OpenCodeError::Timeout { timeout_secs },
        TimeoutError::SpawnFailed { message } => r == OpenCodeError::SpawnFailed { message },
        TimeoutError::KillFailed { pid, message } => match r {
            OpenCodeError::ExecutionFailed { message: m } => m@ == "Failed to kill process "@
                + decimal(pid as nat) + ": "@ + message@,
            _ => false,
        },
        TimeoutError::ExecutionFailed { message } => r == OpenCodeError::ExecutionFailed {
            message,
        },
    }
}

/// Converts a process error into an opencode error.
pub fn from_timeout_error(error: TimeoutError) -> (r: OpenCodeError)
    ensures
        converts_timeout_error(error, r),
{
    match error {
        TimeoutError::Timeout { timeout_secs } => OpenCodeError::Timeout { timeout_secs },
        TimeoutError::SpawnFailed { message } => OpenCodeError::SpawnFailed { message },
        TimeoutError::KillFailed { pid, message } => {
            let mut v = str_then_chars("Failed to kill process ", u64_decimal(pid as u64).as_slice());
            extend_chars(&mut v, chars_of(": ").as_slice());
            extend_chars(&mut v, chars_of_string(&message).as_slice());
            OpenCodeError::ExecutionFailed { message: string_of(v.as_slice()) }
        },
        TimeoutError::ExecutionFailed { message } => OpenCodeError::ExecutionFailed { message },
    }
}

impl From<TimeoutError> for OpenCodeError {
    /// See `from_timeout_error`, which states the conversion.
    fn from(error: TimeoutError) -> (r: OpenCodeError) {
        from_timeout_error(error)
    }
}

impl vstd::std_specs::convert::FromSpecImpl<TimeoutError> for OpenCodeError {
    /// The message of a failed kill is text built at run time, which a spec
    /// value cannot hold; the conversion is stated by `from_timeout_error`.
    open spec fn obeys_from_spec() -> bool {
        false
    }

    open spec fn from_spec(v: TimeoutError) -> OpenCodeError {
        OpenCodeError::Timeout { timeout_secs: 0 }
    }
}

/// Output from OpenCode execution.
#[derive(Debug, Clone, PartialEq, Eq)]
pub struct OpenCodeOutput {
    /// Session ID for this execution.
    pub session_id: String,
    /// Standard output from OpenCode.
    pub stdout: String,
    /// Standard error from OpenCode.
    pub stderr: String,
    /// Whether the execution was successful.
    pub success: bool,
    /// Whether the execution timed out.
    pub timed_out: bool,
}

/// Configuration for OpenCode execution.
#[derive(Debug, Clone, PartialEq, Eq)]
pub struct OpenCodeConfig {
    /// Path to opencode binary (defaults to "opencode" in PATH).
    pub binary_path: String,
    /// Default timeout in seconds (defaults to 300).
    pub default_timeout_secs: u64,
}

impl Default for OpenCodeConfig {
    fn default() -> (r: Self)
        ensures
            r.binary_path@ == "opencode"@,
            r.default_timeout_secs == 300,
    {
        OpenCodeConfig {
            binary_path: string_of(chars_of("opencode").as_slice()),
            default_timeout_secs: 300,
        }
    }
}

/// Makes a random version 4 UUID with the `uuid` crate and renders it in
/// its hyphenated form. The result is random, so nothing is promised of it.
#[verifier::external_body]
fn new_uuid_text() -> (r: String) {
    uuid::Uuid::new_v4().to_string()
}

/// A fresh session id: `sess_` followed by a random UUID.
fn fresh_session_id() -> (r: String)
    ensures
        exists|u: Seq<char>| r@ == "sess_"@ + u,
{
    let u = new_uuid_text();
    let v = str_then_chars("sess_", chars_of_string(&u).as_slice());
    proof {
        assert(v@ == "sess_"@ + u@);
    }
    string_of(v.as_slice())
}

/// Whether `id` has the shape of an id made here: `sess_` and more.
pub open spec fn is_session_id_text(id: Seq<char>) -> bool {
    exists|u: Seq<char>| id == "sess_"@ + u
}

/// The session and result after `get_or_create_session` from session `s`,
/// when a fresh id would be `fresh`: an existing session is returned as it
/// is; otherwise the fresh id becomes the session.
pub open spec fn get_or_create(s: Option<Seq<char>>, fresh: Seq<char>) -> (Option<Seq<char>>, Seq<
    char,
>) {
    match s {
        Some(id) => (Some(id), id),
        None => (Some(fresh), fresh),
    }
}

/// Session manager for OpenCode executions.
#[derive(Debug, Clone)]
pub struct SessionManager {
    /// Current session ID (if any).
    current_session: Option<String>,
}

impl SessionManager {
    /// The current session id.
    pub closed spec fn session(&self) -> Option<Seq<char>> {
        match self.current_session {
            Some(s) => Some(s@),
            None => None,
        }
    }

    /// Create a new session manager.
    pub fn new() -> (r: Self)
        ensures
            r.session() is None,
    {
        SessionManager { current_session: None }
    }

    /// Create a new session ID and make it the current session.
    pub fn create_session(&mut self) -> (r: String)
        ensures
            is_session_id_text(r@),
            final(self).session() == Some(r@),
    {
        let id = fresh_session_id();
        self.current_session = Some(id.clone());
        id
    }

    /// Get current session ID (if exists).
    pub fn get_session(&self) -> (r: Option<&str>)
        ensures
            match self.session() {
                Some(s) => r is Some && r->0@ == s,
                None => r is None,
            },
    {
        match &self.current_session {
            Some(s) => Some(s.as_str()),
            None => None,
        }
    }

    /// Set a specific session ID.
    pub fn set_session(&mut self, session_id: String)
        ensures
            final(self).session() == Some(session_id@),
    {
        self.current_session = Some(session_id);
    }

    /// Clear the current session.
    pub fn clear_session(&mut self)
        ensures
            final(self).session() is None,
    {
        self.current_session = None;
    }

    /// Get the current session ID, or create one.
    pub fn get_or_create_session(&mut self) -> (r: String)
        ensures
            exists|fresh: Seq<char>|
                is_session_id_text(fresh) && (final(self).session(), r@) == get_or_create(
                    old(self).session(),
                    fresh,
                ),
    {
        match &self.current_session {
            Some(session) => {
                let r = session.clone();
                proof {
                    assert(is_session_id_text("sess_"@ + seq![]));
                }
                r
            },
            None => self.create_session(),
        }
    }
}

impl Default for SessionManager {
    fn default() -> (r: Self)
        ensures
            r.session() is None,
    {
        Self::new()
    }
}

/// Once a session exists, asking for one again returns the same id and
/// leaves the session as it is.
pub proof fn law_get_or_create_is_stable(
    s: Option<Seq<char>>,
    fresh1: Seq<char>,
    fresh2: Seq<char>,
)
    ensures
        get_or_create(get_or_create(s, fresh1).0, fresh2) == get_or_create(s, fresh1),
{
}

/// Parses the session id from opencode output: the first line that, trimmed,
/// starts with `Session:` or `session:` and has a non-empty value after the
/// colon.
pub fn parse_session_from_output(output: &str) -> (r: Option<String>)
    ensures
        match first_session(lines(output@), false) {
            Some(v) => r is Some && r->0@ == v,
            None => r is None,
        },
{
    find_session(output, false)
}

/// The command-line arguments of a run: `--session <id>` when a session is
/// given, then `--prompt <prompt>`.
pub open spec fn run_args(prompt: Seq<char>, session_id: Option<Seq<char>>) -> Seq<Seq<char>> {
    match session_id {
        Some(sid) => seq!["--session"@, sid, "--prompt"@, prompt],
        None => seq!["--prompt"@, prompt],
    }
}

/// The views of a sequence of strings.
pub open spec fn texts(v: Seq<String>) -> Seq<Seq<char>> {
    v.map_values(|s: String| s@)
}

/// The view of an optional text.
pub open spec fn opt_str_view(o: Option<&str>) -> Option<Seq<char>> {
    match o {
        Some(s) => Some(s@),
        None => None,
    }
}

/// Builds the command-line arguments of a run.
pub fn opencode_args(prompt: &str, session_id: Option<&str>) -> (r: Vec<String>)
    ensures
        texts(r@) == run_args(prompt@, opt_str_view(session_id)),
{
    let mut args: Vec<String> = Vec::new();
    if let Some(sid) = session_id {
        args.push(string_of(chars_of("--session").as_slice()));
        args.push(string_of(chars_of(sid).as_slice()));
    }
    args.push(string_of(chars_of("--prompt").as_slice()));
    args.push(string_of(chars_of(prompt).as_slice()));
    proof {
        assert(texts(args@) =~= run_args(prompt@, opt_str_view(session_id)));
    }
    args
}

/// The timeout of a run: the one asked for, else the configuration's.
pub fn effective_timeout(timeout_secs: Option<u64>, config: &OpenCodeConfig) -> (r: u64)
    ensures
        r == match timeout_secs {
            Some(t) => t,
            None => config.default_timeout_secs,
        },
{
    match timeout_secs {
        Some(t) => t,
        None => config.default_timeout_secs,
    }
}

/// The session id of a finished run: the one it was started with; else the
/// one its output names; else a fresh `sess_` id.
pub fn resolve_session_id(session_id: Option<&str>, stdout: &str) -> (r: String)
    ensures
        match session_id {
            Some(s) => r@ == s@,
            None => match first_session(lines(stdout@), false) {
                Some(v) => r@ == v,
                None => is_session_id_text(r@),
            },
        },
{
    match session_id {
        Some(s) => string_of(chars_of(s).as_slice()),
        None => match parse_session_from_output(stdout) {
            Some(v) => v,
            None => fresh_session_id(),
        },
    }
}

/// The result of a run whose process finished (or was killed at its
/// deadline): the resolved session, the captured output, whether the process
/// exited with code 0, and whether it timed out.
pub fn opencode_output(session_id: Option<&str>, process_output: ProcessOutput) -> (r:
    OpenCodeOutput)
    ensures
        match session_id {
            Some(s) => r.session_id@ == s@,
            None => match first_session(lines(process_output.stdout@), false) {
                Some(v) => r.session_id@ == v,
                None => is_session_id_text(r.session_id@),
            },
        },
        r.stdout == process_output.stdout,
        r.stderr == process_output.stderr,
        r.success == (wait_exit_code(process_output.status) == Some(0i32)),
        r.timed_out == process_output.timed_out,
{
    let session = resolve_session_id(session_id, process_output.stdout.as_str());
    let success = process_output.success();
    OpenCodeOutput {
        session_id: session,
        stdout: process_output.stdout,
        stderr: process_output.stderr,
        success,
        timed_out: process_output.timed_out,
    }
}

/// The session a `--new-session` run created: a failed run is an execution
/// failure carrying its standard error; otherwise the session its output
/// names, or an output-parse failure.
pub fn session_from_creation(output: ProcessOutput) -> (r: Result<String, OpenCodeError>)
    ensures
        wait_exit_code(output.status) != Some(0i32) ==> r == Err::<String, OpenCodeError>(
            OpenCodeError::ExecutionFailed { message: output.stderr },
        ),
        wait_exit_code(output.status) == Some(0i32) ==> match first_session(
            lines(output.stdout@),
            false,
        ) {
            Some(v) => r is Ok && r->Ok_0@ == v,
            None => r is Err && (match r->Err_0 {
                OpenCodeError::OutputParseFailed { message } => message@
                    == "Failed to parse session ID from output"@,
                _ => false,
            }),
        },
{
    if !output.success() {
        return Err(OpenCodeError::ExecutionFailed { message: output.stderr });
    }
    match parse_session_from_output(output.stdout.as_str()) {
        Some(s) => Ok(s),
        None => Err(
            OpenCodeError::OutputParseFailed {
                message: string_of(chars_of("Failed to parse session ID from output").as_slice()),
            },
        ),
    }
}

/// The standard output of a simulated run.
pub open spec fn mock_stdout(session_id: Seq<char>, prompt: Seq<char>) -> Seq<char> {
    "Session: "@ + session_id + "\nExecuted prompt: "@ + prompt + "\nResult: Mock output"@
}

/// Simulates an opencode run without the CLI: it succeeds, keeps the given
/// session (or makes a fresh one), and prints the session and the prompt.
pub fn run_mock_opencode_task(
    prompt: &str,
    session_id: Option<&str>,
    _timeout_secs: Option<u64>,
) -> (r: Result<OpenCodeOutput, OpenCodeError>)
    ensures
        r is Ok,
        r matches Ok(o) ==> {
            &&& match session_id {
                Some(s) => o.session_id@ == s@,
                None => is_session_id_text(o.session_id@),
            }
            &&& o.stdout@ == mock_stdout(o.session_id@, prompt@)
            &&& o.stderr@.len() == 0
            &&& o.success
            &&& !o.timed_out
        },
{
    let session = match session_id {
        Some(s) => string_of(chars_of(s).as_slice()),
        None => fresh_session_id(),
    };
    let mut v = str_then_chars("Session: ", chars_of_string(&session).as_slice());
    extend_chars(&mut v, chars_of("\nExecuted prompt: ").as_slice());
    extend_chars(&mut v, chars_of(prompt).as_slice());
    extend_chars(&mut v, chars_of("\nResult: Mock output").as_slice());
    Ok(
        OpenCodeOutput {
            session_id: session,
            stdout: string_of(v.as_slice()),
            stderr: String::new(),
            success: true,
            timed_out: false,
        },
    )
}

} // verus!
