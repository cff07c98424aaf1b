//! The job registry of the scheduler: which task has which job, with what
//! schedule, and whether the scheduler runs.
//!
//! The timer engine itself runs outside this crate; every operation that
//! needs it takes the engine's outcome as an argument, so that what the
//! registry records follows the engine's answer.
use crate::scheduler::cron_parser::{cron_failure, validate_cron, CronFailure};
use crate::text::{
    chars_eq, chars_of, chars_of_string, decimal, extend_chars, str_then_chars, string_of,
    u64_decimal,
};
use vstd::prelude::*;

verus! {

/// Scheduler error types.
#[derive(Debug, Clone, PartialEq, Eq)]
pub enum SchedulerError {
    /// Failed to create scheduler.
    SchedulerCreationFailed { message: String },
    /// Failed to add job.
    JobAddFailed { task_id: String, message: String },
    /// Failed to remove job.
    JobRemoveFailed { task_id: String, message: String },
    /// Failed to start scheduler.
    StartFailed { message: String },
    /// Failed to stop scheduler.
    StopFailed { message: String },
    /// Job not found.
    JobNotFound { task_id: String },
    /// Invalid cron expression.
    InvalidCronExpression { expression: String, message: String },
    /// Scheduler already running.
    AlreadyRunning,
    /// Scheduler not running.
    NotRunning,
}

impl SchedulerError {
    /// The text this error displays.
    pub open spec fn message(&self) -> Seq<char> {
        match self {
            SchedulerError::SchedulerCreationFailed { message } => "Failed to create scheduler: "@
                + message@,
            SchedulerError::JobAddFailed { task_id, message } => "Failed to add job for task "@
                + task_id@ + ": "@ + message@,
            SchedulerError::JobRemoveFailed { task_id, message } =>
                "Failed to remove job for task "@ + task_id@ + ": "@ + message@,
            SchedulerError::StartFailed { message } => "Failed to start scheduler: "@ + message@,
            SchedulerError::StopFailed { message } => "Failed to stop scheduler: "@ + message@,
            SchedulerError::JobNotFound { task_id } => "Job not found for task "@ + task_id@,
            SchedulerError::InvalidCronExpression { expression, message } =>
                "Invalid cron expression '"@ + expression@ + "': "@ + message@,
            SchedulerError::AlreadyRunning => "Scheduler is already running"@,
            SchedulerError::NotRunning => "Scheduler is not running"@,
        }
    }

    /// The text this error displays.
    pub fn to_string(&self) -> (r: String)
        ensures
            r@ == self.message(),
    {
        let v = match self {
            SchedulerError::SchedulerCreationFailed { message } => str_then_chars(
                "Failed to create scheduler: ",
                chars_of_string(message).as_slice(),
            ),
            SchedulerError::JobAddFailed { task_id, message } => {
                let mut v = str_then_chars(
                    "Failed to add job for task ",
                    chars_of_string(task_id).as_slice(),
                );
                extend_chars(&mut v, chars_of(": ").as_slice());
                extend_chars(&mut v, chars_of_string(message).as_slice());
                v
            },
            SchedulerError::JobRemoveFailed { task_id, message } => {
                let mut v = str_then_chars(
                    "Failed to remove job for task ",
                    chars_of_string(task_id).as_slice(),
                );
                extend_chars(&mut v, chars_of(": ").as_slice());
                extend_chars(&mut v, chars_of_string(message).as_slice());
                v
            },
            SchedulerError::StartFailed { message } => str_then_chars(
                "Failed to start scheduler: ",
                chars_of_string(message).as_slice(),
            ),
            SchedulerError::StopFailed { message } => str_then_chars(
                "Failed to stop scheduler: ",
                chars_of_string(message).as_slice(),
            ),
            SchedulerError::JobNotFound { task_id } => str_then_chars(
                "Job not found for task ",
                chars_of_string(task_id).as_slice(),
            ),
            SchedulerError::InvalidCronExpression { expression, message } => {
                let mut v = str_then_chars(
                    "Invalid cron expression '",
                    chars_of_string(expression).as_slice(),
                );
                extend_chars(&mut v, chars_of("': ").as_slice());
                extend_chars(&mut v, chars_of_string(message).as_slice());
                v
            },
            SchedulerError::AlreadyRunning => chars_of("Scheduler is already running"),
            SchedulerError::NotRunning => chars_of("Scheduler is not running"),
        };
        string_of(v.as_slice())
    }
}

/// Job information stored in the scheduler.
#[derive(Debug, Clone)]
pub struct JobInfo {
    /// Task ID from database.
    pub task_id: String,
    /// Job UUID from the timer engine, as a 128-bit number.
    pub job_id: u128,
    /// Cron expression, or `@once+<seconds>s` for a one-shot job.
    pub cron_expression: String,
}

/// Scheduler state.
#[derive(Debug, Clone, Copy, PartialEq, Eq, Structural)]
pub enum SchedulerState {
    /// Scheduler is stopped.
    Stopped,
    /// Scheduler is running.
    Running,
}

/// What the timer engine answered while a job was being added.
pub enum AddOutcome {
    /// The job was added.
    Added,
    /// The engine could not build the job (before any engine was touched).
    JobInvalid(String),
    /// Creating the engine failed.
    CreateFailed(String),
    /// Starting the newly created engine failed.
    StartFailed(String),
    /// The engine refused the job.
    AddFailed(String),
}

/// What the timer engine answered while the scheduler was being started.
pub enum StartOutcome {
    /// The engine runs.
    Started,
    /// Creating the engine failed.
    CreateFailed(String),
    /// Starting the engine failed.
    StartFailed(String),
}

/// What the timer engine must do before a job can be added.
#[derive(Debug, Clone, Copy, PartialEq, Eq, Structural)]
pub struct EnginePlan {
    /// The engine does not exist yet and must be created.
    pub create: bool,
    /// The newly created engine must be started, since the scheduler runs.
    pub start: bool,
}

/// The registry key of a job.
pub open spec fn job_key(j: JobInfo) -> Seq<char> {
    j.task_id@
}

/// The registry entry of a job: its job id and its schedule text.
pub open spec fn job_val(j: JobInfo) -> (u128, Seq<char>) {
    (j.job_id, j.cron_expression@)
}

/// No task has two jobs.
pub open spec fn keys_unique(s: Seq<JobInfo>) -> bool {
    forall|i: int, j: int|
        0 <= i < s.len() && 0 <= j < s.len() && i != j ==> job_key(s[i]) != job_key(s[j])
}

/// The jobs as a map from task id to (job id, schedule text).
pub open spec fn entries_map(s: Seq<JobInfo>) -> Map<Seq<char>, (u128, Seq<char>)>
    decreases s.len(),
{
    if s.len() == 0 {
        Map::empty()
    } else {
        entries_map(s.drop_last()).insert(job_key(s.last()), job_val(s.last()))
    }
}

proof fn lemma_entries_lookup(s: Seq<JobInfo>, i: int)
    requires
        keys_unique(s),
        0 <= i < s.len(),
    ensures
        entries_map(s).contains_key(job_key(s[i])),
        entries_map(s)[job_key(s[i])] == job_val(s[i]),
    decreases s.len(),
{
    if i < s.len() - 1 {
        let t = s.drop_last();
        assert(keys_unique(t)) by {
            assert forall|a: int, b: int| 0 <= a < t.len() && 0 <= b < t.len() && a != b implies job_key(
                t[a],
            ) != job_key(t[b]) by {
                assert(t[a] == s[a] && t[b] == s[b]);
            }
        }
        lemma_entries_lookup(t, i);
        assert(t[i] == s[i]);
        assert(job_key(s.last()) != job_key(s[i]));
    }
}

proof fn lemma_entries_dom(s: Seq<JobInfo>, k: Seq<char>)
    requires
        entries_map(s).contains_key(k),
    ensures
        exists|i: int| 0 <= i < s.len() && job_key(#[trigger] s[i]) == k,
    decreases s.len(),
{
    let t = s.drop_last();
    if job_key(s.last()) != k {
        lemma_entries_dom(t, k);
        let i = choose|i: int| 0 <= i < t.len() && job_key(#[trigger] t[i]) == k;
        assert(s[i] == t[i]);
    } else {
        assert(s[s.len() - 1] == s.last());
    }
}

proof fn lemma_keys_unique_remove(s: Seq<JobInfo>, i: int)
    requires
        keys_unique(s),
        0 <= i < s.len(),
    ensures
        keys_unique(s.remove(i)),
{
    let r = s.remove(i);
    assert forall|a: int, b: int| 0 <= a < r.len() && 0 <= b < r.len() && a != b implies job_key(
        r[a],
    ) != job_key(r[b]) by {
        let sa = if a < i {
            a
        } else {
            a + 1
        };
        let sb = if b < i {
            b
        } else {
            b + 1
        };
        assert(r[a] == s[sa] && r[b] == s[sb]);
    }
}

proof fn lemma_entries_remove(s: Seq<JobInfo>, i: int)
    requires
        keys_unique(s),
        0 <= i < s.len(),
    ensures
        entries_map(s.remove(i)) == entries_map(s).remove(job_key(s[i])),
{
    let r = s.remove(i);
    let k0 = job_key(s[i]);
    lemma_keys_unique_remove(s, i);
    assert forall|k: Seq<char>| #[trigger]
        entries_map(r).contains_key(k) <==> entries_map(s).remove(k0).contains_key(k) by {
        if entries_map(r).contains_key(k) {
            lemma_entries_dom(r, k);
            let j = choose|j: int| 0 <= j < r.len() && job_key(#[trigger] r[j]) == k;
            let sj = if j < i {
                j
            } else {
                j + 1
            };
            assert(r[j] == s[sj]);
            lemma_entries_lookup(s, sj);
        }
        if entries_map(s).remove(k0).contains_key(k) {
            lemma_entries_dom(s, k);
            let j = choose|j: int| 0 <= j < s.len() && job_key(#[trigger] s[j]) == k;
            assert(j != i);
            let rj = if j < i {
                j
            } else {
                j - 1
            };
            assert(r[rj] == s[j]);
            lemma_entries_lookup(r, rj);
        }
    }
    assert forall|k: Seq<char>| #[trigger]
        entries_map(r).contains_key(k) implies entries_map(r)[k] == entries_map(s).remove(
        k0,
    )[k] by {
        lemma_entries_dom(r, k);
        let j = choose|j: int| 0 <= j < r.len() && job_key(#[trigger] r[j]) == k;
        let sj = if j < i {
            j
        } else {
            j + 1
        };
        assert(r[j] == s[sj]);
        lemma_entries_lookup(r, j);
        lemma_entries_lookup(s, sj);
    }
    assert(entries_map(r) =~= entries_map(s).remove(k0));
}

proof fn lemma_keys_unique_push(s: Seq<JobInfo>, e: JobInfo)
    requires
        keys_unique(s),
        !entries_map(s).contains_key(job_key(e)),
    ensures
        keys_unique(s.push(e)),
{
    let p = s.push(e);
    assert forall|a: int, b: int| 0 <= a < p.len() && 0 <= b < p.len() && a != b implies job_key(
        p[a],
    ) != job_key(p[b]) by {
        if a == s.len() {
            lemma_entries_lookup(s, b);
        } else if b == s.len() {
            lemma_entries_lookup(s, a);
        } else {
            assert(p[a] == s[a] && p[b] == s[b]);
        }
    }
}

/// Scheduler structure managing all scheduled jobs.
pub struct Scheduler {
    jobs: Vec<JobInfo>,
    state: SchedulerState,
    engine_created: bool,
}

impl Scheduler {
    #[verifier::type_invariant]
    spec fn one_job_per_task(&self) -> bool {
        keys_unique(self.jobs@)
    }

    /// The jobs, from task id to (job id, schedule text).
    pub closed spec fn jobs(&self) -> Map<Seq<char>, (u128, Seq<char>)> {
        entries_map(self.jobs@)
    }

    /// Whether the scheduler runs.
    pub closed spec fn state(&self) -> SchedulerState {
        self.state
    }

    /// Whether the timer engine has been created.
    pub closed spec fn engine_exists(&self) -> bool {
        self.engine_created
    }

    /// Creates a stopped scheduler without jobs or engine.
    pub fn new() -> (s: Self)
        ensures
            s.jobs() == Map::<Seq<char>, (u128, Seq<char>)>::empty(),
            s.state() == SchedulerState::Stopped,
            !s.engine_exists(),
    {
        Scheduler { jobs: Vec::new(), state: SchedulerState::Stopped, engine_created: false }
    }

    fn find(&self, task_id: &[char]) -> (r: Option<usize>)
        ensures
            match r {
                Some(i) => i < self.jobs@.len() && job_key(self.jobs@[i as int]) == task_id@,
                None => !self.jobs().contains_key(task_id@),
            },
    {
        let mut i: usize = 0;
        while i < self.jobs.len()
            invariant
                i <= self.jobs@.len(),
                forall|k: int| 0 <= k < i ==> job_key(self.jobs@[k]) != task_id@,
            decreases self.jobs@.len() - i,
        {
            let c = chars_of_string(&self.jobs[i].task_id);
            if chars_eq(c.as_slice(), task_id) {
                return Some(i);
            }
            i = i + 1;
        }
        proof {
            if self.jobs().contains_key(task_id@) {
                lemma_entries_dom(self.jobs@, task_id@);
            }
        }
        None
    }

    /// The scheduler state.
    pub fn get_state(&self) -> (r: SchedulerState)
        ensures
            r == self.state(),
    {
        self.state
    }

    /// The number of jobs.
    pub fn job_count(&self) -> (r: usize)
        ensures
            r == self.jobs().len(),
    {
        proof {
            use_type_invariant(self);
            self.lemma_len();
        }
        self.jobs.len()
    }

    proof fn lemma_len(&self)
        requires
            keys_unique(self.jobs@),
        ensures
            self.jobs().len() == self.jobs@.len(),
            self.jobs().dom().finite(),
    {
        lemma_entries_len(self.jobs@);
    }

    /// Whether a task has a job.
    pub fn has_job(&self, task_id: &str) -> (r: bool)
        ensures
            r == self.jobs().contains_key(task_id@),
    {
        proof {
            use_type_invariant(self);
        }
        let id = chars_of(task_id);
        match self.find(id.as_slice()) {
            Some(i) => {
                proof {
                    lemma_entries_lookup(self.jobs@, i as int);
                }
                true
            },
            None => false,
        }
    }

    /// The job of a task, if it has one.
    pub fn get_job_info(&self, task_id: &str) -> (r: Option<JobInfo>)
        ensures
            match r {
                Some(info) => self.jobs().contains_key(task_id@) && info.task_id@ == task_id@
                    && self.jobs()[task_id@] == job_val(info),
                None => !self.jobs().contains_key(task_id@),
            },
    {
        proof {
            use_type_invariant(self);
        }
        let id = chars_of(task_id);
        match self.find(id.as_slice()) {
            Some(i) => {
                proof {
                    lemma_entries_lookup(self.jobs@, i as int);
                }
                let j = &self.jobs[i];
                Some(
                    JobInfo {
                        task_id: string_of(chars_of_string(&j.task_id).as_slice()),
                        job_id: j.job_id,
                        cron_expression: string_of(
                            chars_of_string(&j.cron_expression).as_slice(),
                        ),
                    },
                )
            },
            None => None,
        }
    }

    /// Records `info`, replacing any job of the same task.
    fn put(&mut self, info: JobInfo)
        ensures
            final(self).jobs() == old(self).jobs().insert(job_key(info), job_val(info)),
            final(self).state() == old(self).state(),
            final(self).engine_exists() == old(self).engine_exists(),
    {
        proof {
            use_type_invariant(&*self);
        }
        let id = chars_of_string(&info.task_id);
        let mut jobs: Vec<JobInfo> = Vec::new();
        std::mem::swap(&mut jobs, &mut self.jobs);
        let ghost before = jobs@;
        match self.find_in(&jobs, id.as_slice()) {
            Some(i) => {
                proof {
                    lemma_entries_remove(before, i as int);
                    lemma_keys_unique_remove(before, i as int);
                }
                jobs.remove(i);
            },
            None => {},
        }
        let ghost mid = jobs@;
        assert(entries_map(mid) == entries_map(before).remove(job_key(info)));
        assert(!entries_map(mid).contains_key(job_key(info)));
        proof {
            lemma_keys_unique_push(mid, info);
        }
        jobs.push(info);
        assert(jobs@.drop_last() == mid);
        assert(entries_map(jobs@) =~= entries_map(before).insert(job_key(info), job_val(info)));
        self.jobs = jobs;
    }

    fn find_in(&self, jobs: &Vec<JobInfo>, task_id: &[char]) -> (r: Option<usize>)
        requires
            keys_unique(jobs@),
        ensures
            match r {
                Some(i) => i < jobs@.len() && job_key(jobs@[i as int]) == task_id@,
                None => !entries_map(jobs@).contains_key(task_id@),
            },
    {
        let mut i: usize = 0;
        while i < jobs.len()
            invariant
                i <= jobs@.len(),
                forall|k: int| 0 <= k < i ==> job_key(jobs@[k]) != task_id@,
            decreases jobs@.len() - i,
        {
            let c = chars_of_string(&jobs[i].task_id);
            if chars_eq(c.as_slice(), task_id) {
                return Some(i);
            }
            i = i + 1;
        }
        proof {
            if entries_map(jobs@).contains_key(task_id@) {
                lemma_entries_dom(jobs@, task_id@);
            }
        }
        None
    }

    /// Removes the job of a task, if any.
    fn forget(&mut self, task_id: &[char])
        ensures
            final(self).jobs() == old(self).jobs().remove(task_id@),
            final(self).state() == old(self).state(),
            final(self).engine_exists() == old(self).engine_exists(),
    {
        proof {
            use_type_invariant(&*self);
        }
        let mut jobs: Vec<JobInfo> = Vec::new();
        std::mem::swap(&mut jobs, &mut self.jobs);
        let ghost before = jobs@;
        match self.find_in(&jobs, task_id) {
            Some(i) => {
                proof {
                    lemma_entries_remove(before, i as int);
                    lemma_keys_unique_remove(before, i as int);
                }
                jobs.remove(i);
            },
            None => {
                assert(entries_map(before).remove(task_id@) =~= entries_map(before));
            },
        }
        self.jobs = jobs;
    }

    /// What the engine must do before the next job is added: create it when
    /// it does not exist, and start the new engine when the scheduler runs.
    pub fn engine_plan(&self) -> (p: EnginePlan)
        ensures
            p.create == !self.engine_exists(),
            p.start == (!self.engine_exists() && self.state() == SchedulerState::Running),
    {
        let create = !self.engine_created;
        EnginePlan { create, start: create && self.state == SchedulerState::Running }
    }

    /// Checks a job before it is handed to the engine: the cron expression
    /// must validate; the result is the six-field expression `"0 "` followed
    /// by it, which the engine takes.
    pub fn check_job(&self, cron_expression: &str) -> (r: Result<String, SchedulerError>)
        ensures
            match cron_failure(cron_expression@) {
                None => r matches Ok(s) && s@ == "0 "@ + cron_expression@,
                Some(f) => r matches Err(e) && e matches SchedulerError::InvalidCronExpression {
                    expression,
                    message,
                } && expression@ == cron_expression@ && (exists|c: crate::scheduler::cron_parser::CronError|
                    c.reports(f) && message@ == c.message()),
            },
    {
        match validate_cron(cron_expression) {
            Ok(()) => {
                let v = str_then_chars("0 ", chars_of(cron_expression).as_slice());
                Ok(string_of(v.as_slice()))
            },
            Err(e) => {
                let message = e.to_string();
                let expression = string_of(chars_of(cron_expression).as_slice());
                Err(SchedulerError::InvalidCronExpression { expression, message })
            },
        }
    }

    /// Records the engine's answer to adding a job for `task_id` with
    /// schedule text `label` and engine id `job_id`.
    fn finish_add(&mut self, task_id: &str, label: String, job_id: u128, outcome: AddOutcome) -> (r:
        Result<u128, SchedulerError>)
        ensures
            final(self).state() == old(self).state(),
            match outcome {
                AddOutcome::Added => r == Ok::<u128, SchedulerError>(job_id) && final(self).jobs()
                    == old(self).jobs().insert(task_id@, (job_id, label@)) && final(self).engine_exists(),
                AddOutcome::JobInvalid(m) => final(self).jobs() == old(self).jobs() && final(self).engine_exists() == old(self).engine_exists() && (match r {
                    Err(SchedulerError::JobAddFailed { task_id: t, message }) => t@ == task_id@ && message@ == m@,
                    _ => false,
                }),
                AddOutcome::CreateFailed(m) => final(self).jobs() == old(self).jobs() && final(self).engine_exists() == old(self).engine_exists() && (match r {
                    Err(SchedulerError::SchedulerCreationFailed { message }) => message@ == m@,
                    _ => false,
                }),
                AddOutcome::StartFailed(m) => final(self).jobs() == old(self).jobs() && final(self).engine_exists() && (match r {
                    Err(SchedulerError::StartFailed { message }) => message@ == m@,
                    _ => false,
                }),
                AddOutcome::AddFailed(m) => final(self).jobs() == old(self).jobs() && final(self).engine_exists() && (match r {
                    Err(SchedulerError::JobAddFailed { task_id: t, message }) => t@ == task_id@ && message@ == m@,
                    _ => false,
                }),
            },
    {
        proof {
            use_type_invariant(&*self);
        }
        match outcome {
            AddOutcome::Added => {
                let info = JobInfo {
                    task_id: string_of(chars_of(task_id).as_slice()),
                    job_id,
                    cron_expression: label,
                };
                self.put(info);
                proof {
                    use_type_invariant(&*self);
                }
                self.engine_created = true;
                Ok(job_id)
            },
            AddOutcome::JobInvalid(m) => Err(
                SchedulerError::JobAddFailed {
                    task_id: string_of(chars_of(task_id).as_slice()),
                    message: m,
                },
            ),
            AddOutcome::CreateFailed(m) => Err(SchedulerError::SchedulerCreationFailed { message: m }),
            AddOutcome::StartFailed(m) => {
                self.engine_created = true;
                Err(SchedulerError::StartFailed { message: m })
            },
            AddOutcome::AddFailed(m) => {
                self.engine_created = true;
                Err(
                    SchedulerError::JobAddFailed {
                        task_id: string_of(chars_of(task_id).as_slice()),
                        message: m,
                    },
                )
            },
        }
    }

    /// Adds the cron job `job_id` of a task. The expression is validated
    /// first: an invalid one is refused with `InvalidCronExpression` and
    /// nothing changes, whatever the engine answered; otherwise the engine's
    /// answer to adding the job decides.
    pub fn add_job(
        &mut self,
        task_id: &str,
        cron_expression: &str,
        job_id: u128,
        outcome: AddOutcome,
    ) -> (r: Result<u128, SchedulerError>)
        ensures
            final(self).state() == old(self).state(),
            match cron_failure(cron_expression@) {
                Some(f) => final(self).jobs() == old(self).jobs() && final(self).engine_exists()
                    == old(self).engine_exists() && (match r {
                    Err(SchedulerError::InvalidCronExpression { expression, message }) =>
                        expression@ == cron_expression@ && (exists|c: crate::scheduler::cron_parser::CronError|
                        c.reports(f) && message@ == c.message()),
                    _ => false,
                }),
                None => match outcome {
                    AddOutcome::Added => r == Ok::<u128, SchedulerError>(job_id) && final(self).jobs()
                        == old(self).jobs().insert(task_id@, (job_id, cron_expression@)) && final(self).engine_exists(),
                    AddOutcome::JobInvalid(m) => final(self).jobs() == old(self).jobs() && final(self).engine_exists() == old(self).engine_exists() && (match r {
                        Err(SchedulerError::JobAddFailed { task_id: t, message }) => t@ == task_id@ && message@ == m@,
                        _ => false,
                    }),
                    AddOutcome::CreateFailed(m) => final(self).jobs() == old(self).jobs() && final(self).engine_exists() == old(self).engine_exists() && (match r {
                        Err(SchedulerError::SchedulerCreationFailed { message }) => message@ == m@,
                        _ => false,
                    }),
                    AddOutcome::StartFailed(m) => final(self).jobs() == old(self).jobs() && final(self).engine_exists() && (match r {
                        Err(SchedulerError::StartFailed { message }) => message@ == m@,
                        _ => false,
                    }),
                    AddOutcome::AddFailed(m) => final(self).jobs() == old(self).jobs() && final(self).engine_exists() && (match r {
                        Err(SchedulerError::JobAddFailed { task_id: t, message }) => t@ == task_id@ && message@ == m@,
                        _ => false,
                    }),
                },
            },
    {
        match self.check_job(cron_expression) {
            Err(e) => Err(e),
            Ok(_) => {
                let label = string_of(chars_of(cron_expression).as_slice());
                self.finish_add(task_id, label, job_id, outcome)
            },
        }
    }

    /// Records the engine's answer to adding the one-shot job `job_id` of a
    /// task, due after `delay_secs` seconds; its schedule text is
    /// `@once+<delay_secs>s`.
    pub fn add_one_shot_job(
        &mut self,
        task_id: &str,
        delay_secs: u64,
        job_id: u128,
        outcome: AddOutcome,
    ) -> (r: Result<u128, SchedulerError>)
        ensures
            final(self).state() == old(self).state(),
            match outcome {
                AddOutcome::Added => r == Ok::<u128, SchedulerError>(job_id) && final(self).jobs()
                    == old(self).jobs().insert(task_id@, (job_id, one_shot_label(delay_secs))) && final(self).engine_exists(),
                AddOutcome::JobInvalid(m) => final(self).jobs() == old(self).jobs() && final(self).engine_exists() == old(self).engine_exists() && (match r {
                    Err(SchedulerError::JobAddFailed { task_id: t, message }) => t@ == task_id@ && message@ == m@,
                    _ => false,
                }),
                AddOutcome::CreateFailed(m) => final(self).jobs() == old(self).jobs() && final(self).engine_exists() == old(self).engine_exists() && (match r {
                    Err(SchedulerError::SchedulerCreationFailed { message }) => message@ == m@,
                    _ => false,
                }),
                AddOutcome::StartFailed(m) => final(self).jobs() == old(self).jobs() && final(self).engine_exists() && (match r {
                    Err(SchedulerError::StartFailed { message }) => message@ == m@,
                    _ => false,
                }),
                AddOutcome::AddFailed(m) => final(self).jobs() == old(self).jobs() && final(self).engine_exists() && (match r {
                    Err(SchedulerError::JobAddFailed { task_id: t, message }) => t@ == task_id@ && message@ == m@,
                    _ => false,
                }),
            },
    {
        let mut v = chars_of("@once+");
        extend_chars(&mut v, u64_decimal(delay_secs).as_slice());
        extend_chars(&mut v, chars_of("s").as_slice());
        let label = string_of(v.as_slice());
        self.finish_add(task_id, label, job_id, outcome)
    }

    /// Removes the job of a task once the engine has answered
    /// `engine_result` to removing it: `JobNotFound` when the task has no
    /// job, `JobRemoveFailed` when the engine failed (the job stays).
    pub fn remove_job(&mut self, task_id: &str, engine_result: Result<(), String>) -> (r: Result<
        (),
        SchedulerError,
    >)
        ensures
            final(self).state() == old(self).state(),
            final(self).engine_exists() == old(self).engine_exists(),
            !old(self).jobs().contains_key(task_id@) ==> final(self).jobs() == old(self).jobs()
                && (match r {
                Err(SchedulerError::JobNotFound { task_id: t }) => t@ == task_id@,
                _ => false,
            }),
            old(self).jobs().contains_key(task_id@) ==> (match engine_result {
                Ok(()) => r is Ok && final(self).jobs() == old(self).jobs().remove(task_id@),
                Err(m) => final(self).jobs() == old(self).jobs() && (match r {
                    Err(SchedulerError::JobRemoveFailed { task_id: t, message }) => t@ == task_id@
                        && message@ == m@,
                    _ => false,
                }),
            }),
    {
        let id = chars_of(task_id);
        if !self.has_job(task_id) {
            return Err(SchedulerError::JobNotFound { task_id: string_of(id.as_slice()) });
        }
        match engine_result {
            Err(m) => Err(
                SchedulerError::JobRemoveFailed { task_id: string_of(id.as_slice()), message: m },
            ),
            Ok(()) => {
                self.forget(id.as_slice());
                Ok(())
            },
        }
    }

    /// After a one-shot job has fired, removes the task's entry only when it
    /// still belongs to that job; an entry that replaced it stays.
    pub fn complete_one_shot(&mut self, task_id: &str, executed_job_id: u128) -> (removed: bool)
        ensures
            final(self).state() == old(self).state(),
            final(self).engine_exists() == old(self).engine_exists(),
            final(self).jobs() == one_shot_cleanup(old(self).jobs(), task_id@, executed_job_id),
            removed == (old(self).jobs().contains_key(task_id@) && old(self).jobs()[task_id@].0
                == executed_job_id),
    {
        match self.get_job_info(task_id) {
            Some(info) => {
                if info.job_id == executed_job_id {
                    let id = chars_of(task_id);
                    self.forget(id.as_slice());
                    true
                } else {
                    false
                }
            },
            None => false,
        }
    }

    /// Removes every job.
    pub fn clear_jobs(&mut self)
        ensures
            final(self).jobs() == Map::<Seq<char>, (u128, Seq<char>)>::empty(),
            final(self).state() == old(self).state(),
            final(self).engine_exists() == old(self).engine_exists(),
    {
        self.jobs = Vec::new();
    }

    /// Starts the scheduler once the engine has answered `outcome`:
    /// `AlreadyRunning` when it runs (the engine is not asked), otherwise the
    /// engine's failure, or the running state.
    pub fn start(&mut self, outcome: StartOutcome) -> (r: Result<(), SchedulerError>)
        ensures
            final(self).jobs() == old(self).jobs(),
            old(self).state() == SchedulerState::Running ==> r == Err::<(), SchedulerError>(
                SchedulerError::AlreadyRunning,
            ) && final(self).state() == old(self).state() && final(self).engine_exists() == old(self).engine_exists(),
            old(self).state() == SchedulerState::Stopped ==> (match outcome {
                StartOutcome::Started => r is Ok && final(self).state() == SchedulerState::Running
                    && final(self).engine_exists(),
                StartOutcome::CreateFailed(m) => final(self).state() == SchedulerState::Stopped
                    && final(self).engine_exists() == old(self).engine_exists() && (match r {
                    Err(SchedulerError::SchedulerCreationFailed { message }) => message@ == m@,
                    _ => false,
                }),
                StartOutcome::StartFailed(m) => final(self).state() == SchedulerState::Stopped
                    && final(self).engine_exists() && (match r {
                    Err(SchedulerError::StartFailed { message }) => message@ == m@,
                    _ => false,
                }),
            }),
    {
        proof {
            use_type_invariant(&*self);
        }
        if self.state == SchedulerState::Running {
            return Err(SchedulerError::AlreadyRunning);
        }
        match outcome {
            StartOutcome::Started => {
                self.engine_created = true;
                self.state = SchedulerState::Running;
                Ok(())
            },
            StartOutcome::CreateFailed(m) => Err(
                SchedulerError::SchedulerCreationFailed { message: m },
            ),
            StartOutcome::StartFailed(m) => {
                self.engine_created = true;
                Err(SchedulerError::StartFailed { message: m })
            },
        }
    }

    /// Stops the scheduler once the engine has answered `engine_result` to
    /// shutting down: `NotRunning` when it is stopped, `StopFailed` when the
    /// engine failed (the state stays).
    pub fn stop(&mut self, engine_result: Result<(), String>) -> (r: Result<(), SchedulerError>)
        ensures
            final(self).jobs() == old(self).jobs(),
            final(self).engine_exists() == old(self).engine_exists(),
            old(self).state() == SchedulerState::Stopped ==> r == Err::<(), SchedulerError>(
                SchedulerError::NotRunning,
            ) && final(self).state() == SchedulerState::Stopped,
            old(self).state() == SchedulerState::Running ==> (match engine_result {
                Ok(()) => r is Ok && final(self).state() == SchedulerState::Stopped,
                Err(m) => final(self).state() == SchedulerState::Running && (match r {
                    Err(SchedulerError::StopFailed { message }) => message@ == m@,
                    _ => false,
                }),
            }),
    {
        proof {
            use_type_invariant(&*self);
        }
        if self.state == SchedulerState::Stopped {
            return Err(SchedulerError::NotRunning);
        }
        match engine_result {
            Ok(()) => {
                self.state = SchedulerState::Stopped;
                Ok(())
            },
            Err(m) => Err(SchedulerError::StopFailed { message: m }),
        }
    }
}

proof fn lemma_entries_len(s: Seq<JobInfo>)
    requires
        keys_unique(s),
    ensures
        entries_map(s).dom().finite(),
        entries_map(s).len() == s.len(),
    decreases s.len(),
{
    if s.len() > 0 {
        let t = s.drop_last();
        assert(keys_unique(t)) by {
            assert forall|a: int, b: int| 0 <= a < t.len() && 0 <= b < t.len() && a != b implies job_key(
                t[a],
            ) != job_key(t[b]) by {
                assert(t[a] == s[a] && t[b] == s[b]);
            }
        }
        lemma_entries_len(t);
        if entries_map(t).contains_key(job_key(s.last())) {
            lemma_entries_dom(t, job_key(s.last()));
            let i = choose|i: int| 0 <= i < t.len() && job_key(#[trigger] t[i]) == job_key(s.last());
            assert(t[i] == s[i]);
            assert(s[s.len() - 1] == s.last());
        }
    }
}

/// The schedule text of a one-shot job due after `delay_secs` seconds.
pub open spec fn one_shot_label(delay_secs: u64) -> Seq<char> {
    "@once+"@ + decimal(delay_secs as nat) + "s"@
}

/// The jobs after the one-shot job `executed` of `task_id` has fired.
pub open spec fn one_shot_cleanup(
    jobs: Map<Seq<char>, (u128, Seq<char>)>,
    task_id: Seq<char>,
    executed: u128,
) -> Map<Seq<char>, (u128, Seq<char>)> {
    if jobs.contains_key(task_id) && jobs[task_id].0 == executed {
        jobs.remove(task_id)
    } else {
        jobs
    }
}

/// When a task's one-shot job is replaced by another job before the
/// one-shot's callback finishes, the callback's cleanup leaves the
/// replacement in place.
pub proof fn law_one_shot_cleanup_keeps_replacement(
    jobs: Map<Seq<char>, (u128, Seq<char>)>,
    task_id: Seq<char>,
    executed: u128,
    replacement: u128,
    schedule: Seq<char>,
)
    requires
        replacement != executed,
    ensures
        one_shot_cleanup(jobs.insert(task_id, (replacement, schedule)), task_id, executed)
            == jobs.insert(task_id, (replacement, schedule)),
{
}

/// A one-shot job that fired while still registered is removed, and the
/// other tasks' jobs are kept.
pub proof fn law_one_shot_cleanup_removes_own_job(
    jobs: Map<Seq<char>, (u128, Seq<char>)>,
    task_id: Seq<char>,
    executed: u128,
    schedule: Seq<char>,
    other: Seq<char>,
)
    requires
        other != task_id,
    ensures
        !one_shot_cleanup(jobs.insert(task_id, (executed, schedule)), task_id, executed).contains_key(
            task_id,
        ),
        one_shot_cleanup(jobs.insert(task_id, (executed, schedule)), task_id, executed).contains_key(
            other,
        ) == jobs.contains_key(other),
{
}

impl Default for Scheduler {
    /// A stopped scheduler without jobs or engine.
    fn default() -> (s: Self)
        ensures
            s.jobs() == Map::<Seq<char>, (u128, Seq<char>)>::empty(),
            s.state() == SchedulerState::Stopped,
            !s.engine_exists(),
    {
        Scheduler::new()
    }
}

} // verus!
