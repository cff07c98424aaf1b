//! Per-task concurrency control: each task can have at most one running
//! instance at a time.
use crate::text::{chars_eq, chars_of, chars_of_string, str_then_chars, string_of, extend_chars};
use vstd::prelude::*;

verus! {

broadcast use vstd::seq_lib::seq_to_set_is_finite;

/// Task queue error types.
#[derive(Debug, Clone, PartialEq, Eq)]
pub enum TaskQueueError {
    /// Task is already running (skip execution).
    TaskAlreadyRunning { task_id: String },
    /// Task not found in running tasks.
    TaskNotFound { task_id: String },
}

impl TaskQueueError {
    /// The text this error displays.
    pub open spec fn message(&self) -> Seq<char> {
        match self {
            TaskQueueError::TaskAlreadyRunning { task_id } => "Task '"@ + task_id@
                + "' is already running"@,
            TaskQueueError::TaskNotFound { task_id } => "Task '"@ + task_id@
                + "' not found in running tasks"@,
        }
    }

    /// The text this error displays.
    pub fn to_string(&self) -> (r: String)
        ensures
            r@ == self.message(),
    {
        let v = match self {
            TaskQueueError::TaskAlreadyRunning { task_id } => {
                let mut v = str_then_chars("Task '", chars_of_string(task_id).as_slice());
                extend_chars(&mut v, chars_of("' is already running").as_slice());
                v
            },
            TaskQueueError::TaskNotFound { task_id } => {
                let mut v = str_then_chars("Task '", chars_of_string(task_id).as_slice());
                extend_chars(&mut v, chars_of("' not found in running tasks").as_slice());
                v
            },
        };
        string_of(v.as_slice())
    }
}

/// The views of a sequence of strings.
pub open spec fn string_views(v: Seq<String>) -> Seq<Seq<char>> {
    v.map_values(|s: String| s@)
}

/// Proof that a task's slot was acquired; handing it back to
/// `TaskQueue::release` frees the slot.
#[derive(Debug)]
pub struct SlotGuard {
    task_id: String,
}

impl View for SlotGuard {
    type V = Seq<char>;

    closed spec fn view(&self) -> Seq<char> {
        self.task_id@
    }
}

impl SlotGuard {
    /// The task ID for this guard.
    pub fn task_id(&self) -> (r: &str)
        ensures
            r@ == self@,
    {
        self.task_id.as_str()
    }
}

/// Task queue with per-task concurrency control: the set of tasks that are
/// running.
pub struct TaskQueue {
    running_tasks: Vec<String>,
}

impl View for TaskQueue {
    type V = Set<Seq<char>>;

    closed spec fn view(&self) -> Set<Seq<char>> {
        string_views(self.running_tasks@).to_set()
    }
}

proof fn lemma_push_fresh(s: Seq<Seq<char>>, x: Seq<char>)
    requires
        s.no_duplicates(),
        !s.to_set().contains(x),
    ensures
        s.push(x).no_duplicates(),
        s.push(x).to_set() == s.to_set().insert(x),
{
    assert(!s.contains(x)) by {
        if s.contains(x) {
            let k = choose|k: int| 0 <= k < s.len() && s[k] == x;
            assert(s.to_set().contains(s[k]));
        }
    }
    s.lemma_push_to_set_commute(x);
}

proof fn lemma_remove_unique(s: Seq<Seq<char>>, i: int)
    requires
        s.no_duplicates(),
        0 <= i < s.len(),
    ensures
        s.remove(i).no_duplicates(),
        s.remove(i).to_set() == s.to_set().remove(s[i]),
{
    let r = s.remove(i);
    assert forall|a: int, b: int| 0 <= a < r.len() && 0 <= b < r.len() && a != b implies r[a]
        != r[b] by {
        let sa = if a < i {
            a
        } else {
            a + 1
        };
        let sb = if b < i {
            b
        } else {
            b + 1
        };
        assert(r[a] == s[sa]);
        assert(r[b] == s[sb]);
    }
    assert forall|y: Seq<char>| r.to_set().contains(y) <==> s.to_set().remove(s[i]).contains(
        y,
    ) by {
        if r.to_set().contains(y) {
            assert(r.contains(y));
            let k = choose|k: int| 0 <= k < r.len() && r[k] == y;
            let sk = if k < i {
                k
            } else {
                k + 1
            };
            assert(s[sk] == y);
            assert(s.to_set().contains(y));
            assert(sk != i);
        }
        if s.to_set().remove(s[i]).contains(y) {
            assert(s.contains(y));
            let k = choose|k: int| 0 <= k < s.len() && s[k] == y;
            assert(k != i);
            let rk = if k < i {
                k
            } else {
                k - 1
            };
            assert(r[rk] == y);
            assert(r.contains(y));
        }
    }
    assert(r.to_set() =~= s.to_set().remove(s[i]));
}

impl TaskQueue {
    #[verifier::type_invariant]
    spec fn no_task_twice(&self) -> bool {
        string_views(self.running_tasks@).no_duplicates()
    }

    /// The set of running tasks is finite.
    pub proof fn lemma_view_finite(&self)
        ensures
            self@.finite(),
    {
        vstd::seq_lib::seq_to_set_is_finite(string_views(self.running_tasks@));
    }

    /// Creates a new task queue with nothing running.
    pub fn new() -> (q: Self)
        ensures
            q@ == Set::<Seq<char>>::empty(),
            q@.finite(),
    {
        let q = TaskQueue { running_tasks: Vec::new() };
        assert(string_views(q.running_tasks@).to_set() =~= Set::<Seq<char>>::empty());
        q
    }

    /// The index of `task_id` among the running tasks, if it runs.
    fn find(&self, task_id: &[char]) -> (r: Option<usize>)
        ensures
            match r {
                Some(i) => i < self.running_tasks@.len() && self.running_tasks@[i as int]@
                    == task_id@,
                None => !self@.contains(task_id@),
            },
    {
        let mut i: usize = 0;
        while i < self.running_tasks.len()
            invariant
                i <= self.running_tasks@.len(),
                forall|k: int| 0 <= k < i ==> self.running_tasks@[k]@ != task_id@,
            decreases self.running_tasks@.len() - i,
        {
            let c = chars_of_string(&self.running_tasks[i]);
            if chars_eq(c.as_slice(), task_id) {
                return Some(i);
            }
            i = i + 1;
        }
        proof {
            let s = string_views(self.running_tasks@);
            if s.to_set().contains(task_id@) {
                assert(s.contains(task_id@));
                let k = choose|k: int| 0 <= k < s.len() && s[k] == task_id@;
                assert(s[k] == self.running_tasks@[k]@);
            }
        }
        None
    }

    /// The current number of running tasks.
    pub fn running_count(&self) -> (r: usize)
        ensures
            r == self@.len(),
            self@.finite(),
    {
        proof {
            self.lemma_view_finite();
        }
        proof {
            use_type_invariant(self);
            string_views(self.running_tasks@).unique_seq_to_set();
        }
        self.running_tasks.len()
    }

    /// Whether a task is currently running.
    pub fn is_running(&self, task_id: &str) -> (r: bool)
        ensures
            r == self@.contains(task_id@),
    {
        let id = chars_of(task_id);
        match self.find(id.as_slice()) {
            Some(i) => {
                assert(string_views(self.running_tasks@)[i as int] == task_id@);
                true
            },
            None => false,
        }
    }

    /// Tries to acquire the slot of a task: fails with `TaskAlreadyRunning`
    /// when the task runs, and otherwise marks it running.
    pub fn acquire_slot(&mut self, task_id: &str) -> (r: Result<SlotGuard, TaskQueueError>)
        ensures
            final(self)@.finite(),
            old(self)@.contains(task_id@) ==> final(self)@ == old(self)@ && (match r {
                Err(TaskQueueError::TaskAlreadyRunning { task_id: t }) => t@ == task_id@,
                _ => false,
            }),
            !old(self)@.contains(task_id@) ==> final(self)@ == old(self)@.insert(task_id@) && (
            match r {
                Ok(g) => g@ == task_id@,
                _ => false,
            }),
    {
        proof {
            use_type_invariant(&*self);
        }
        let id = chars_of(task_id);
        if self.is_running(task_id) {
            return Err(
                TaskQueueError::TaskAlreadyRunning { task_id: string_of(id.as_slice()) },
            );
        }
        let ghost before = string_views(self.running_tasks@);
        let entry = string_of(id.as_slice());
        proof {
            lemma_push_fresh(before, task_id@);
        }
        let mut tasks: Vec<String> = Vec::new();
        std::mem::swap(&mut tasks, &mut self.running_tasks);
        tasks.push(entry);
        assert(string_views(tasks@) == before.push(task_id@));
        self.running_tasks = tasks;
        Ok(SlotGuard { task_id: string_of(id.as_slice()) })
    }

    /// Removes `task_id` from the running tasks; `false` when it was not running.
    fn remove_running(&mut self, task_id: &[char]) -> (r: bool)
        ensures
            r == old(self)@.contains(task_id@),
            final(self)@ == old(self)@.remove(task_id@),
    {
        proof {
            use_type_invariant(&*self);
        }
        match self.find(task_id) {
            Some(i) => {
                let ghost before = string_views(self.running_tasks@);
                proof {
                    lemma_remove_unique(before, i as int);
                    assert(before[i as int] == task_id@);
                    assert(before.to_set().contains(task_id@));
                }
                let mut tasks: Vec<String> = Vec::new();
                std::mem::swap(&mut tasks, &mut self.running_tasks);
                tasks.remove(i);
                assert(string_views(tasks@) == before.remove(i as int));
                self.running_tasks = tasks;
                true
            },
            None => {
                assert(self@.remove(task_id@) =~= self@);
                false
            },
        }
    }

    /// Releases the slot of a task: fails with `TaskNotFound` when the task
    /// is not running.
    pub fn release_slot(&mut self, task_id: &str) -> (r: Result<(), TaskQueueError>)
        ensures
            final(self)@.finite(),
            final(self)@ == old(self)@.remove(task_id@),
            old(self)@.contains(task_id@) ==> r is Ok,
            !old(self)@.contains(task_id@) ==> (match r {
                Err(TaskQueueError::TaskNotFound { task_id: t }) => t@ == task_id@,
                _ => false,
            }),
    {
        let id = chars_of(task_id);
        if self.remove_running(id.as_slice()) {
            Ok(())
        } else {
            Err(TaskQueueError::TaskNotFound { task_id: string_of(id.as_slice()) })
        }
    }

    /// Hands back the guard of an acquired slot, freeing the slot.
    pub fn release(&mut self, guard: SlotGuard)
        ensures
            final(self)@.finite(),
            final(self)@ == old(self)@.remove(guard@),
    {
        let id = chars_of_string(&guard.task_id);
        let _ = self.remove_running(id.as_slice());
    }
}

/// Acquiring a free slot and releasing it leaves the queue as it was.
pub proof fn law_release_undoes_acquire(running: Set<Seq<char>>, task_id: Seq<char>)
    requires
        !running.contains(task_id),
    ensures
        running.insert(task_id).remove(task_id) == running,
{
    assert(running.insert(task_id).remove(task_id) =~= running);
}

/// Once a task's slot is acquired, a second acquisition of it is refused
/// until the slot is released, and other tasks are not affected.
pub proof fn law_one_instance_per_task(
    running: Set<Seq<char>>,
    task_id: Seq<char>,
    other: Seq<char>,
)
    requires
        !running.contains(task_id),
    ensures
        running.insert(task_id).contains(task_id),
        !running.insert(task_id).remove(task_id).contains(task_id),
        other != task_id ==> (running.insert(task_id).contains(other) == running.contains(other)),
{
}

impl Default for TaskQueue {
    /// A task queue with nothing running.
    fn default() -> (q: Self)
        ensures
            q@ == Set::<Seq<char>>::empty(),
            q@.finite(),
    {
        TaskQueue::new()
    }
}

} // verus!
