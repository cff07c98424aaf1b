//! The process groups the scheduler has started and not yet seen finish.
use std::collections::HashSet;
use vstd::std_specs::hash::spec_hash_keys_iter;
use vstd::std_specs::iter::IteratorSpec;
use crate::scheduler::timeout::{send_sigkill, signal_target};
use crate::text::{
    chars_of, contains_chars, has_infix, lines, lines_chars, parse_u32, parse_u32_chars,
    split_whitespace, split_whitespace_chars, views,
};
use vstd::prelude::*;

verus! {

broadcast use vstd::std_specs::hash::group_hash_axioms;

/// The ids of the running child processes.
pub struct PidRegistry {
    pids: HashSet<u32>,
}

impl View for PidRegistry {
    type V = Set<u32>;

    closed spec fn view(&self) -> Set<u32> {
        self.pids@
    }
}

impl PidRegistry {
    /// The set of tracked processes is finite.
    pub proof fn lemma_view_finite(&self)
        ensures
            self@.finite(),
    {
        let s = spec_hash_keys_iter(&self.pids).remaining();
        vstd::seq_lib::seq_to_set_is_finite(s.unref());
    }

    /// An empty registry.
    pub fn new() -> (r: Self)
        ensures
            r@ == Set::<u32>::empty(),
            r@.finite(),
    {
        PidRegistry { pids: HashSet::new() }
    }
}

/// Records a started process.
pub fn register_pid(registry: &mut PidRegistry, pid: u32)
    ensures
        final(registry)@ == old(registry)@.insert(pid),
        final(registry)@.finite(),
{
    registry.pids.insert(pid);
    proof {
        registry.lemma_view_finite();
    }
}

/// Forgets a process.
pub fn unregister_pid(registry: &mut PidRegistry, pid: u32)
    ensures
        final(registry)@ == old(registry)@.remove(pid),
        final(registry)@.finite(),
{
    registry.pids.remove(&pid);
    proof {
        registry.lemma_view_finite();
    }
}

/// The number of registered processes.
pub fn running_count(registry: &PidRegistry) -> (r: usize)
    ensures
        r == registry@.len(),
        registry@.finite(),
{
    proof {
        registry.lemma_view_finite();
    }
    registry.pids.len()
}

/// The tracked pids, each once.
pub fn get_pids(registry: &PidRegistry) -> (r: Vec<u32>)
    ensures
        r@.to_set() == registry@,
        r@.no_duplicates(),
{
    let mut r: Vec<u32> = Vec::new();
    for pid in it: registry.pids.iter()
        invariant
            it.seq() == spec_hash_keys_iter(&registry.pids).remaining(),
            r@ == it.seq().take(it.index() as int).unref(),
    {
        r.push(*pid);
        assert(r@ =~= it.seq().take(it.index() + 1).unref());
    }
    assert(r@ =~= spec_hash_keys_iter(&registry.pids).remaining().unref());
    r
}

/// Empties the registry and returns every process it held, each once; these
/// are the process groups to kill.
pub fn drain_pids(registry: &mut PidRegistry) -> (r: Vec<u32>)
    ensures
        r@.to_set() == old(registry)@,
        r@.no_duplicates(),
        final(registry)@ == Set::<u32>::empty(),
{
    let r = get_pids(registry);
    registry.pids.clear();
    r
}

/// Kills the process group of every tracked process and forgets them all.
/// Failures to deliver the signal are ignored.
pub fn kill_all_processes(registry: &mut PidRegistry)
    requires
        forall|p: u32| old(registry)@.contains(p) ==> p as i32 != i32::MIN,
    ensures
        final(registry)@ == Set::<u32>::empty(),
{
    let pids = drain_pids(registry);
    assert forall|k: int| 0 <= k < pids@.len() implies pids@[k] as i32 != i32::MIN by {
        assert(pids@.contains(pids@[k]));
        assert(pids@.to_set().contains(pids@[k]));
    }
    let mut i: usize = 0;
    while i < pids.len()
        invariant
            i <= pids@.len(),
            forall|k: int| 0 <= k < pids@.len() ==> pids@[k] as i32 != i32::MIN,
        decreases pids@.len() - i,
    {
        let target = signal_target(pids[i], true);
        let _ = send_sigkill(target);
        i = i + 1;
    }
}

/// The pid named by a line of `ps -eo pid,comm` output when the line
/// mentions `opencode`: the line's first whitespace-separated field, read as
/// an unsigned number.
pub open spec fn orphan_candidate(line: Seq<char>) -> Option<u32> {
    if !has_infix(line, "opencode"@) {
        None
    } else {
        let parts = split_whitespace(line);
        if parts.len() == 0 {
            None
        } else {
            parse_u32(parts[0])
        }
    }
}

/// The pids, in order, of the opencode processes listed by a `ps -eo
/// pid,comm` output.
pub open spec fn orphan_candidates_spec(lines: Seq<Seq<char>>) -> Seq<u32>
    decreases lines.len(),
{
    if lines.len() == 0 {
        seq![]
    } else {
        let rest = orphan_candidates_spec(lines.drop_last());
        match orphan_candidate(lines.last()) {
            Some(pid) => rest.push(pid),
            None => rest,
        }
    }
}

/// The pid on one line of `ps` output, if the line names an opencode process.
pub fn orphan_candidate_of(line: &[char]) -> (r: Option<u32>)
    ensures
        r == orphan_candidate(line@),
{
    let needle = chars_of("opencode");
    if !contains_chars(line, needle.as_slice()) {
        return None;
    }
    let parts = split_whitespace_chars(line);
    if parts.len() == 0 {
        None
    } else {
        assert(views(parts@)[0] == parts@[0]@);
        parse_u32_chars(parts[0].as_slice())
    }
}

/// The pids of the opencode processes that a `ps -eo pid,comm` output lists,
/// in the order of its lines; lines that do not name opencode, or whose first
/// field is not a number, are skipped.
pub fn orphan_candidates(ps_output: &str) -> (r: Vec<u32>)
    ensures
        r@ == orphan_candidates_spec(lines(ps_output@)),
{
    let text = chars_of(ps_output);
    let ls = lines_chars(text.as_slice());
    let ghost lv = views(ls@);
    let mut r: Vec<u32> = Vec::new();
    let mut i: usize = 0;
    while i < ls.len()
        invariant
            i <= ls@.len(),
            lv == views(ls@),
            r@ == orphan_candidates_spec(lv.subrange(0, i as int)),
        decreases ls@.len() - i,
    {
        let ghost pre = lv.subrange(0, i + 1);
        assert(pre.drop_last() == lv.subrange(0, i as int));
        assert(pre.last() == ls@[i as int]@);
        match orphan_candidate_of(ls[i].as_slice()) {
            Some(pid) => r.push(pid),
            None => {},
        }
        i = i + 1;
    }
    assert(lv.subrange(0, ls@.len() as int) == lv);
    r
}

/// Whether the working directory reported for a process (`pwdx` output) lies
/// in the application's data directory: the directory's path occurs in it.
pub fn in_work_dir(pwdx_output: &str, workdir: &str) -> (r: bool)
    ensures
        r == has_infix(pwdx_output@, workdir@),
{
    let a = chars_of(pwdx_output);
    let b = chars_of(workdir);
    contains_chars(a.as_slice(), b.as_slice())
}

} // verus!
