//! Where the output of executions is kept: one file per execution in the
//! output directory.
use crate::models::execution::Execution;
use crate::text::{chars_of, extend_chars, string_of};
use vstd::prelude::*;

verus! {

/// The name of the output file stored for `execution_id`: the id with the
/// `.txt` extension.
pub fn stored_file_name(execution_id: &str) -> (r: String)
    ensures
        r@ == execution_id@ + ".txt"@,
{
    let mut v = chars_of(execution_id);
    extend_chars(&mut v, chars_of(".txt").as_slice());
    string_of(v.as_slice())
}

/// The tasks of the running executions, in the order of the executions.
pub fn running_task_ids(executions: Vec<Execution>) -> (r: Vec<String>)
    ensures
        r@ == executions@.map_values(|e: Execution| e.task_id),
{
    let mut r: Vec<String> = Vec::new();
    let mut i: usize = 0;
    while i < executions.len()
        invariant
            i <= executions@.len(),
            r@ == executions@.subrange(0, i as int).map_values(|e: Execution| e.task_id),
        decreases executions@.len() - i,
    {
        r.push(executions[i].task_id.clone());
        assert(executions@.subrange(0, i + 1) == executions@.subrange(0, i as int).push(
            executions@[i as int],
        ));
        i = i + 1;
    }
    assert(executions@.subrange(0, executions@.len() as int) == executions@);
    r
}

} // verus!
