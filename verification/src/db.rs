//! Preparing the database: the statements of the schema script, and the
//! migrations an existing database needs.
use crate::text::{chars_of, split_char, split_char_chars, string_of, trim, trim_chars, views};
use vstd::prelude::*;

verus! {

/// The statements of a schema script: its `;`-separated parts, trimmed,
/// without the empty ones, in order.
pub open spec fn statements_of(parts: Seq<Seq<char>>) -> Seq<Seq<char>>
    decreases parts.len(),
{
    if parts.len() == 0 {
        seq![]
    } else {
        let rest = statements_of(parts.drop_last());
        let t = trim(parts.last());
        if t.len() == 0 {
            rest
        } else {
            rest.push(t)
        }
    }
}

/// The statements of a schema script, to be executed in order.
pub fn schema_statements(schema: &str) -> (r: Vec<String>)
    ensures
        r@.map_values(|s: String| s@) == statements_of(split_char(schema@, ';')),
{
    let text = chars_of(schema);
    let parts = split_char_chars(text.as_slice(), ';');
    let ghost pv = views(parts@);
    let mut r: Vec<String> = Vec::new();
    let mut i: usize = 0;
    while i < parts.len()
        invariant
            i <= parts@.len(),
            pv == views(parts@),
            r@.map_values(|s: String| s@) == statements_of(pv.subrange(0, i as int)),
        decreases parts@.len() - i,
    {
        let ghost pre = pv.subrange(0, i + 1);
        assert(pre.drop_last() == pv.subrange(0, i as int));
        assert(pre.last() == parts@[i as int]@);
        let t = trim_chars(parts[i].as_slice());
        if t.len() > 0 {
            let ghost before = r@;
            r.push(string_of(t.as_slice()));
            assert(r@.map_values(|s: String| s@) == before.map_values(|s: String| s@).push(t@));
        }
        i = i + 1;
    }
    assert(pv.subrange(0, parts@.len() as int) == pv);
    r
}

/// The statement that drops the column older databases carry.
pub open spec fn drop_legacy_column_sql() -> Seq<char> {
    "ALTER TABLE tasks DROP COLUMN skip_if_running"@
}

/// The statement that adds the one-time run column.
pub open spec fn add_once_at_column_sql() -> Seq<char> {
    "ALTER TABLE tasks ADD COLUMN once_at TEXT"@
}

/// The migrations a database needs, in order: drop the legacy column if it
/// is there, then add the one-time run column if it is missing.
pub fn migration_statements(has_legacy_column: bool, has_once_at_column: bool) -> (r: Vec<String>)
    ensures
        r@.map_values(|s: String| s@) == (if has_legacy_column {
            seq![drop_legacy_column_sql()]
        } else {
            seq![]
        }) + (if has_once_at_column {
            seq![]
        } else {
            seq![add_once_at_column_sql()]
        }),
{
    let mut r: Vec<String> = Vec::new();
    if has_legacy_column {
        r.push(string_of(chars_of("ALTER TABLE tasks DROP COLUMN skip_if_running").as_slice()));
    }
    if !has_once_at_column {
        r.push(string_of(chars_of("ALTER TABLE tasks ADD COLUMN once_at TEXT").as_slice()));
    }
    assert(r@.map_values(|s: String| s@) =~= (if has_legacy_column {
        seq![drop_legacy_column_sql()]
    } else {
        seq![]
    }) + (if has_once_at_column {
        seq![]
    } else {
        seq![add_once_at_column_sql()]
    }));
    r
}

} // verus!
