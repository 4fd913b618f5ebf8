//! Which migrations an existing statistics database needs, decided from
//! the columns its tables already have.

use vstd::prelude::*;

use crate::db::string_views;
use crate::text::text_eq;

verus! {

/// Whether a table with columns `cols` has the column `name`.
pub open spec fn has_column_spec(cols: Seq<Seq<char>>, name: Seq<char>) -> bool {
    exists|i: int| 0 <= i < cols.len() && cols[i] == name
}

/// Whether one of `cols` is `name`.
pub fn has_column(cols: &Vec<String>, name: &str) -> (found: bool)
    ensures
        found == has_column_spec(string_views(cols@), name@),
{
    let n = cols.len();
    let mut i: usize = 0;
    while i < n
        invariant
            n == cols@.len(),
            i <= n,
            forall|j: int| 0 <= j < i ==> cols@[j]@ != name@,
        decreases n - i,
    {
        if text_eq(cols[i].as_str(), name) {
            assert(string_views(cols@)[i as int] == name@);
            return true;
        }
        i += 1;
    }
    assert forall|j: int| 0 <= j < string_views(cols@).len() implies string_views(cols@)[j] != name@ by {
        assert(string_views(cols@)[j] == cols@[j]@);
    }
    false
}

/// The statement that adds `source_chars` to the request log.
pub open spec fn add_source_chars() -> Seq<char> {
    "ALTER TABLE translation_logs ADD COLUMN source_chars INTEGER NOT NULL DEFAULT chars"@
}

/// The statement that adds `target_chars` to the request log.
pub open spec fn add_target_chars() -> Seq<char> {
    "ALTER TABLE translation_logs ADD COLUMN target_chars INTEGER NOT NULL DEFAULT 0"@
}

/// The statement that adds `endpoint_name` to the request log.
pub open spec fn add_endpoint_name() -> Seq<char> {
    "ALTER TABLE translation_logs ADD COLUMN endpoint_name TEXT NOT NULL DEFAULT ''"@
}

/// The statement that adds `latency_ms` to the request log.
pub open spec fn add_latency_ms() -> Seq<char> {
    "ALTER TABLE translation_logs ADD COLUMN latency_ms INTEGER"@
}

/// A statement when `missing`, else nothing.
pub open spec fn when_missing(missing: bool, stmt: Seq<char>) -> Seq<Seq<char>> {
    if missing {
        seq![stmt]
    } else {
        Seq::empty()
    }
}

/// The statements that bring the request log's columns up to date, in
/// order: one for each of `source_chars`, `target_chars`, `endpoint_name`
/// and `latency_ms` that `cols` lacks.
pub open spec fn log_migrations(cols: Seq<Seq<char>>) -> Seq<Seq<char>> {
    when_missing(!has_column_spec(cols, "source_chars"@), add_source_chars()) + when_missing(
        !has_column_spec(cols, "target_chars"@),
        add_target_chars(),
    ) + when_missing(!has_column_spec(cols, "endpoint_name"@), add_endpoint_name()) + when_missing(
        !has_column_spec(cols, "latency_ms"@),
        add_latency_ms(),
    )
}

/// The statements that add the request log's missing columns.
pub fn log_column_migrations(cols: &Vec<String>) -> (stmts: Vec<String>)
    ensures
        string_views(stmts@) == log_migrations(string_views(cols@)),
{
    let ghost c = string_views(cols@);
    let mut stmts: Vec<String> = Vec::new();
    if !has_column(cols, "source_chars") {
        stmts.push(String::from_str("ALTER TABLE translation_logs ADD COLUMN source_chars INTEGER NOT NULL DEFAULT chars"));
    }
    assert(string_views(stmts@) =~= when_missing(!has_column_spec(c, "source_chars"@), add_source_chars()));
    let ghost s1 = string_views(stmts@);
    if !has_column(cols, "target_chars") {
        stmts.push(String::from_str("ALTER TABLE translation_logs ADD COLUMN target_chars INTEGER NOT NULL DEFAULT 0"));
    }
    assert(string_views(stmts@) =~= s1 + when_missing(!has_column_spec(c, "target_chars"@), add_target_chars()));
    let ghost s2 = string_views(stmts@);
    if !has_column(cols, "endpoint_name") {
        stmts.push(String::from_str("ALTER TABLE translation_logs ADD COLUMN endpoint_name TEXT NOT NULL DEFAULT ''"));
    }
    assert(string_views(stmts@) =~= s2 + when_missing(!has_column_spec(c, "endpoint_name"@), add_endpoint_name()));
    let ghost s3 = string_views(stmts@);
    if !has_column(cols, "latency_ms") {
        stmts.push(String::from_str("ALTER TABLE translation_logs ADD COLUMN latency_ms INTEGER"));
    }
    assert(string_views(stmts@) =~= s3 + when_missing(!has_column_spec(c, "latency_ms"@), add_latency_ms()));
    stmts
}

/// The statistics anchor predates per-endpoint rows (it has no
/// `endpoint_name` column) and must be rebuilt.
pub fn anchor_needs_rebuild(cols: &Vec<String>) -> (rebuild: bool)
    ensures
        rebuild == !has_column_spec(string_views(cols@), "endpoint_name"@),
{
    !has_column(cols, "endpoint_name")
}

/// The statistics anchor lacks the success and latency totals (no
/// `total_successes` column), which are then added and seeded from the log.
pub fn anchor_needs_success_totals(cols: &Vec<String>) -> (add: bool)
    ensures
        add == !has_column_spec(string_views(cols@), "total_successes"@),
{
    !has_column(cols, "total_successes")
}

/// The running totals are seeded from the existing log when they are still
/// zero while the log holds rows.
pub fn anchor_needs_seeding(anchor_requests: i64, log_count: i64) -> (seed: bool)
    ensures
        seed == (anchor_requests == 0 && log_count > 0),
{
    anchor_requests == 0 && log_count > 0
}

/// The hourly aggregates are rebuilt from the log when they are empty
/// while the log holds rows (a database from before the aggregates).
pub fn aggregates_need_backfill(aggregate_rows: i64, log_rows: i64) -> (backfill: bool)
    ensures
        backfill == (aggregate_rows == 0 && log_rows > 0),
{
    aggregate_rows == 0 && log_rows > 0
}

} // verus!
