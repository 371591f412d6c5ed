//! The build history: its records, and the decisions about the table that
//! stores them.
use vstd::prelude::*;
use crate::text::str_eq;

verus! {

/// One triggered build.
#[derive(Debug, Clone)]
pub struct BuildRecord {
    pub id: i64,
    pub run_id: i64,
    pub repo_name: String,
    pub workflow_id: String,
    pub status: String,
    pub created_at: String,
    pub artifact_url: Option<String>,
    pub trigger_type: String,
    pub platform: String,
}

/// Whether a table with these column names still lacks the `run_id`
/// column, which tables made by earlier versions do not have.
pub fn needs_run_id_column(columns: &Vec<String>) -> (r: bool)
    ensures
        r == !(exists|i: int| 0 <= i < columns@.len() && #[trigger] columns@[i]@ == "run_id"@),
{
    let mut i: usize = 0;
    while i < columns.len()
        invariant
            i <= columns@.len(),
            forall|j: int| 0 <= j < i ==> #[trigger] columns@[j]@ != "run_id"@,
        decreases columns@.len() - i,
    {
        if str_eq(columns[i].as_str(), "run_id") {
            return false;
        }
        i = i + 1;
    }
    true
}

/// The row limit handed to the database: the count reinterpreted as a
/// signed 64-bit number, as a cast does.
pub fn limit_param(limit: usize) -> (r: i64)
    ensures
        r == limit as i64,
{
    limit as i64
}

/// The label of a repository in the history: `owner/name`.
pub open spec fn repo_label_spec(owner: Seq<char>, name: Seq<char>) -> Seq<char> {
    owner + "/"@ + name
}

/// Builds the history label of a repository.
pub fn repo_label(owner: &str, name: &str) -> (r: String)
    ensures
        r@ == repo_label_spec(owner@, name@),
{
    let mut s = owner.to_string();
    s.append("/");
    s.append(name);
    s
}

/// How many records a history query returns when no limit is given.
pub fn history_limit(limit: Option<usize>) -> (r: usize)
    ensures
        r == match limit {
            Some(n) => n,
            None => 50,
        },
{
    match limit {
        Some(n) => n,
        None => 50,
    }
}

} // verus!
