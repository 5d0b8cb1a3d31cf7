//! What is sent to the upstream stats service and what it answers.

use vstd::prelude::*;
use crate::name::USER_PREFIX;

verus! {

/// One counter as the upstream service reports it: a flat name and the
/// absolute value of the counter at the time of the query.
#[derive(Debug, PartialEq, Eq)]
pub struct Stat {
    pub name: String,
    pub value: i64,
}

impl Clone for Stat {
    fn clone(&self) -> (copy: Self)
        ensures
            copy.name@ == self.name@,
            copy.value == self.value,
    {
        Stat { name: self.name.clone(), value: self.value }
    }
}

/// A query for the counters whose names hold `pattern`.
#[derive(Debug, PartialEq, Eq)]
pub struct QueryStatsRequest {
    pub pattern: String,
    /// Whether the upstream service sets the counters it reports back to zero.
    pub reset: bool,
}

/// The query of every sync cycle: all per-user counters, which are left to
/// accumulate upstream.
pub fn stats_query() -> (request: QueryStatsRequest)
    ensures
        request.pattern@ == USER_PREFIX@,
        !request.reset,
{
    QueryStatsRequest { pattern: USER_PREFIX.to_owned(), reset: false }
}

} // verus!
