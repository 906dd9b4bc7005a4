//! How many threads a call is to use.

use vstd::prelude::*;

verus! {

/// The number of threads that `thread_limit` stands for on a machine with `logical_cores`
/// processors: no limit and a limit of zero both mean all of them, any other limit is the
/// number itself.
pub open spec fn resolved_thread_count(thread_limit: Option<usize>, logical_cores: usize) -> usize {
    match thread_limit {
        Some(limit) => if limit == 0 {
            logical_cores
        } else {
            limit
        },
        None => logical_cores,
    }
}

/// `num_cpus::get`: the number of logical processors that this process may use. The count
/// depends on the machine, its scheduler and its control groups, so nothing but what the
/// function's documentation promises of every call is claimed: it is at least one.
#[verifier::external_body]
fn logical_cores() -> (cores: usize)
    ensures
        cores >= 1,
{
    num_cpus::get()
}

/// The number of threads to use under `thread_limit` where `logical_cores` processors are at
/// hand.
pub fn resolve_thread_count(thread_limit: Option<usize>, logical_cores: usize) -> (threads: usize)
    ensures
        threads == resolved_thread_count(thread_limit, logical_cores),
{
    match thread_limit {
        Some(limit) => if limit == 0 {
            logical_cores
        } else {
            limit
        },
        None => logical_cores,
    }
}

/// The number of threads to use under `thread_limit` on this machine. A limit above zero is
/// the answer whatever the machine; otherwise it is the machine's processor count, of which
/// only this is known: it is at least one.
pub fn num_threads(thread_limit: Option<usize>) -> (threads: usize)
    ensures
        threads >= 1,
        exists|cores: usize| cores >= 1 && threads == resolved_thread_count(thread_limit, cores),
        thread_limit matches Some(limit) ==> (limit > 0 ==> threads == limit),
{
    let cores: usize = logical_cores();
    resolve_thread_count(thread_limit, cores)
}

/// No limit and a limit of zero resolve alike, to the processor count; a limit above zero
/// resolves to itself.
pub proof fn lemma_thread_limit_resolution(limit: usize, logical_cores: usize)
    ensures
        resolved_thread_count(None, logical_cores) == logical_cores,
        resolved_thread_count(Some(0usize), logical_cores) == logical_cores,
        limit > 0 ==> resolved_thread_count(Some(limit), logical_cores) == limit,
{
}

/// A resolved thread count is zero only where the processor count that it was resolved
/// against is.
pub proof fn lemma_resolved_thread_count_positive(thread_limit: Option<usize>, logical_cores: usize)
    requires
        logical_cores >= 1,
    ensures
        resolved_thread_count(thread_limit, logical_cores) >= 1,
{
}

} // verus!
