//! How large a chunk of work to hand to a thread at a time, and how many threads are worth
//! starting for the work at hand.

use super::threads::{num_threads, resolve_thread_count, resolved_thread_count};
use vstd::arithmetic::div_mod::lemma_div_denominator;
use vstd::prelude::*;

verus! {

/// The chunk size below which handing out a chunk costs more than it saves, where the number
/// of items is unknown and more than one thread is at work.
pub const CHUNK_SIZE_LOWER_BOUND: usize = 50;

/// The chunk size that is never exceeded but on a single thread with an unknown number of
/// items.
pub const CHUNK_SIZE_UPPER_BOUND: usize = 1000;

/// `value`, raised to `lower` or cut to `upper` where it lies outside them.
pub open spec fn clamped(value: int, lower: int, upper: int) -> int {
    if value < lower {
        lower
    } else if value > upper {
        upper
    } else {
        value
    }
}

/// The chunk size for `num_items` items on `threads` threads: each thread gets two chunks,
/// of one item at least and `CHUNK_SIZE_UPPER_BOUND` at most.
pub open spec fn chunk_size_for_items(num_items: usize, threads: usize) -> int {
    clamped(num_items as int / (threads as int * 2), 1, CHUNK_SIZE_UPPER_BOUND as int)
}

/// The thread count for `num_items` items where `threads` are at hand: all of them while
/// there are more chunks than threads, else half as many as there are chunks, and one at
/// least.
pub open spec fn thread_count_for_items(num_items: usize, threads: usize) -> int {
    let num_chunks = num_items as int / chunk_size_for_items(num_items, threads);
    if num_chunks <= threads {
        let half = num_chunks / 2;
        if half < 1 {
            1
        } else {
            half
        }
    } else {
        threads as int
    }
}

/// The chunk size where the number of items is unknown: a single thread takes the desired
/// size as it is, several threads take it within the two bounds.
pub open spec fn chunk_size_for_stream(desired_chunk_size: usize, threads: usize) -> int {
    if threads == 1 {
        desired_chunk_size as int
    } else {
        clamped(
            desired_chunk_size as int,
            CHUNK_SIZE_LOWER_BOUND as int,
            CHUNK_SIZE_UPPER_BOUND as int,
        )
    }
}

/// The chunk size to work with on `threads` threads.
pub open spec fn optimal_chunk_size(
    desired_chunk_size: usize,
    num_items: Option<usize>,
    threads: usize,
) -> int {
    match num_items {
        Some(items) => chunk_size_for_items(items, threads),
        None => chunk_size_for_stream(desired_chunk_size, threads),
    }
}

/// The number of threads to start where `threads` are at hand.
pub open spec fn optimal_thread_count(num_items: Option<usize>, threads: usize) -> int {
    match num_items {
        Some(items) => thread_count_for_items(items, threads),
        None => threads as int,
    }
}

/// Whether `outcome` is the chunk size, the thread limit and the thread count to work with
/// on `threads` threads.
pub open spec fn is_optimal(
    desired_chunk_size: usize,
    num_items: Option<usize>,
    threads: usize,
    outcome: (usize, Option<usize>, usize),
) -> bool {
    &&& outcome.0 == optimal_chunk_size(desired_chunk_size, num_items, threads)
    &&& outcome.1 == Some(outcome.2)
    &&& outcome.2 == optimal_thread_count(num_items, threads)
}

/// The chunk size, thread limit and thread count for work of `num_items` items, if that is
/// known, where `threads` threads are at hand and the caller would like chunks of
/// `desired_chunk_size`.
pub fn optimize_for_threads(
    desired_chunk_size: usize,
    num_items: Option<usize>,
    threads: usize,
) -> (outcome: (usize, Option<usize>, usize))
    requires
        num_items is Some ==> threads > 0,
    ensures
        is_optimal(desired_chunk_size, num_items, threads, outcome),
{
    match num_items {
        Some(items) => {
            // twice the threads may not fit; dividing twice gives the same.
            let per_chunk: usize = items / threads / 2;
            proof {
                lemma_div_denominator(items as int, threads as int, 2);
            }
            let chunk_size: usize = if per_chunk < 1 {
                1
            } else if per_chunk > CHUNK_SIZE_UPPER_BOUND {
                CHUNK_SIZE_UPPER_BOUND
            } else {
                per_chunk
            };
            let num_chunks: usize = items / chunk_size;
            let thread_limit: usize = if num_chunks <= threads {
                let half: usize = num_chunks / 2;
                if half < 1 {
                    1
                } else {
                    half
                }
            } else {
                threads
            };
            (chunk_size, Some(thread_limit), thread_limit)
        },
        None => {
            let chunk_size: usize = if threads == 1 {
                desired_chunk_size
            } else if desired_chunk_size < CHUNK_SIZE_LOWER_BOUND {
                CHUNK_SIZE_LOWER_BOUND
            } else if desired_chunk_size > CHUNK_SIZE_UPPER_BOUND {
                CHUNK_SIZE_UPPER_BOUND
            } else {
                desired_chunk_size
            };
            (chunk_size, Some(threads), threads)
        },
    }
}

/// The chunk size, thread limit and thread count to work with. `available_threads` stands in
/// for the machine's processor count where it is given; `thread_limit` overrides either
/// where it is above zero. With a known number of items there has to be a thread to divide
/// them among: `available_threads` of zero then needs a `thread_limit` above zero.
pub fn optimize_chunk_size_and_thread_limit(
    desired_chunk_size: usize,
    num_items: Option<usize>,
    thread_limit: Option<usize>,
    available_threads: Option<usize>,
) -> (outcome: (usize, Option<usize>, usize))
    requires
        num_items is Some && available_threads == Some(0usize) ==> resolved_thread_count(
            thread_limit,
            0,
        ) > 0,
    ensures
        available_threads matches Some(available) ==> is_optimal(
            desired_chunk_size,
            num_items,
            resolved_thread_count(thread_limit, available),
            outcome,
        ),
        available_threads is None ==> exists|cores: usize|
            cores >= 1 && is_optimal(
                desired_chunk_size,
                num_items,
                resolved_thread_count(thread_limit, cores),
                outcome,
            ),
{
    let threads: usize = match available_threads {
        Some(available) => resolve_thread_count(thread_limit, available),
        None => num_threads(thread_limit),
    };
    optimize_for_threads(desired_chunk_size, num_items, threads)
}

/// With a known number of items the chunk size lies between one and
/// `CHUNK_SIZE_UPPER_BOUND`, and the thread count between one and the threads at hand.
pub proof fn lemma_optimum_for_items_is_bounded(
    desired_chunk_size: usize,
    num_items: usize,
    threads: usize,
)
    requires
        threads > 0,
    ensures
        1 <= optimal_chunk_size(desired_chunk_size, Some(num_items), threads)
            <= CHUNK_SIZE_UPPER_BOUND,
        1 <= optimal_thread_count(Some(num_items), threads) <= threads,
{
}

/// With an unknown number of items a single thread works with the desired chunk size
/// unchanged, several threads with one between the two bounds, which is the desired one
/// where that lies between them; the thread count is that of the threads at hand.
pub proof fn lemma_optimum_for_stream(desired_chunk_size: usize, threads: usize)
    ensures
        threads == 1 ==> optimal_chunk_size(desired_chunk_size, None, threads)
            == desired_chunk_size,
        threads != 1 ==> CHUNK_SIZE_LOWER_BOUND <= optimal_chunk_size(
            desired_chunk_size,
            None,
            threads,
        ) <= CHUNK_SIZE_UPPER_BOUND,
        threads != 1 && CHUNK_SIZE_LOWER_BOUND <= desired_chunk_size <= CHUNK_SIZE_UPPER_BOUND
            ==> optimal_chunk_size(desired_chunk_size, None, threads) == desired_chunk_size,
        optimal_thread_count(None, threads) == threads,
{
}

} // verus!
