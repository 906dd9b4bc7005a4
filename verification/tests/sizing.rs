use git_features::parallel::chunking::optimize_for_threads;
use git_features::parallel::serial;
use git_features::parallel::threads::resolve_thread_count;
use git_features::parallel::{num_threads, optimize_chunk_size_and_thread_limit};

#[test]
fn no_limit_and_a_limit_of_zero_mean_all_processors() {
    assert_eq!(num_threads(None), num_cpus::get());
    assert_eq!(num_threads(Some(0)), num_threads(None));
    assert!(num_threads(None) >= 1);
}

#[test]
fn a_limit_above_zero_is_the_thread_count() {
    assert_eq!(num_threads(Some(5)), 5);
    assert_eq!(num_threads(Some(1)), 1);
    assert_eq!(num_threads(Some(usize::MAX)), usize::MAX);
}

#[test]
fn resolving_against_a_given_processor_count() {
    assert_eq!(resolve_thread_count(None, 8), 8);
    assert_eq!(resolve_thread_count(Some(0), 8), 8);
    assert_eq!(resolve_thread_count(Some(3), 8), 3);
    assert_eq!(resolve_thread_count(Some(12), 8), 12);
    assert_eq!(resolve_thread_count(None, 0), 0);
}

#[test]
fn few_items_get_small_chunks_and_few_threads() {
    let (chunk_size, thread_limit, threads) =
        optimize_chunk_size_and_thread_limit(100, Some(10), None, Some(4));
    assert!(chunk_size >= 1 && chunk_size <= 1000);
    assert!(threads <= 4);
    // 10 / (4 * 2) = 1 item a chunk, 10 chunks, more than 4 threads can take at once.
    assert_eq!((chunk_size, thread_limit, threads), (1, Some(4), 4));
}

#[test]
fn fewer_chunks_than_threads_halve_the_threads() {
    // 6 / (8 * 2) = 0, raised to 1; 6 chunks on 8 threads leave 3 threads.
    assert_eq!(optimize_chunk_size_and_thread_limit(7, Some(6), None, Some(8)), (1, Some(3), 3));
    // one chunk only: a single thread.
    assert_eq!(optimize_chunk_size_and_thread_limit(7, Some(1), None, Some(8)), (1, Some(1), 1));
    // no item at all: no chunk, and still one thread.
    assert_eq!(optimize_chunk_size_and_thread_limit(7, Some(0), None, Some(8)), (1, Some(1), 1));
}

#[test]
fn many_items_are_cut_to_the_upper_bound() {
    // 1_000_000 / (4 * 2) = 125_000, cut to 1000; 1000 chunks on 4 threads.
    assert_eq!(
        optimize_chunk_size_and_thread_limit(1, Some(1_000_000), None, Some(4)),
        (1000, Some(4), 4)
    );
    // 4000 / (2 * 2) = 1000 exactly; 4 chunks on 2 threads.
    assert_eq!(
        optimize_chunk_size_and_thread_limit(1, Some(4000), None, Some(2)),
        (1000, Some(2), 2)
    );
    // 800 / (4 * 2) = 100; 8 chunks on 4 threads.
    assert_eq!(
        optimize_chunk_size_and_thread_limit(1, Some(800), None, Some(4)),
        (100, Some(4), 4)
    );
    // 400 / (100 * 2) = 2; 200 chunks on 100 threads.
    assert_eq!(
        optimize_chunk_size_and_thread_limit(1, Some(400), None, Some(100)),
        (2, Some(100), 100)
    );
}

#[test]
fn a_thread_limit_above_zero_overrides_the_available_threads() {
    assert_eq!(
        optimize_chunk_size_and_thread_limit(1, Some(800), Some(2), Some(4)),
        (200, Some(2), 2)
    );
    assert_eq!(
        optimize_chunk_size_and_thread_limit(1, Some(800), Some(0), Some(4)),
        (100, Some(4), 4)
    );
    assert_eq!(
        optimize_chunk_size_and_thread_limit(1, Some(800), Some(2), Some(0)),
        (200, Some(2), 2)
    );
    assert_eq!(
        optimize_chunk_size_and_thread_limit(1, Some(800), Some(2), None),
        (200, Some(2), 2)
    );
}

#[test]
fn a_single_thread_keeps_the_desired_chunk_size() {
    assert_eq!(optimize_chunk_size_and_thread_limit(42, None, None, Some(1)), (42, Some(1), 1));
    assert_eq!(optimize_chunk_size_and_thread_limit(0, None, None, Some(1)), (0, Some(1), 1));
    assert_eq!(
        optimize_chunk_size_and_thread_limit(5000, None, Some(1), Some(8)),
        (5000, Some(1), 1)
    );
}

#[test]
fn several_threads_keep_the_chunk_size_within_bounds() {
    assert_eq!(optimize_chunk_size_and_thread_limit(10, None, None, Some(8)), (50, Some(8), 8));
    assert_eq!(optimize_chunk_size_and_thread_limit(49, None, None, Some(8)), (50, Some(8), 8));
    assert_eq!(optimize_chunk_size_and_thread_limit(50, None, None, Some(8)), (50, Some(8), 8));
    assert_eq!(optimize_chunk_size_and_thread_limit(500, None, None, Some(8)), (500, Some(8), 8));
    assert_eq!(optimize_chunk_size_and_thread_limit(1000, None, None, Some(8)), (1000, Some(8), 8));
    assert_eq!(optimize_chunk_size_and_thread_limit(1001, None, None, Some(8)), (1000, Some(8), 8));
    // no thread at all is not one thread: the bounds hold.
    assert_eq!(optimize_chunk_size_and_thread_limit(10, None, None, Some(0)), (50, Some(0), 0));
}

#[test]
fn the_processor_count_stands_in_for_missing_available_threads() {
    let cores = num_cpus::get();
    assert_eq!(
        optimize_chunk_size_and_thread_limit(100, None, None, None),
        optimize_chunk_size_and_thread_limit(100, None, None, Some(cores))
    );
    assert_eq!(
        optimize_chunk_size_and_thread_limit(100, Some(12345), Some(0), None),
        optimize_chunk_size_and_thread_limit(100, Some(12345), None, Some(cores))
    );
}

#[test]
fn thread_counts_that_do_not_fit_twice_are_no_trouble() {
    // twice `usize::MAX` threads do not fit a `usize`; an item count divided by them is zero.
    assert_eq!(
        optimize_for_threads(7, Some(usize::MAX), usize::MAX),
        (1, Some(usize::MAX / 2), usize::MAX / 2)
    );
    assert_eq!(optimize_for_threads(7, Some(10), usize::MAX), (1, Some(5), 5));
}

#[test]
fn a_single_thread_is_all_there_is_without_threads() {
    assert_eq!(serial::num_threads(None), 1);
    assert_eq!(serial::num_threads(Some(0)), 1);
    assert_eq!(serial::num_threads(Some(5)), 1);
}

#[test]
fn nothing_is_optimized_without_threads() {
    assert_eq!(
        serial::optimize_chunk_size_and_thread_limit(100, Some(10), None, Some(4)),
        (100, None, 1)
    );
    assert_eq!(
        serial::optimize_chunk_size_and_thread_limit(0, None, Some(7), None),
        (0, Some(7), 1)
    );
}
