//! Map-reduce over the items of an iterator: the whole of it on the thread of its caller,
//! and of the one on several threads what is computed rather than handed from thread to
//! thread.

pub mod chunking;
pub mod eager_iter;
pub mod in_parallel;
pub mod queues;
pub mod reducer;
pub mod serial;
pub mod threads;

pub use chunking::optimize_chunk_size_and_thread_limit;
pub use eager_iter::EagerIter;
pub use reducer::Reducer;
pub use threads::num_threads;
