//! A map-reduce over the items of an iterator and what sizes it, and an iterator that is
//! filled ahead of its reader: everything of them that is computed. What moves items from
//! thread to thread stands around this library, not in it.

pub mod parallel;
