//! An iterator whose items are taken from their source ahead of time, a chunk at a time, by
//! a producer that is meant to run on a thread of its own.

use super::queues::{receive, send, sync_queue};
use std::sync::mpsc::{Receiver, SyncSender};
use std::vec::IntoIter;
use vstd::prelude::*;
use vstd::std_specs::iter::IteratorSpec;
use vstd::std_specs::vec::axiom_spec_into_iter;

verus! {

/// Whether `chunk` is what is taken from a source that has `items` to yield, into a chunk
/// that has room for `chunk_size` of them, and `left` is what the source has to yield then:
/// the chunk holds the first items, as many as it has room for or as there are, and there
/// is no chunk where there is no item.
pub open spec fn chunked<T>(
    items: Seq<T>,
    chunk_size: usize,
    chunk: Option<Seq<T>>,
    left: Seq<T>,
) -> bool {
    if items.len() == 0 {
        chunk is None && left.len() == 0
    } else if items.len() <= chunk_size {
        chunk == Some(items) && left.len() == 0
    } else {
        chunk == Some(items.take(chunk_size as int)) && left == items.skip(chunk_size as int)
    }
}

/// A chunk and what is left after it are, one after the other, the items that were there,
/// and the chunk is neither empty nor longer than it has room for; without a chunk there
/// was no item.
pub proof fn lemma_chunk_and_rest_are_the_items<T>(
    items: Seq<T>,
    chunk_size: usize,
    chunk: Option<Seq<T>>,
    left: Seq<T>,
)
    requires
        chunk_size > 0,
        chunked(items, chunk_size, chunk, left),
    ensures
        match chunk {
            Some(chunk) => 0 < chunk.len() <= chunk_size && chunk + left == items,
            None => items.len() == 0 && left.len() == 0,
        },
        left.len() > 0 ==> chunk is Some && chunk->0.len() == chunk_size,
{
    match chunk {
        Some(chunk) => {
            assert(chunk + left =~= items);
        },
        None => {},
    }
}

/// The items of `chunk` where there is one.
pub open spec fn items_of<T>(chunk: Option<Vec<T>>) -> Option<Seq<T>> {
    match chunk {
        Some(chunk) => Some(chunk@),
        None => None,
    }
}

/// `item` and `buffered` are what unpacking `received` gives: the first item of the chunk
/// and the rest of it, or nothing at all where no chunk came or an empty one.
pub open spec fn unpacked<T>(received: Option<Seq<T>>, item: Option<T>, buffered: Seq<T>) -> bool {
    match received {
        Some(chunk) => if chunk.len() > 0 {
            item == Some(chunk[0]) && buffered == chunk.drop_first()
        } else {
            item is None && buffered.len() == 0
        },
        None => item is None && buffered.len() == 0,
    }
}

/// The half of an eager iterator that takes the items from their source, a chunk at a time,
/// and sends each chunk off.
pub struct ChunkProducer<I: Iterator> {
    iter: I,
    /// Whether the source has said that it has ended.
    ended: bool,
    chunk_size: usize,
    sender: SyncSender<Vec<I::Item>>,
}

impl<I: Iterator> ChunkProducer<I> {
    /// The source, as far as it has not been taken from.
    pub closed spec fn source(&self) -> I {
        self.iter
    }

    /// Whether the source has said that it has ended.
    pub closed spec fn ended(&self) -> bool {
        self.ended
    }

    /// The number of items in a full chunk.
    pub closed spec fn chunk_size(&self) -> usize {
        self.chunk_size
    }

    /// A chunk has room for an item, and the source obeys the laws of iterators.
    pub open spec fn wf(&self) -> bool {
        &&& self.chunk_size() > 0
        &&& self.source().obeys_prophetic_iter_laws()
    }

    /// Whether the source is known to end at some time.
    pub open spec fn ends(&self) -> bool {
        self.source().decrease() is Some
    }

    /// A bound on the number of chunks that are still to come from a source that ends.
    pub closed spec fn chunks_to_come(&self) -> nat {
        if self.ended {
            0
        } else {
            self.iter.decrease()->0 + 1
        }
    }

    /// Takes the next chunk from the source: as many items as a chunk has room for, or as
    /// are left. `None` where the source has ended. A source that has said that it has ended
    /// is not asked again.
    pub fn next_chunk(&mut self) -> (chunk: Option<Vec<I::Item>>)
        requires
            old(self).wf(),
            old(self).ended() ==> old(self).source().remaining().len() == 0,
        ensures
            final(self).wf(),
            final(self).ended() ==> final(self).source().remaining().len() == 0,
            final(self).chunk_size() == old(self).chunk_size(),
            chunked(
                old(self).source().remaining(),
                old(self).chunk_size(),
                items_of(chunk),
                final(self).source().remaining(),
            ),
            old(self).ends() ==> final(self).ends(),
            old(self).ends() && chunk is Some ==> final(self).chunks_to_come() < old(
                self,
            ).chunks_to_come(),
    {
        let mut out: Vec<I::Item> = Vec::new();
        let ghost items = self.iter.remaining();
        while !self.ended && out.len() < self.chunk_size
            invariant
                self.wf(),
                self.ended() ==> self.source().remaining().len() == 0,
                self.chunk_size() == old(self).chunk_size(),
                items == old(self).source().remaining(),
                out@.len() <= items.len(),
                out@.len() <= self.chunk_size(),
                out@ == items.take(out@.len() as int),
                self.source().remaining() == items.skip(out@.len() as int),
                old(self).ends() ==> self.ends(),
                old(self).ends() && out@.len() == 0 ==> self.chunks_to_come() <= old(
                    self,
                ).chunks_to_come(),
                old(self).ends() && out@.len() > 0 ==> self.chunks_to_come() < old(
                    self,
                ).chunks_to_come(),
            decreases
                    (if self.ended {
                        0nat
                    } else {
                        1nat
                    }),
                    self.chunk_size - out.len(),
        {
            match self.iter.next() {
                Some(item) => {
                    out.push(item);
                    assert(out@ =~= items.take(out@.len() as int));
                    assert(self.source().remaining() =~= items.skip(out@.len() as int));
                },
                None => {
                    self.ended = true;
                },
            }
        }
        if out.len() == 0 {
            None
        } else {
            assert(items.len() <= self.chunk_size() ==> out@ =~= items);
            Some(out)
        }
    }

    /// Takes chunk after chunk from the source and sends each off, until the source has
    /// ended or the reader at the other end is gone. Blocks while as many chunks wait to be
    /// read as are allowed in flight.
    pub fn run(self)
        requires
            self.wf(),
            self.ends(),
            self.ended() ==> self.source().remaining().len() == 0,
    {
        let mut producer = self;
        loop
            invariant
                producer.wf(),
                producer.ends(),
                producer.ended() ==> producer.source().remaining().len() == 0,
            decreases producer.chunks_to_come(),
        {
            match producer.next_chunk() {
                Some(chunk) => {
                    if !send(&producer.sender, chunk) {
                        return ;
                    }
                },
                None => {
                    return ;
                },
            }
        }
    }
}

/// The next item of `items`, where they obey the laws of iterators: the first of those that
/// were left, which are one fewer then, or `None` where none was left.
fn pop_front<It: Iterator>(items: &mut It) -> (item: Option<It::Item>)
    requires
        (*old(items)).obeys_prophetic_iter_laws(),
    ensures
        (*final(items)).obeys_prophetic_iter_laws(),
        if (*old(items)).remaining().len() > 0 {
            item == Some((*old(items)).remaining()[0]) && (*final(items)).remaining() == (*old(
                items,
            )).remaining().drop_first()
        } else {
            item is None && (*final(items)).remaining() == (*old(items)).remaining()
        },
{
    items.next()
}

/// The reading half of an eager iterator: it yields the items of the chunks that arrive, in
/// their order, and ends when no chunk is left and the producer is gone.
pub struct EagerIter<I: Iterator> {
    receiver: Receiver<Vec<I::Item>>,
    chunk: Option<IntoIter<I::Item>>,
}

impl<I: Iterator> EagerIter<I> {
    /// The chunk at hand, as far as it has not been yielded; `None` before the first chunk
    /// and after the last.
    pub closed spec fn chunk(&self) -> Option<IntoIter<I::Item>> {
        self.chunk
    }

    /// The two halves of an eager iterator over `iter`: the producer, which is to run on a
    /// thread of its own, and the iterator that yields what the producer sends, in chunks of
    /// `chunk_size` items of which `chunks_in_flight` may wait to be read. A chunk has to
    /// have room for an item.
    pub fn new(iter: I, chunk_size: usize, chunks_in_flight: usize) -> (halves: (
        ChunkProducer<I>,
        EagerIter<I>,
    ))
        requires
            chunk_size > 0,
        ensures
            halves.0.source() == iter,
            !halves.0.ended(),
            halves.0.chunk_size() == chunk_size,
            halves.1.chunk() is None,
    {
        let (sender, receiver) = sync_queue(chunks_in_flight);
        (
            ChunkProducer { iter, ended: false, chunk_size, sender },
            EagerIter { receiver, chunk: None },
        )
    }

    /// Makes `received` the chunk at hand and takes its first item.
    pub fn refill(&mut self, received: Option<Vec<I::Item>>) -> (item: Option<I::Item>)
        ensures
            unpacked(
                items_of(received),
                item,
                match final(self).chunk() {
                    Some(chunk) => chunk.remaining(),
                    None => Seq::empty(),
                },
            ),
    {
        broadcast use axiom_spec_into_iter;

        match received {
            Some(chunk) => {
                let mut items = chunk.into_iter();
                let item = pop_front(&mut items);
                self.chunk = Some(items);
                item
            },
            None => {
                self.chunk = None;
                None
            },
        }
    }

    /// Waits for the next chunk and takes its first item; `None` where no chunk is left and
    /// the producer is gone.
    fn fill_buf_and_pop(&mut self) -> (item: Option<I::Item>)
        ensures
            ({
                let left = match final(self).chunk() {
                    Some(chunk) => chunk.remaining(),
                    None => Seq::empty(),
                };
                exists|received: Option<Seq<I::Item>>, buffered: Seq<I::Item>|
                    buffered == left && #[trigger] unpacked(received, item, buffered)
            }),
    {
        let received = receive(&self.receiver);
        let ghost arrived = items_of(received);
        let item = self.refill(received);
        proof {
            let left = match self.chunk() {
                Some(chunk) => chunk.remaining(),
                None => Seq::empty(),
            };
            assert(unpacked(arrived, item, left));
        }
        item
    }

    /// The next item: that of the chunk at hand while it has one, else the first of the
    /// chunk that arrives next. `None` where no chunk is left and the producer is gone.
    pub fn next(&mut self) -> (item: Option<I::Item>)
        ensures
            ({
                let held = match old(self).chunk() {
                    Some(chunk) => chunk.remaining(),
                    None => Seq::empty(),
                };
                let left = match final(self).chunk() {
                    Some(chunk) => chunk.remaining(),
                    None => Seq::empty(),
                };
                &&& held.len() > 0 ==> item == Some(held[0]) && left == held.drop_first()
                &&& held.len() == 0 ==> exists|received: Option<Seq<I::Item>>, buffered: Seq<I::Item>|
                    buffered == left && #[trigger] unpacked(received, item, buffered)
            }),
    {
        let held = self.chunk.take();
        match held {
            Some(chunk) => {
                let mut chunk = chunk;
                match pop_front(&mut chunk) {
                    Some(item) => {
                        self.chunk = Some(chunk);
                        Some(item)
                    },
                    None => self.fill_buf_and_pop(),
                }
            },
            None => self.fill_buf_and_pop(),
        }
    }
}

} // verus!
