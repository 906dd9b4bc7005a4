use git_features::parallel::eager_iter::ChunkProducer;
use git_features::parallel::EagerIter;

/// Runs the producer on a thread of its own and reads the iterator to its end.
fn drain<I>(producer: ChunkProducer<I>, mut reader: EagerIter<I>) -> Vec<I::Item>
where
    I: Iterator + Send,
    I::Item: Send,
{
    crossbeam_utils::thread::scope(|scope| {
        scope.spawn(move |_| producer.run());
        let mut items = Vec::new();
        while let Some(item) = reader.next() {
            items.push(item);
        }
        // the end stays the end.
        assert!(reader.next().is_none());
        items
    })
    .unwrap()
}

#[test]
fn eager_iter_yields_the_items_in_order_whatever_is_in_flight() {
    for chunks_in_flight in 0usize..5 {
        let (producer, reader) =
            EagerIter::new(vec![1, 2, 3, 4, 5].into_iter(), 3, chunks_in_flight);
        assert_eq!(drain(producer, reader), vec![1, 2, 3, 4, 5]);
    }
}

#[test]
fn eager_iter_yields_the_items_in_order_whatever_the_chunk_size() {
    let items: Vec<u32> = (0..100).collect();
    for chunk_size in 1usize..12 {
        let (producer, reader) = EagerIter::new(items.clone().into_iter(), chunk_size, 2);
        assert_eq!(drain(producer, reader), items);
    }
    let (producer, reader) = EagerIter::new(items.clone().into_iter(), 100, 1);
    assert_eq!(drain(producer, reader), items);
    let (producer, reader) = EagerIter::new(items.clone().into_iter(), 1000, 1);
    assert_eq!(drain(producer, reader), items);
    let (producer, reader) = EagerIter::new(items.clone().into_iter(), usize::MAX, 0);
    assert_eq!(drain(producer, reader), items);
}

#[test]
fn eager_iter_over_nothing_ends_at_once() {
    let (producer, reader) = EagerIter::new(Vec::<u8>::new().into_iter(), 3, 1);
    assert_eq!(drain(producer, reader), Vec::<u8>::new());
}

#[test]
fn eager_iter_is_made_without_a_look_at_the_source() {
    // a source without an end: making the two halves does not take from it.
    let (producer, mut reader) = EagerIter::new(0u64.., 2, 1);
    drop(producer);
    assert_eq!(reader.next(), None);
}

#[test]
fn eager_iter_ends_where_the_producer_never_ran() {
    let (producer, mut reader) = EagerIter::new(vec![1, 2, 3].into_iter(), 2, 1);
    drop(producer);
    assert_eq!(reader.next(), None);
    assert_eq!(reader.next(), None);
}

#[test]
fn producer_stops_where_the_reader_is_gone() {
    let (producer, reader) = EagerIter::new((0u64..1_000_000).into_iter(), 2, 1);
    drop(reader);
    // returns at the first chunk that nobody takes, instead of blocking on a full queue.
    producer.run();
}

#[test]
fn producer_fills_the_queue_ahead_of_the_reader() {
    // two chunks fit the queue, so the producer runs to its end before anything is read.
    let (producer, mut reader) = EagerIter::new(vec![1, 2, 3, 4, 5].into_iter(), 3, 2);
    producer.run();
    let mut items = Vec::new();
    while let Some(item) = reader.next() {
        items.push(item);
    }
    assert_eq!(items, vec![1, 2, 3, 4, 5]);
}

#[test]
fn next_chunk_takes_full_chunks_and_the_rest_at_the_end() {
    let (mut producer, _reader) = EagerIter::new(vec![1, 2, 3, 4, 5].into_iter(), 3, 1);
    assert_eq!(producer.next_chunk(), Some(vec![1, 2, 3]));
    assert_eq!(producer.next_chunk(), Some(vec![4, 5]));
    assert_eq!(producer.next_chunk(), None);
    assert_eq!(producer.next_chunk(), None);
}

#[test]
fn next_chunk_has_nothing_left_after_a_last_full_chunk() {
    let (mut producer, _reader) = EagerIter::new(vec!['a', 'b', 'c', 'd'].into_iter(), 2, 1);
    assert_eq!(producer.next_chunk(), Some(vec!['a', 'b']));
    assert_eq!(producer.next_chunk(), Some(vec!['c', 'd']));
    assert_eq!(producer.next_chunk(), None);
}

#[test]
fn next_chunk_of_single_items_takes_each() {
    let (mut producer, _reader) = EagerIter::new(vec![10, 11].into_iter(), 1, 1);
    assert_eq!(producer.next_chunk(), Some(vec![10]));
    assert_eq!(producer.next_chunk(), Some(vec![11]));
    assert_eq!(producer.next_chunk(), None);
}

#[test]
fn next_chunk_does_not_ask_a_source_again_that_has_ended() {
    let asked = std::sync::Arc::new(std::sync::atomic::AtomicUsize::new(0));
    let counter = asked.clone();
    let mut left = 2;
    let source = std::iter::from_fn(move || {
        counter.fetch_add(1, std::sync::atomic::Ordering::SeqCst);
        if left > 0 {
            left -= 1;
            Some(left)
        } else {
            None
        }
    });
    let (mut producer, _reader) = EagerIter::new(source, 5, 1);
    assert_eq!(producer.next_chunk(), Some(vec![1, 0]));
    assert_eq!(producer.next_chunk(), None);
    assert_eq!(producer.next_chunk(), None);
    assert_eq!(asked.load(std::sync::atomic::Ordering::SeqCst), 3);
}

#[test]
fn next_chunk_of_a_huge_chunk_size_takes_what_there_is() {
    let (mut producer, _reader) = EagerIter::new(vec![1, 2, 3].into_iter(), usize::MAX, 0);
    assert_eq!(producer.next_chunk(), Some(vec![1, 2, 3]));
    assert_eq!(producer.next_chunk(), None);
}

#[test]
fn refill_unpacks_a_chunk_in_order() {
    let (_producer, mut reader) = EagerIter::new(Vec::<u8>::new().into_iter(), 4, 1);
    assert_eq!(reader.refill(Some(vec![7, 8, 9])), Some(7));
    assert_eq!(reader.refill(Some(vec![])), None);
    assert_eq!(reader.refill(Some(vec![1])), Some(1));
    assert_eq!(reader.refill(None), None);
}
