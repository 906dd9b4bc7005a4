//! The bounded queue that carries chunks from the producer of an eager iterator to its
//! reader. What the queue holds at a moment depends on what the thread at the other end
//! does in that moment, so nothing is claimed of what is received, nor of whether a send
//! succeeds.

use vstd::prelude::*;

verus! {

/// `std::sync::mpsc::SyncSender`, the sending end of a queue with one reader.
#[verifier::external_type_specification]
#[verifier::external_body]
#[verifier::reject_recursive_types(T)]
pub struct ExSyncSender<T>(std::sync::mpsc::SyncSender<T>);

/// `std::sync::mpsc::Receiver`, the receiving end of a queue with one reader.
#[verifier::external_type_specification]
#[verifier::external_body]
#[verifier::reject_recursive_types(T)]
pub struct ExSyncReceiver<T>(std::sync::mpsc::Receiver<T>);

/// `std::sync::mpsc::sync_channel`: the two ends of a new queue that holds `capacity`
/// items at most.
#[verifier::external_body]
pub(crate) fn sync_queue<T>(capacity: usize) -> (ends: (
    std::sync::mpsc::SyncSender<T>,
    std::sync::mpsc::Receiver<T>,
)) {
    std::sync::mpsc::sync_channel(capacity)
}

/// `std::sync::mpsc::SyncSender::send`: blocks while the queue is full; `false` where the
/// receiving end is gone, and the item with it.
#[verifier::external_body]
pub(crate) fn send<T>(sender: &std::sync::mpsc::SyncSender<T>, item: T) -> (sent: bool) {
    sender.send(item).is_ok()
}

/// `std::sync::mpsc::Receiver::recv`: blocks for the next item; `None` once the queue is
/// empty and the sending end is gone.
#[verifier::external_body]
pub(crate) fn receive<T>(receiver: &std::sync::mpsc::Receiver<T>) -> (item: Option<T>) {
    receiver.recv().ok()
}

} // verus!
