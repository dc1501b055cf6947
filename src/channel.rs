//! The bounded channel that joins a pump to its readahead.
use vstd::prelude::*;

verus! {

#[verifier::external_type_specification]
#[verifier::external_body]
#[verifier::reject_recursive_types(T)]
pub struct ExReceiver<T>(std::sync::mpsc::Receiver<T>);

#[verifier::external_type_specification]
#[verifier::external_body]
#[verifier::reject_recursive_types(T)]
pub struct ExSyncSender<T>(std::sync::mpsc::SyncSender<T>);

/// Relies on std::sync::mpsc::sync_channel: the two ends of a new FIFO
/// channel that holds at most `capacity` messages.
#[verifier::external_body]
pub(crate) fn bounded<T>(capacity: usize) -> (std::sync::mpsc::SyncSender<T>, std::sync::mpsc::Receiver<T>) {
    std::sync::mpsc::sync_channel(capacity)
}

/// Relies on std::sync::mpsc::SyncSender::send: blocks while the channel is
/// full, and reports `false` when the receiving end has been dropped.
/// Whether it succeeds depends on the other side, so nothing is promised.
#[verifier::external_body]
pub(crate) fn send<T>(tx: &std::sync::mpsc::SyncSender<T>, message: T) -> bool {
    tx.send(message).is_ok()
}

/// Relies on std::sync::mpsc::Receiver::recv: blocks until a message
/// arrives (`Some`) or every sending end is gone (`None`). What arrives
/// depends on the other side, so nothing is promised.
#[verifier::external_body]
pub(crate) fn recv<T>(rx: &std::sync::mpsc::Receiver<T>) -> Option<T> {
    rx.recv().ok()
}

} // verus!
