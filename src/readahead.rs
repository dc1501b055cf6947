//! The two halves of a readahead: the pump on the producer's side and the
//! readahead on the consumer's side.
use vstd::prelude::*;
use vstd::std_specs::iter::IteratorSpec;
use crate::channel;
use crate::protocol::{after_arrival, classify, head_of, proceed, pump_goes_on, settle, Arrival};

verus! {

/// The consumer's half: takes the producer's items back, in order.
///
/// It is active while it holds the receiving end of the channel, and
/// terminal once it has seen the end marker or a hangup. Terminal is final.
#[verifier::reject_recursive_types(T)]
pub struct Readahead<T> {
    receiver: Option<std::sync::mpsc::Receiver<Option<T>>>,
}

impl<T> Readahead<T> {
    /// Whether the readahead may still return items.
    pub closed spec fn is_active(&self) -> bool {
        self.receiver is Some
    }

    /// Whether the readahead may still return items.
    pub fn active(&self) -> (r: bool)
        ensures
            r == self.is_active(),
    {
        self.receiver.is_some()
    }

    /// Waits for the next item. Returns `None` once the pump has sent its
    /// end marker or is gone, and from then on without waiting.
    pub fn next(&mut self) -> (r: Option<T>)
        ensures
            !old(self).is_active() ==> r is None && !final(self).is_active(),
            old(self).is_active() ==> exists|a: Arrival<T>| after_arrival(a) == (final(self).is_active(), r),
            r is Some <==> final(self).is_active(),
            final(self).is_active() ==> *final(self) == *old(self),
    {
        let arrival = match &self.receiver {
            None => {
                return None;
            },
            Some(rx) => classify(channel::recv(rx)),
        };
        let ghost a = arrival;
        let (keep, item) = settle(arrival);
        if !keep {
            self.receiver = None;
        }
        assert(after_arrival(a) == (self.is_active(), item));
        item
    }
}

/// The producer's half: pulls items from the producer and hands them to the
/// channel, one per step, then the end marker.
///
/// It keeps, as a ghost log, every message it has handed over. It stops
/// after the end marker, or when the channel refuses a message because the
/// readahead is gone; stopped is final.
#[verifier::reject_recursive_types(T)]
pub struct Pump<I, T> {
    inner: I,
    sender: std::sync::mpsc::SyncSender<Option<T>>,
    running: bool,
    log: Ghost<Seq<Option<T>>>,
}

impl<I, T> Pump<I, T> {
    /// Whether the pump may take more steps.
    pub closed spec fn is_running(&self) -> bool {
        self.running
    }

    /// The messages handed to the channel so far.
    pub closed spec fn sent(&self) -> Seq<Option<T>> {
        self.log@
    }

    /// The producer as it stands.
    pub closed spec fn source(&self) -> I {
        self.inner
    }

    /// Whether the pump may take more steps.
    pub fn running(&self) -> (r: bool)
        ensures
            r == self.is_running(),
    {
        self.running
    }
}

impl<I: Iterator<Item = T>, T> Pump<I, T> {
    /// Pulls one item from the producer and hands it over, or hands over the
    /// end marker when the producer is exhausted. Returns whether the pump
    /// goes on: only after an item that the channel took. On a stopped pump
    /// it does nothing.
    pub fn step(&mut self) -> (more: bool)
        ensures
            more == final(self).is_running(),
            !old(self).is_running() ==> *final(self) == *old(self),
            old(self).is_running() ==> {
                &&& final(self).sent().len() == old(self).sent().len() + 1
                &&& final(self).sent().drop_last() == old(self).sent()
                &&& exists|delivered: bool| more == pump_goes_on(final(self).sent().last(), delivered)
            },
            old(self).is_running() && final(self).source().obeys_prophetic_iter_laws() ==> {
                &&& final(self).sent().last() == head_of(old(self).source().remaining())
                &&& old(self).source().remaining().len() > 0 ==>
                    final(self).source().remaining() == old(self).source().remaining().drop_first()
            },
    {
        if !self.running {
            return false;
        }
        let message = self.inner.next();
        let was_item = message.is_some();
        let ghost m = message;
        let delivered = channel::send(&self.sender, message);
        let more = proceed(was_item, delivered);
        self.running = more;
        proof {
            self.log@ = self.log@.push(m);
            assert(self.log@.drop_last() =~= old(self).log@);
            assert(more == pump_goes_on(self.log@.last(), delivered));
        }
        more
    }
}

/// Splits a producer into a pump and a readahead joined by a channel that
/// holds up to `buffer_size` messages. Run the pump's steps on a thread of
/// their own, and pull the items from the readahead.
pub trait IntoReadahead<T>: Sized {
    /// Splits `self` into a running pump, with an empty log, over `self`, and
    /// an active readahead.
    fn readahead(self, buffer_size: usize) -> (r: (Pump<Self, T>, Readahead<T>))
        ensures
            r.0.is_running(),
            r.0.sent() == Seq::<Option<T>>::empty(),
            r.0.source() == self,
            r.1.is_active(),
    ;
}

impl<I: Iterator<Item = T>, T> IntoReadahead<T> for I {
    fn readahead(self, buffer_size: usize) -> (r: (Pump<Self, T>, Readahead<T>)) {
        let (sender, receiver) = channel::bounded(buffer_size);
        let pump = Pump { inner: self, sender, running: true, log: Ghost(Seq::empty()) };
        (pump, Readahead { receiver: Some(receiver) })
    }
}

} // verus!
