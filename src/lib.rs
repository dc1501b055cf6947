//! Readahead adaptor for iterators.
//!
//! A producer iterator is split into two halves joined by a bounded channel:
//! a [`Pump`] that pulls items from the producer and hands them over, and a
//! [`Readahead`] that takes them back, in the same order, on the consumer's
//! side. Running the pump on a thread of its own lets the producer work
//! ahead of the consumer by at most the channel's capacity.
use vstd::prelude::*;

mod channel;
pub mod protocol;
pub mod readahead;

pub use protocol::Arrival;
pub use readahead::{IntoReadahead, Pump, Readahead};
