//! A pull-based stream over a push-style asynchronous producer.
//!
//! A producer routine emits items one at a time through a [`sender::Sender`]
//! into a shared single-item rendezvous slot; a [`stream::AsyncStream`]
//! drains that slot each time the driving computation reports itself
//! pending, turning the push-style producer into a poll-driven sequence for
//! the consumer. The guarantees a whole run gives the consumer are stated
//! and proved in [`laws`].

pub mod laws;
pub mod sender;
pub mod stream;
