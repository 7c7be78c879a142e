//! The pull side of the rendezvous: the stream adapter that alternates
//! between advancing the driving computation and draining the shared slot.
//!
//! The adapter itself never awaits anything: each poll is one synchronous
//! decision, taken from the outcome of polling the driving future (reported
//! here as a [`DriverEvent`]) and from the slot's contents.

use crate::sender::Sender;
use vstd::prelude::*;

verus! {

/// Outcome of one cooperative poll of the driving future: still pending,
/// completed with success, or completed with the producer's failure.
#[derive(Debug)]
pub enum DriverEvent<E> {
    Pending,
    Complete,
    Failed(E),
}

/// What one poll of the stream reports to a consumer of the current,
/// context-based protocol: no item yet, one produced item, the producer's
/// failure delivered as a final error item, or end of the sequence.
#[derive(Debug)]
pub enum StreamStep<I, E> {
    Pending,
    Item(I),
    Failed(E),
    End,
}

/// What one poll of the stream reports under the older, context-free
/// protocol: here the producer's failure is a protocol-level terminal error,
/// not a final item, and success is a bare end of the sequence.
#[derive(Debug)]
pub enum LegacyStep<I, E> {
    NotReady,
    Item(I),
    Failed(E),
    End,
}

/// The stream's decision rule, one poll step: completion of the driver ends
/// the stream (success as end-of-sequence, failure as a terminal error item),
/// and completion takes precedence over any residual slot contents; while the
/// driver is pending, a deposited item is reported and an empty slot means
/// the suspension was unrelated, so the consumer stays pending.
pub open spec fn step_result<I, E>(event: DriverEvent<E>, pending_item: Option<I>) -> StreamStep<
    I,
    E,
> {
    match event {
        DriverEvent::Pending => match pending_item {
            Some(item) => StreamStep::Item(item),
            None => StreamStep::Pending,
        },
        DriverEvent::Complete => StreamStep::End,
        DriverEvent::Failed(e) => StreamStep::Failed(e),
    }
}

/// How the older protocol encodes a poll step: pointwise translation of the
/// current protocol's report, turning the failure item into a terminal error.
pub open spec fn legacy_of<I, E>(step: StreamStep<I, E>) -> LegacyStep<I, E> {
    match step {
        StreamStep::Pending => LegacyStep::NotReady,
        StreamStep::Item(item) => LegacyStep::Item(item),
        StreamStep::Failed(e) => LegacyStep::Failed(e),
        StreamStep::End => LegacyStep::End,
    }
}

/// One poll-step decision from plain values: exactly [`step_result`].
pub fn resolve_step<I, E>(event: DriverEvent<E>, pending_item: Option<I>) -> (r: StreamStep<I, E>)
    ensures
        r == step_result(event, pending_item),
{
    match event {
        DriverEvent::Pending => match pending_item {
            Some(item) => StreamStep::Item(item),
            None => StreamStep::Pending,
        },
        DriverEvent::Complete => StreamStep::End,
        DriverEvent::Failed(e) => StreamStep::Failed(e),
    }
}

/// Translate one poll step into the older protocol's encoding: exactly
/// [`legacy_of`].
pub fn translate_legacy<I, E>(step: StreamStep<I, E>) -> (r: LegacyStep<I, E>)
    ensures
        r == legacy_of(step),
{
    match step {
        StreamStep::Pending => LegacyStep::NotReady,
        StreamStep::Item(item) => LegacyStep::Item(item),
        StreamStep::Failed(e) => LegacyStep::Failed(e),
        StreamStep::End => LegacyStep::End,
    }
}

/// The stream adapter: holds the stream's handle to the shared rendezvous
/// slot and tracks whether the driving future has completed.
///
/// The driving future itself lives with the caller, who polls it once per
/// stream poll and reports the outcome as a [`DriverEvent`]; the adapter
/// takes the one decision that turns driver outcomes and slot contents into
/// the consumer's view of the sequence.
#[must_use]
pub struct AsyncStream<Item, Error> {
    sender: Sender<Item, Error>,
    done: bool,
}

impl<Item, Error> AsyncStream<Item, Error> {
    /// Whether the driving future has completed: once finished, the stream
    /// is terminal and must not be polled again.
    pub closed spec fn is_finished(&self) -> bool {
        self.done
    }

    /// The handle through which the stream drains the rendezvous slot.
    pub closed spec fn drain_handle(&self) -> Sender<Item, Error> {
        self.sender
    }

    /// A new, still-active stream together with the sender the producer
    /// routine is to be given; the two share one rendezvous slot.
    pub fn new() -> (r: (AsyncStream<Item, Error>, Sender<Item, Error>))
        ensures
            !r.0.is_finished(),
            r.0.drain_handle().shares_slot_with(&r.1),
    {
        let sender = Sender::new(None);
        let stream = AsyncStream { sender: sender.clone(), done: false };
        (stream, sender)
    }

    /// Whether the stream has reached its terminal state; a finished stream
    /// must not be polled again.
    pub fn finished(&self) -> (r: bool)
        ensures
            r == self.is_finished(),
    {
        self.done
    }

    /// One poll under the current protocol, from the outcome of polling the
    /// driving future once: driver completion ends the stream, discarding any
    /// residual slot contents; a pending driver means either one drained item
    /// or an unrelated suspension. The result is [`step_result`] of the event
    /// and of whatever the slot held at this step.
    pub fn poll_next(&mut self, event: DriverEvent<Error>) -> (r: StreamStep<Item, Error>)
        requires
            !old(self).is_finished(),
        ensures
            final(self).is_finished() == !(event is Pending),
            final(self).drain_handle() == old(self).drain_handle(),
            match event {
                DriverEvent::Pending => r is Item || r is Pending,
                DriverEvent::Complete => r is End,
                DriverEvent::Failed(e) => r == StreamStep::<Item, Error>::Failed(e),
            },
            (exists|held: Option<Item>| r == step_result(event, held)),
    {
        match event {
            DriverEvent::Pending => {
                let drained = self.sender.take_item();
                resolve_step(DriverEvent::Pending, drained)
            },
            DriverEvent::Complete => {
                self.done = true;
                proof {
                    assert(StreamStep::<Item, Error>::End == step_result(
                        DriverEvent::<Error>::Complete,
                        None::<Item>,
                    ));
                }
                StreamStep::End
            },
            DriverEvent::Failed(e) => {
                self.done = true;
                proof {
                    assert(StreamStep::<Item, Error>::Failed(e) == step_result(
                        DriverEvent::Failed(e),
                        None::<Item>,
                    ));
                }
                StreamStep::Failed(e)
            },
        }
    }

    /// One poll under the older, context-free protocol: the same decision as
    /// [`AsyncStream::poll_next`], re-encoded by [`legacy_of`], so a producer
    /// failure arrives as a terminal error and success as a bare end.
    pub fn poll_legacy(&mut self, event: DriverEvent<Error>) -> (r: LegacyStep<Item, Error>)
        requires
            !old(self).is_finished(),
        ensures
            final(self).is_finished() == !(event is Pending),
            final(self).drain_handle() == old(self).drain_handle(),
            match event {
                DriverEvent::Pending => r is Item || r is NotReady,
                DriverEvent::Complete => r is End,
                DriverEvent::Failed(e) => r == LegacyStep::<Item, Error>::Failed(e),
            },
            (exists|held: Option<Item>| r == legacy_of(step_result(event, held))),
    {
        let step = self.poll_next(event);
        let r = translate_legacy(step);
        proof {
            let held = choose|held: Option<Item>| step == step_result(event, held);
            assert(r == legacy_of(step_result(event, held)));
        }
        r
    }
}

} // verus!
