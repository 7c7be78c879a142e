//! The producer's side of the rendezvous: a shared single-item slot, the
//! handle used to deposit one value into it, and the suspension point that
//! hands control back to the scheduler after each deposit.

use core::marker::PhantomData;
use std::sync::Arc;
use vstd::cell::invcell::InvCell;
use vstd::predicate::Predicate;
use vstd::prelude::*;

verus! {

/// Suspension point returned by [`Sender::send`]: pending on its first
/// cooperative poll and ready on every later one, so that awaiting it yields
/// control to the scheduler exactly once per emitted item.
#[must_use]
pub struct SenderFuture {
    is_ready: bool,
}

impl SenderFuture {
    /// Whether the suspension point has already been polled once and will
    /// report ready on its next poll.
    pub closed spec fn ready(&self) -> bool {
        self.is_ready
    }

    /// A fresh suspension point, which has not been polled yet.
    pub fn new() -> (r: SenderFuture)
        ensures
            !r.ready(),
    {
        SenderFuture { is_ready: false }
    }

    /// One cooperative poll step: reports not ready on the first poll (and
    /// arms itself), ready on every poll after that.
    pub fn poll_once(&mut self) -> (done: bool)
        ensures
            done == old(self).ready(),
            final(self).ready(),
    {
        if self.is_ready {
            true
        } else {
            self.is_ready = true;
            false
        }
    }
}

/// Invariant of the rendezvous slot: any single pending item, or none. The
/// slot imposes no restriction on the values passing through it.
pub struct SlotInv;

impl<I> Predicate<Option<I>> for SlotInv {
    open spec fn predicate(&self, v: Option<I>) -> bool {
        true
    }
}

/// Relies on `alloc::sync::Arc::clone`: the clone points to the same
/// allocation as the original, so both handles carry the same value.
#[verifier::external_body]
fn arc_share<T>(v: &Arc<T>) -> (res: Arc<T>)
    ensures
        res == *v,
{
    v.clone()
}

/// Handle passed to the producer routine: each `send` deposits one item into
/// the shared rendezvous slot and returns the suspension point the producer
/// must await before proceeding.
///
/// The error type parameter never flows through the slot; it is carried only
/// so that a sender names the same item/error pair as the stream it feeds.
pub struct Sender<I, E> {
    slot: Arc<InvCell<Option<I>, SlotInv>>,
    error_kind: PhantomData<E>,
}

impl<I, E> Sender<I, E> {
    /// Whether two senders hand off through the same rendezvous slot.
    pub closed spec fn shares_slot_with(&self, other: &Sender<I, E>) -> bool {
        self.slot == other.slot
    }

    /// A fresh sender over a new rendezvous slot, primed with `item_opt`.
    pub fn new(item_opt: Option<I>) -> (r: Sender<I, E>) {
        Sender { slot: Arc::new(InvCell::new(item_opt, Ghost(SlotInv))), error_kind: PhantomData }
    }

    /// A second handle to the same rendezvous slot, so that the stream can
    /// drain what the producer deposits. Deliberately not a `Clone` impl:
    /// the slot must stay between exactly one producer and one stream.
    pub fn clone(&self) -> (r: Sender<I, E>)
        ensures
            r.shares_slot_with(self),
    {
        Sender { slot: arc_share(&self.slot), error_kind: PhantomData }
    }

    /// Send one item to the stream: deposit it in the shared slot, replacing
    /// any not-yet-drained previous item (a documented silent-loss hazard,
    /// not an error), and hand back a fresh suspension point the producer
    /// must await so the slot is drained before it proceeds.
    pub fn send(&mut self, item: I) -> (r: SenderFuture)
        ensures
            !r.ready(),
            final(self).shares_slot_with(old(self)),
    {
        self.slot.set(Some(item));
        SenderFuture::new()
    }

    /// Drain the slot: remove and return the pending item, if any, leaving
    /// the slot empty. What comes back depends on what the producer last
    /// deposited, which the slot itself does not track.
    pub(crate) fn take_item(&self) -> Option<I> {
        self.slot.replace(None)
    }
}

} // verus!
