//! What a whole run of the adapter yields: a model of repeated polling, and
//! proofs of the ordering and termination guarantees the stream gives its
//! consumer.
//!
//! One poll step is a pair: the outcome of polling the driving future, and
//! what the rendezvous slot held at that moment (one deposited item per emit,
//! nothing when the producer's suspension was unrelated). A run is the
//! sequence of such steps; the consumer's view of it is each step's decision,
//! cut off at the first terminal report, since a finished stream is not
//! polled again.

use crate::stream::{legacy_of, step_result, DriverEvent, LegacyStep, StreamStep};
use vstd::prelude::*;

verus! {

/// The consumer's view of a run: the decision of each poll step in turn,
/// ending with the first terminal report (end-of-sequence or failure), after
/// which the stream is finished and no further step is taken.
pub open spec fn drained_outputs<I, E>(polls: Seq<(DriverEvent<E>, Option<I>)>) -> Seq<
    StreamStep<I, E>,
>
    decreases polls.len(),
{
    if polls.len() == 0 {
        Seq::empty()
    } else {
        let first = step_result(polls[0].0, polls[0].1);
        if first is End || first is Failed {
            seq![first]
        } else {
            seq![first] + drained_outputs(polls.skip(1))
        }
    }
}

/// The run of a disciplined producer that emits the given items one by one,
/// each with its rendezvous suspension and with no unrelated suspension in
/// between, and then completes with the given outcome: one pending poll per
/// item, with that item in the slot, and one final poll with the empty slot.
pub open spec fn emission_polls<I, E>(items: Seq<I>, outcome: DriverEvent<E>) -> Seq<
    (DriverEvent<E>, Option<I>),
>
    decreases items.len(),
{
    if items.len() == 0 {
        seq![(outcome, None)]
    } else {
        seq![(DriverEvent::Pending, Some(items[0]))] + emission_polls(items.skip(1), outcome)
    }
}

/// A disciplined producer's run, polled to exhaustion, yields exactly its
/// emitted items, in emission order, followed by the one terminal report its
/// outcome decides.
pub proof fn lemma_emission_run<I, E>(items: Seq<I>, outcome: DriverEvent<E>)
    requires
        !(outcome is Pending),
    ensures
        ({
            let outs = drained_outputs(emission_polls(items, outcome));
            &&& outs.len() == items.len() + 1
            &&& (forall|k: int|
                0 <= k < items.len() ==> outs[k] == StreamStep::<I, E>::Item(items[k]))
            &&& outs[items.len() as int] == step_result(outcome, None::<I>)
        }),
    decreases items.len(),
{
    let outs = drained_outputs(emission_polls(items, outcome));
    if items.len() == 0 {
        let first = step_result(outcome, None::<I>);
        assert(first is End || first is Failed);
        assert(outs =~= seq![first]);
    } else {
        let tail_items = items.skip(1);
        lemma_emission_run(tail_items, outcome);
        let polls = emission_polls(items, outcome);
        let tail_polls = emission_polls(tail_items, outcome);
        let head = StreamStep::<I, E>::Item(items[0]);
        assert(step_result(polls[0].0, polls[0].1) == head);
        assert(polls.skip(1) =~= tail_polls);
        let touts = drained_outputs(tail_polls);
        assert(outs =~= seq![head] + touts);
        assert forall|k: int| 0 <= k < items.len() implies outs[k] == StreamStep::<I, E>::Item(
            items[k],
        ) by {
            if k > 0 {
                assert(outs[k] == touts[k - 1]);
                assert(tail_items[k - 1] == items[k]);
            }
        }
        assert(outs[items.len() as int] == touts[tail_items.len() as int]);
    }
}

/// Every item a producer emits, each with its rendezvous suspension and with
/// no unrelated suspension in between, reaches the consumer: polling the
/// stream to exhaustion yields exactly those items, in emission order,
/// followed by end-of-sequence.
pub proof fn lemma_emitted_in_order<I, E>(items: Seq<I>)
    ensures
        ({
            let outs = drained_outputs(emission_polls(items, DriverEvent::<E>::Complete));
            &&& outs.len() == items.len() + 1
            &&& (forall|k: int|
                0 <= k < items.len() ==> outs[k] == StreamStep::<I, E>::Item(items[k]))
            &&& outs[items.len() as int] == StreamStep::<I, E>::End
        }),
{
    lemma_emission_run(items, DriverEvent::<E>::Complete);
}

/// A producer that emits nothing and completes successfully yields the empty
/// sequence: the very first poll reports end-of-sequence and nothing else.
pub proof fn lemma_empty_producer<I, E>()
    ensures
        drained_outputs(emission_polls(Seq::<I>::empty(), DriverEvent::<E>::Complete)) == seq![
            StreamStep::<I, E>::End,
        ],
{
    lemma_emission_run(Seq::<I>::empty(), DriverEvent::<E>::Complete);
    assert(drained_outputs(emission_polls(Seq::<I>::empty(), DriverEvent::<E>::Complete)) =~= seq![
        StreamStep::<I, E>::End,
    ]);
}

/// A producer that fails without emitting yields a run whose only report is
/// that failure, as the terminal signal.
pub proof fn lemma_failure_without_items<I, E>(e: E)
    ensures
        drained_outputs(emission_polls(Seq::<I>::empty(), DriverEvent::Failed(e))) == seq![
            StreamStep::<I, E>::Failed(e),
        ],
{
    lemma_emission_run(Seq::<I>::empty(), DriverEvent::Failed(e));
    assert(drained_outputs(emission_polls(Seq::<I>::empty(), DriverEvent::Failed(e))) =~= seq![
        StreamStep::<I, E>::Failed(e),
    ]);
}

/// A producer that emits its items and then fails yields exactly those items,
/// in emission order, followed by the failure as the terminal signal; under
/// the older protocol the same failure arrives as a terminal error, not as a
/// trailing item.
pub proof fn lemma_items_then_failure<I, E>(items: Seq<I>, e: E)
    ensures
        ({
            let outs = drained_outputs(emission_polls(items, DriverEvent::Failed(e)));
            &&& outs.len() == items.len() + 1
            &&& (forall|k: int|
                0 <= k < items.len() ==> outs[k] == StreamStep::<I, E>::Item(items[k]))
            &&& outs[items.len() as int] == StreamStep::<I, E>::Failed(e)
            &&& legacy_of(outs[items.len() as int]) == LegacyStep::<I, E>::Failed(e)
        }),
{
    lemma_emission_run(items, DriverEvent::Failed(e));
}

/// An unrelated suspension — the driver reports pending while the slot is
/// empty — is reported to the consumer as "still pending", never as an item
/// and never as end-of-sequence, and leaves the rest of the run untouched.
pub proof fn lemma_unrelated_suspension<I, E>(polls: Seq<(DriverEvent<E>, Option<I>)>)
    ensures
        step_result(DriverEvent::<E>::Pending, None::<I>) == StreamStep::<I, E>::Pending,
        drained_outputs(seq![(DriverEvent::<E>::Pending, None::<I>)] + polls) == seq![
            StreamStep::<I, E>::Pending,
        ] + drained_outputs(polls),
{
    let run = seq![(DriverEvent::<E>::Pending, None::<I>)] + polls;
    assert(run.skip(1) =~= polls);
    assert(drained_outputs(run) =~= seq![StreamStep::<I, E>::Pending] + drained_outputs(polls));
}

/// The tie-break of the polling rule: when the driver completes, the
/// completion is what the consumer sees, whatever the slot still held — an
/// item left in the slot on the completing poll is discarded, the documented
/// hazard of emitting without awaiting the suspension point.
pub proof fn lemma_completion_discards_residual<I, E>(pending_item: Option<I>)
    ensures
        step_result(DriverEvent::<E>::Complete, pending_item) == StreamStep::<I, E>::End,
        drained_outputs(seq![(DriverEvent::<E>::Complete, pending_item)]) == seq![
            StreamStep::<I, E>::End,
        ],
{
    assert(drained_outputs(seq![(DriverEvent::<E>::Complete, pending_item)]) =~= seq![
        StreamStep::<I, E>::End,
    ]);
}

} // verus!
