use async_stream::sender::{Sender, SenderFuture};
use async_stream::stream::{AsyncStream, DriverEvent, LegacyStep, StreamStep};
use std::future::Future;
use std::pin::Pin;
use std::task::{Context, Poll};

/// Awaitable wrapper a producer uses around the suspension point handed back
/// by `Sender::send`.
struct Suspend(SenderFuture);

impl Future for Suspend {
    type Output = ();

    fn poll(self: Pin<&mut Self>, _cx: &mut Context<'_>) -> Poll<()> {
        if self.get_mut().0.poll_once() {
            Poll::Ready(())
        } else {
            Poll::Pending
        }
    }
}

type Driver<E> = Pin<Box<dyn Future<Output = Result<(), E>>>>;

/// One consumer poll: advance the driving future once, report its outcome to
/// the adapter, and return what the adapter decided.
fn drive<I, E>(stream: &mut AsyncStream<I, E>, fut: &mut Driver<E>) -> StreamStep<I, E> {
    let waker = futures::task::noop_waker();
    let mut cx = Context::from_waker(&waker);
    let event = match fut.as_mut().poll(&mut cx) {
        Poll::Pending => DriverEvent::Pending,
        Poll::Ready(Ok(())) => DriverEvent::Complete,
        Poll::Ready(Err(e)) => DriverEvent::Failed(e),
    };
    stream.poll_next(event)
}

#[test]
fn sender_future_pending_once_then_ready() {
    let mut sf = SenderFuture::new();
    assert!(!sf.poll_once());
    assert!(sf.poll_once());
    assert!(sf.poll_once());
}

#[test]
fn empty_producer_ends_immediately() {
    let (mut stream, _tx) = AsyncStream::<u8, String>::new();
    assert!(!stream.finished());
    let r = stream.poll_next(DriverEvent::Complete);
    assert!(matches!(r, StreamStep::End));
    assert!(stream.finished());
}

#[test]
fn failure_without_items_is_the_only_signal() {
    let (mut stream, _tx) = AsyncStream::<u8, String>::new();
    let r = stream.poll_next(DriverEvent::Failed(String::from("boom")));
    assert!(matches!(r, StreamStep::Failed(e) if e == "boom"));
    assert!(stream.finished());
}

#[test]
fn unrelated_suspension_reports_pending() {
    let (mut stream, mut tx) = AsyncStream::<u8, String>::new();
    // The producer awaits something other than a send: the slot stays empty.
    let r = stream.poll_next(DriverEvent::Pending);
    assert!(matches!(r, StreamStep::Pending));
    assert!(!stream.finished());
    // The next emission still arrives as an item, in order.
    let _ = tx.send(7);
    let r = stream.poll_next(DriverEvent::Pending);
    assert!(matches!(r, StreamStep::Item(7)));
    assert!(!stream.finished());
}

#[test]
fn items_then_success_in_emission_order() {
    let (mut stream, mut tx) = AsyncStream::<u8, String>::new();
    for i in 0u8..4 {
        let _ = tx.send(i);
        let r = stream.poll_next(DriverEvent::Pending);
        assert!(matches!(r, StreamStep::Item(x) if x == i));
    }
    let r = stream.poll_next(DriverEvent::Complete);
    assert!(matches!(r, StreamStep::End));
}

#[test]
fn items_then_failure_keeps_items_and_ends_with_it() {
    let (mut stream, mut tx) = AsyncStream::<u8, String>::new();
    let _ = tx.send(1);
    let r = stream.poll_next(DriverEvent::Pending);
    assert!(matches!(r, StreamStep::Item(1)));
    let _ = tx.send(2);
    let r = stream.poll_next(DriverEvent::Pending);
    assert!(matches!(r, StreamStep::Item(2)));
    let r = stream.poll_next(DriverEvent::Failed(String::from("late")));
    assert!(matches!(r, StreamStep::Failed(e) if e == "late"));
    assert!(stream.finished());
}

#[test]
fn legacy_failure_is_terminal_error_not_item() {
    let (mut stream, mut tx) = AsyncStream::<u8, String>::new();
    let _ = tx.send(9);
    let r = stream.poll_legacy(DriverEvent::Pending);
    assert!(matches!(r, LegacyStep::Item(9)));
    let r = stream.poll_legacy(DriverEvent::Failed(String::from("halt")));
    assert!(matches!(r, LegacyStep::Failed(e) if e == "halt"));
    assert!(stream.finished());
}

#[test]
fn legacy_success_is_bare_end() {
    let (mut stream, _tx) = AsyncStream::<u8, String>::new();
    let r = stream.poll_legacy(DriverEvent::Complete);
    assert!(matches!(r, LegacyStep::End));
}

#[test]
fn overwrite_before_drain_keeps_latest_item() {
    // Sending again before the slot is drained silently replaces the first
    // item: the documented producer-discipline hazard.
    let (mut stream, mut tx) = AsyncStream::<u8, String>::new();
    let _ = tx.send(1);
    let _ = tx.send(2);
    let r = stream.poll_next(DriverEvent::Pending);
    assert!(matches!(r, StreamStep::Item(2)));
    let r = stream.poll_next(DriverEvent::Pending);
    assert!(matches!(r, StreamStep::Pending));
}

#[test]
fn final_item_without_suspension_is_lost() {
    // The producer emits "x" and completes at once, never awaiting the
    // suspension point: completion takes precedence, so "x" is dropped.
    let (mut stream, mut tx) = AsyncStream::<&str, String>::new();
    let _ = tx.send("x");
    let r = stream.poll_next(DriverEvent::Complete);
    assert!(matches!(r, StreamStep::End));
    assert!(stream.finished());
}

#[test]
fn single_item_with_suspension_is_preserved() {
    // The disciplined counterpart: the producer awaits the suspension point
    // after the emit, so "x" is drained before completion is observed.
    let (mut stream, mut tx) = AsyncStream::<&str, String>::new();
    let _ = tx.send("x");
    let r = stream.poll_next(DriverEvent::Pending);
    assert!(matches!(r, StreamStep::Item("x")));
    let r = stream.poll_next(DriverEvent::Complete);
    assert!(matches!(r, StreamStep::End));
}

#[test]
fn producer_routine_bytes_then_success() {
    // A real producer routine: an async block that emits the bytes 0..10,
    // awaiting its suspension point after each emit, then returns success.
    let (mut stream, tx) = AsyncStream::<u8, String>::new();
    let mut fut: Driver<String> = Box::pin(async move {
        let mut tx: Sender<u8, String> = tx;
        for i in 0u8..10 {
            let sf = tx.send(i);
            Suspend(sf).await;
        }
        Ok(())
    });
    let mut seen: Vec<u8> = Vec::new();
    loop {
        match drive(&mut stream, &mut fut) {
            StreamStep::Item(i) => seen.push(i),
            StreamStep::Pending => {}
            StreamStep::End => break,
            StreamStep::Failed(e) => panic!("unexpected failure: {}", e),
        }
    }
    assert_eq!(seen, vec![0, 1, 2, 3, 4, 5, 6, 7, 8, 9]);
    assert_eq!(seen.len(), 10);
    assert!(stream.finished());
}

#[test]
fn producer_routine_with_unrelated_await() {
    // The producer awaits something unrelated between two emits; the
    // consumer sees a bare pending step there, then the items in order.
    let (mut stream, tx) = AsyncStream::<u8, String>::new();
    let mut fut: Driver<String> = Box::pin(async move {
        let mut tx: Sender<u8, String> = tx;
        let sf = tx.send(1);
        Suspend(sf).await;
        // An unrelated suspension: pending once without any emit.
        Suspend(SenderFuture::new()).await;
        let sf = tx.send(2);
        Suspend(sf).await;
        Ok(())
    });
    let mut trace: Vec<String> = Vec::new();
    loop {
        match drive(&mut stream, &mut fut) {
            StreamStep::Item(i) => trace.push(format!("item {}", i)),
            StreamStep::Pending => trace.push(String::from("pending")),
            StreamStep::End => break,
            StreamStep::Failed(e) => panic!("unexpected failure: {}", e),
        }
    }
    assert_eq!(trace, vec!["item 1", "pending", "item 2"]);
}

#[test]
fn producer_routine_items_then_failure() {
    let (mut stream, tx) = AsyncStream::<u8, i32>::new();
    let mut fut: Driver<i32> = Box::pin(async move {
        let mut tx: Sender<u8, i32> = tx;
        for i in 0u8..3 {
            let sf = tx.send(i);
            Suspend(sf).await;
        }
        Err(-5)
    });
    let mut seen: Vec<u8> = Vec::new();
    let mut failure: Option<i32> = None;
    loop {
        match drive(&mut stream, &mut fut) {
            StreamStep::Item(i) => seen.push(i),
            StreamStep::Pending => {}
            StreamStep::End => break,
            StreamStep::Failed(e) => {
                failure = Some(e);
                break;
            }
        }
    }
    assert_eq!(seen, vec![0, 1, 2]);
    assert_eq!(failure, Some(-5));
}
