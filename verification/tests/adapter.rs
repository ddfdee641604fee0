// Driving the adapter through the poll protocol: the tests play the role of
// the scheduler (polling) and of the loader / completion callback (storing a
// value and triggering the re-poll).

use callback_future::{CallbackFuture, PollStep, ResultSlot};

fn expect_ready<T>(step: PollStep<T>) -> T {
    match step {
        PollStep::Ready(value) => value,
        PollStep::InvokeLoader => panic!("adapter asked for the loader instead of being ready"),
        PollStep::Pending => panic!("adapter was not ready"),
    }
}

#[test]
fn test_complete_sync() {
    let mut fu = CallbackFuture::new();
    // First poll takes the loader; the loader completes synchronously,
    // inside its own invocation.
    assert_eq!(fu.poll(), PollStep::InvokeLoader);
    fu.complete(42);
    // The wake signal triggers the re-poll that yields the value.
    assert_eq!(expect_ready(fu.poll()), 42);
}

#[test]
fn test_ready() {
    let mut fu = CallbackFuture::ready(42);
    assert_eq!(expect_ready(fu.poll()), 42);
}

#[test]
fn test_complete_async() {
    let mut fu = CallbackFuture::new();
    // First poll takes the loader, which only starts the real operation.
    assert_eq!(fu.poll(), PollStep::InvokeLoader);
    // The operation is still outstanding for a while; polls in between
    // report "not ready".
    assert_eq!(fu.poll(), PollStep::Pending);
    assert_eq!(fu.poll(), PollStep::Pending);
    // The callback finally fires (on its own thread, from the adapter's
    // point of view) and the triggered re-poll yields the value.
    fu.complete(42);
    assert_eq!(expect_ready(fu.poll()), 42);
}

#[test]
fn test_join() {
    // Three adapters joined: synchronous callback, ready, asynchronous
    // callback.  The join polls each until it is ready and keeps the
    // results in positional order, whatever the completion timing.
    let mut fu1 = CallbackFuture::new();
    let mut fu2 = CallbackFuture::ready(", ");
    let mut fu3 = CallbackFuture::new();

    // First round of polls.
    assert_eq!(fu1.poll(), PollStep::InvokeLoader);
    fu1.complete("Hello"); // fu1's loader completes before returning
    let r2 = expect_ready(fu2.poll()); // fu2 finishes first
    assert_eq!(fu3.poll(), PollStep::InvokeLoader); // fu3's loader hands off

    // fu1's wake signal has arrived; fu3 is still outstanding.
    let r1 = expect_ready(fu1.poll());
    assert_eq!(fu3.poll(), PollStep::Pending);

    // fu3's callback fires last, from elsewhere.
    fu3.complete("world!");
    let r3 = expect_ready(fu3.poll());

    // Completion order was fu2, fu1, fu3; the join keeps positional order.
    assert_eq!([r1, r2, r3].concat(), "Hello, world!");
}

#[test]
fn test_await() {
    // The same three adapters awaited one after the other instead of joined.
    let mut fu1 = CallbackFuture::new();
    assert_eq!(fu1.poll(), PollStep::InvokeLoader);
    assert_eq!(fu1.poll(), PollStep::Pending);
    fu1.complete("Hello"); // completes after a delay
    let r1 = expect_ready(fu1.poll());

    let mut fu2 = CallbackFuture::ready(", ");
    let r2 = expect_ready(fu2.poll());

    let mut fu3 = CallbackFuture::new();
    assert_eq!(fu3.poll(), PollStep::InvokeLoader);
    fu3.complete("world!"); // completes from another thread, quickly
    let r3 = expect_ready(fu3.poll());

    assert_eq!([r1, r2, r3].concat(), "Hello, world!");
}

#[test]
fn test_async_fn() {
    let mut fu = CallbackFuture::new();
    assert_eq!(fu.poll(), PollStep::InvokeLoader);
    assert_eq!(fu.poll(), PollStep::Pending);
    fu.complete("Hello, world!".to_string());
    assert_eq!(expect_ready(fu.poll()), "Hello, world!");
}

#[test]
fn test_ready_text() {
    let mut fu = CallbackFuture::ready("Test");
    assert_eq!(expect_ready(fu.poll()), "Test");
}

#[test]
fn test_loader_invoked_at_most_once() {
    // However many polls arrive before completion, only the first one asks
    // for the loader.
    let mut fu: CallbackFuture<u32> = CallbackFuture::new();
    assert_eq!(fu.poll(), PollStep::InvokeLoader);
    let mut i: usize = 0;
    while i < 5 {
        assert_eq!(fu.poll(), PollStep::Pending);
        i += 1;
    }
    fu.complete(7);
    assert_eq!(expect_ready(fu.poll()), 7);
}

#[test]
fn test_no_replay_after_consumption() {
    // Once the value is extracted the adapter is spent: further polls report
    // "not ready" forever.
    let mut fu = CallbackFuture::ready(5);
    assert_eq!(expect_ready(fu.poll()), 5);
    assert_eq!(fu.poll(), PollStep::Pending);
    assert_eq!(fu.poll(), PollStep::Pending);
}

#[test]
fn test_double_completion_last_write_wins() {
    // A second invocation of the completion callback is a caller contract
    // violation: it is not detected, the slot is overwritten.
    let mut fu = CallbackFuture::new();
    assert_eq!(fu.poll(), PollStep::InvokeLoader);
    fu.complete(1);
    fu.complete(2);
    assert_eq!(expect_ready(fu.poll()), 2);
}

#[test]
fn test_race_orderings_deliver_exactly_once() {
    // The callback racing the polls: whether it lands right after the loader
    // ran or only after several empty polls, exactly one poll yields the
    // value and none after it does.
    let mut early = CallbackFuture::new();
    assert_eq!(early.poll(), PollStep::InvokeLoader);
    early.complete(42);
    assert_eq!(expect_ready(early.poll()), 42);
    assert_eq!(early.poll(), PollStep::Pending);

    let mut late = CallbackFuture::new();
    assert_eq!(late.poll(), PollStep::InvokeLoader);
    assert_eq!(late.poll(), PollStep::Pending);
    assert_eq!(late.poll(), PollStep::Pending);
    late.complete(42);
    assert_eq!(expect_ready(late.poll()), 42);
    assert_eq!(late.poll(), PollStep::Pending);
}

#[test]
fn test_slot_store_and_take() {
    let mut slot = ResultSlot::empty();
    assert_eq!(slot.take(), None);
    slot.store(3);
    slot.store(4); // last write wins
    assert_eq!(slot.take(), Some(4));
    assert_eq!(slot.take(), None); // a value taken is gone

    let mut pre = ResultSlot::filled("x");
    assert_eq!(pre.take(), Some("x"));
}
