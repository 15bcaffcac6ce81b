use exec::{just, just_error, then_with, PollOutcome, SenderAwaitable, TestError};

#[test]
fn as_awaitable_test_awaitable() {
    let mut awaitable = SenderAwaitable::<_, i32, ()>::new(just(1));
    assert!(matches!(awaitable.poll(), PollOutcome::Pending));
    assert!(matches!(awaitable.poll(), PollOutcome::Ready(Ok(Some(1)))));
}

#[test]
fn into_awaitable_test_awaitable() {
    let sender = then_with(just(1), |x: i32| x + 1);
    let mut awaitable = SenderAwaitable::<_, i32, ()>::new(sender);
    assert!(matches!(awaitable.poll(), PollOutcome::Pending));
    assert!(matches!(awaitable.poll(), PollOutcome::Ready(Ok(Some(2)))));
}

#[test]
fn test_awaitable_error() {
    let mut awaitable = SenderAwaitable::<_, (), TestError>::new(just_error(TestError));
    assert!(matches!(awaitable.poll(), PollOutcome::Pending));
    assert!(matches!(awaitable.poll(), PollOutcome::Ready(Err(TestError))));
}

#[test]
fn poll_after_ready_stays_pending_without_restarting() {
    let mut awaitable = SenderAwaitable::<_, i32, ()>::new(just(3));
    assert!(matches!(awaitable.poll(), PollOutcome::Pending));
    assert!(matches!(awaitable.poll(), PollOutcome::Ready(Ok(Some(3)))));
    // the result was taken: later polls neither start the operation again
    // nor invoke the wake handle again
    assert!(matches!(awaitable.poll(), PollOutcome::Pending));
    assert!(matches!(awaitable.poll(), PollOutcome::Pending));
}
