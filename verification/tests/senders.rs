use exec::receiver::{SetError, SetStopped, SetValue};
use exec::{
    just, just_error, start_detached, submit, sync_wait, then_with, ExpectErrorReceiver,
    ExpectValueReceiver, JustError, OperationState, Sender, SyncWaitReceiver, TestError, Then,
    WaitResult,
};

#[test]
fn test_just() {
    let sender = exec::Just::new(42);
    let mut operation = sender.connect(ExpectValueReceiver::new(42));
    operation.start();
}

#[test]
fn test_just_error() {
    let sender = JustError::new(TestError);
    let mut operation = sender.connect(ExpectErrorReceiver::new(TestError));
    operation.start();
}

#[test]
fn test_then() {
    let just_sender = just(42);
    let then_sender = Then::new(just_sender, |x: i32| x + 1);
    let then_sender = Then::new(then_sender, |x: i32| x + 1);
    let then_sender = Then::new(then_sender, |x: i32| x + 1);
    let mut operation = then_sender.connect(ExpectValueReceiver::new(45));
    operation.start();
}

#[test]
fn test_sync_wait() {
    let sender = just(42);
    let sender = then_with(sender, |v: i32| v + 1);
    let r: Result<Option<i32>, ()> = sync_wait(sender);
    assert_eq!(r, Ok(Some(43)));
}

#[test]
fn test_submit() {
    let just_sender = just(42);
    let receiver = ExpectValueReceiver::new(42);
    submit(just_sender, receiver);
}

#[test]
fn test_start_detached() {
    let sender = just(1);
    start_detached::<_, i32, ()>(sender);
}

#[test]
fn sync_wait_reports_error() {
    let r: Result<Option<()>, TestError> = sync_wait(just_error(TestError));
    assert_eq!(r, Err(TestError));
}

#[test]
fn then_never_invokes_transform_on_error() {
    let sender = then_with(just_error(TestError), |_x: i32| -> i32 {
        panic!("transform must not run on the error channel")
    });
    let r: Result<Option<i32>, TestError> = sync_wait(sender);
    assert_eq!(r, Err(TestError));
}

#[test]
fn then_composes_associatively() {
    let split: Result<Option<i32>, ()> =
        sync_wait(then_with(then_with(just(42), |v: i32| v + 1), |v: i32| v + 1));
    let fused: Result<Option<i32>, ()> = sync_wait(then_with(just(42), |v: i32| (v + 1) + 1));
    assert_eq!(split, Ok(Some(44)));
    assert_eq!(fused, Ok(Some(44)));
    assert_eq!(split, fused);
}

#[test]
fn submit_forwards_output() {
    let out: WaitResult<i32, ()> = submit(just(7), SyncWaitReceiver::new());
    assert!(matches!(out, WaitResult::Value(7)));
}

#[test]
fn sync_wait_receiver_records_each_channel_once() {
    let value: WaitResult<i32, TestError> = SyncWaitReceiver::new().set_value(5);
    assert!(matches!(value, WaitResult::Value(5)));
    let error: WaitResult<i32, TestError> = SyncWaitReceiver::new().set_error(TestError);
    assert!(matches!(error, WaitResult::Error(TestError)));
    let stopped: WaitResult<i32, TestError> = SyncWaitReceiver::new().set_stopped();
    assert!(matches!(stopped, WaitResult::Stopped));
}
