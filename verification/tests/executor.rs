use exec::{
    ExpectValueReceiver, RunLoop, ScheduleTask, Scheduler, SyncWaitReceiver, ThenReceiver,
    WaitResult,
};
use std::marker::PhantomData;

#[test]
fn test_run_loop() {
    let mut run_loop: RunLoop<ExpectValueReceiver<()>> = RunLoop::new();
    let mut scheduler = run_loop.get_scheduler();
    let sender: ScheduleTask<ExpectValueReceiver<()>> = scheduler.schedule();
    let mut op = sender.connect(ExpectValueReceiver::new(()));
    // Schedule the work on the run loop
    op.start_on(&mut run_loop);
    run_loop.finish();
    // Drain the work in the run loop
    let outs = run_loop.run();
    assert_eq!(outs.len(), 1);
}

#[test]
fn run_loop_runs_tasks_in_push_order() {
    let mut run_loop = RunLoop::new();
    for i in 0..5u64 {
        let task = ThenReceiver {
            func: move |_: ()| -> u64 { i },
            receiver: SyncWaitReceiver::<u64, ()>::new(),
            _phantom: PhantomData,
        };
        run_loop.push_front(task);
    }
    run_loop.finish();
    let outs = run_loop.run();
    assert_eq!(outs.len(), 5);
    for (i, out) in outs.into_iter().enumerate() {
        match out {
            WaitResult::Value(v) => assert_eq!(v, i as u64),
            _ => panic!("a task completed through the wrong channel"),
        }
    }
}

#[test]
fn pop_back_yields_oldest_first() {
    let mut run_loop = RunLoop::new();
    run_loop.push_front(ExpectValueReceiver::new(()));
    run_loop.push_front(ExpectValueReceiver::new(()));
    let first = run_loop.pop_back();
    assert!(first.is_some());
    run_loop.finish();
    let second = run_loop.pop_back();
    assert!(second.is_some());
    let none = run_loop.pop_back();
    assert!(none.is_none());
}

#[test]
fn finish_keeps_pending_tasks() {
    let mut run_loop = RunLoop::new();
    run_loop.push_front(ExpectValueReceiver::new(()));
    run_loop.push_front(ExpectValueReceiver::new(()));
    run_loop.push_front(ExpectValueReceiver::new(()));
    run_loop.finish();
    let outs = run_loop.run();
    assert_eq!(outs.len(), 3);
}
