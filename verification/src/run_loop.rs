//! The run-loop executor: a FIFO queue of pending tasks with a
//! drain-then-stop shutdown protocol.
//!
//! A task is a receiver waiting for its "you are now running" unit value.
//! Producers enqueue with `push_front`; the drain side pops with `pop_back`,
//! so tasks run in the order they were pushed. `finish` only sets the stop
//! flag: it never drops pending tasks, and `run` keeps delivering until the
//! queue is observed empty with the stop flag set.

use crate::receiver::SetValue;
use crate::scheduler::Scheduler;
use core::marker::PhantomData;
use vstd::prelude::*;

verus! {

/// A FIFO task queue with a stop flag.
pub struct RunLoop<R> {
    queue: Vec<R>,
    stop: bool,
}

impl<R: SetValue<Value = ()>> RunLoop<R> {
    /// The pending tasks in the order they will run: index 0 runs first.
    pub closed spec fn tasks(&self) -> Seq<R> {
        self.queue@
    }

    /// Whether `finish` has been called.
    pub closed spec fn stopped(&self) -> bool {
        self.stop
    }

    /// Every queued task is still entitled to its unit value completion.
    pub closed spec fn wf(&self) -> bool {
        forall|i: int| 0 <= i < self.queue@.len() ==> #[trigger] self.queue@[i].value_pre(())
    }

    /// Create an idle loop: no tasks, not stopped.
    pub fn new() -> (rl: Self)
        ensures
            rl.tasks() == Seq::<R>::empty(),
            !rl.stopped(),
            rl.wf(),
    {
        RunLoop { queue: Vec::new(), stop: false }
    }

    /// Enqueue `receiver` at the producer end of the queue. Tasks must not
    /// be pushed after `finish`: a stopped loop would never run them.
    pub fn push_front(&mut self, receiver: R)
        requires
            old(self).wf(),
            !old(self).stopped(),
            receiver.value_pre(()),
        ensures
            final(self).wf(),
            !final(self).stopped(),
            final(self).tasks() == old(self).tasks().push(receiver),
    {
        self.queue.push(receiver);
    }

    /// Remove the oldest pending task, if any. An empty queue yields a task
    /// only once the stop flag excludes any further waiting, so the caller
    /// must have stopped the loop before draining it dry.
    pub fn pop_back(&mut self) -> (r: Option<R>)
        requires
            old(self).wf(),
            old(self).stopped() || old(self).tasks().len() > 0,
        ensures
            final(self).wf(),
            final(self).stopped() == old(self).stopped(),
            old(self).tasks().len() > 0 ==> r == Some(old(self).tasks()[0])
                && final(self).tasks() == old(self).tasks().remove(0),
            old(self).tasks().len() == 0 ==> r is None && final(self).tasks() == old(
                self,
            ).tasks(),
    {
        if self.queue.len() > 0 {
            Some(self.queue.remove(0))
        } else {
            None
        }
    }

    /// Request shutdown: set the stop flag. Idempotent, and it does not
    /// cancel or flush pending tasks; it only lets `run` return once the
    /// queue is empty.
    pub fn finish(&mut self)
        requires
            old(self).wf(),
        ensures
            final(self).wf(),
            final(self).stopped(),
            final(self).tasks() == old(self).tasks(),
    {
        self.stop = true;
    }

    /// Drain the queue: deliver the unit value to every pending task, oldest
    /// first, and return their outputs in that order. Returns only once the
    /// queue is empty with the stop flag set, so every task pushed before
    /// `finish` runs, in push order, before `run` returns.
    pub fn run(&mut self) -> (outs: Vec<R::Output>)
        requires
            old(self).wf(),
            old(self).stopped(),
        ensures
            final(self).wf(),
            final(self).stopped(),
            final(self).tasks().len() == 0,
            outs@.len() == old(self).tasks().len(),
            forall|i: int|
                0 <= i < outs@.len() ==> old(self).tasks()[i].value_post((), #[trigger] outs@[i]),
    {
        let mut outs: Vec<R::Output> = Vec::new();
        while self.queue.len() > 0
            invariant
                self.wf(),
                self.stopped(),
                outs@.len() <= old(self).tasks().len(),
                self.tasks() == old(self).tasks().subrange(
                    outs@.len() as int,
                    old(self).tasks().len() as int,
                ),
                forall|i: int|
                    0 <= i < outs@.len() ==> old(self).tasks()[i].value_post(
                        (),
                        #[trigger] outs@[i],
                    ),
            decreases self.queue.len(),
        {
            let receiver = self.queue.remove(0);
            let out = receiver.set_value(());
            outs.push(out);
        }
        outs
    }

    /// A scheduler whose senders enqueue onto a loop carrying the same task type.
    pub fn get_scheduler(&self) -> (s: RunLoopScheduler)
        ensures
            s == RunLoopScheduler,
    {
        RunLoopScheduler
    }
}

/// The scheduler handle of a run loop: a pure descriptor whose senders bind
/// to a concrete loop only when their operation is started on it.
#[derive(Clone, Copy)]
pub struct RunLoopScheduler;

impl<R: SetValue<Value = ()>> Scheduler<R> for RunLoopScheduler {
    type Sender = ScheduleTask<R>;

    open spec fn schedule_spec(&self) -> ScheduleTask<R> {
        ScheduleTask { _phantom: PhantomData }
    }

    fn schedule(&mut self) -> (s: ScheduleTask<R>) {
        ScheduleTask { _phantom: PhantomData }
    }
}

/// The sender a run-loop scheduler produces: once connected and started on a
/// loop, it enqueues its receiver there to be completed with the unit value.
pub struct ScheduleTask<R> {
    pub _phantom: PhantomData<R>,
}

impl<R: SetValue<Value = ()>> ScheduleTask<R> {
    /// Pair this sender with `receiver`, producing the operation that will
    /// enqueue it. Connecting never itself enqueues anything.
    pub fn connect(self, receiver: R) -> (op: Operation<R>)
        requires
            receiver.value_pre(()),
        ensures
            op.ready(),
            op.task() == receiver,
    {
        Operation { receiver: Some(receiver) }
    }
}

/// The operation state of a connected schedule sender: it holds the receiver
/// until it is started on a loop.
pub struct Operation<R> {
    pub receiver: Option<R>,
}

impl<R: SetValue<Value = ()>> Operation<R> {
    /// Whether the operation may still be started.
    pub open spec fn ready(&self) -> bool {
        self.receiver is Some && self.receiver->0.value_pre(())
    }

    /// The task this operation enqueues when started.
    pub open spec fn task(&self) -> R {
        self.receiver->0
    }

    /// Begin execution: enqueue the receiver on `run_loop`, to be completed
    /// with the unit value when the loop drains. An operation is started at
    /// most once.
    pub fn start_on(&mut self, run_loop: &mut RunLoop<R>)
        requires
            old(self).ready(),
            old(run_loop).wf(),
            !old(run_loop).stopped(),
        ensures
            !final(self).ready(),
            final(run_loop).wf(),
            !final(run_loop).stopped(),
            final(run_loop).tasks() == old(run_loop).tasks().push(old(self).task()),
    {
        let receiver = self.receiver.take().unwrap();
        run_loop.push_front(receiver);
    }
}

} // verus!
