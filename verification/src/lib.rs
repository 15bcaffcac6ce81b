//! A composable asynchronous execution library built on the sender/receiver
//! model: asynchronous work is described by inert, composable *senders*,
//! which are connected to one-shot *receivers* to produce *operation states*
//! that are then explicitly started.
//!
//! Completion flows back as a value: starting an operation delivers exactly
//! one completion (value, error, or stopped) to its receiver and hands the
//! receiver's output back to the caller, so every stage of a sender chain is
//! verified against the contract of the stage below it.

pub mod receiver;

mod operation_state;
pub use operation_state::OperationState;

mod sender;
pub use sender::Sender;

mod scheduler;
pub use scheduler::Scheduler;

mod run_loop;
pub use run_loop::{Operation, RunLoop, RunLoopScheduler, ScheduleTask};

mod just;
pub use just::{just, lemma_just_sender, Just};

mod just_error;
pub use just_error::{just_error, lemma_just_error_sender, JustError};

mod then_adaptor;
pub use then_adaptor::{
    lemma_then_associative, lemma_then_error_untouched, lemma_then_forwards_error,
    lemma_then_forwards_stopped, lemma_then_receiver_value, lemma_then_sender, then_with, Then,
    ThenOperation, ThenReceiver,
};

mod sync_wait;
pub use sync_wait::{
    lemma_single_completion, recorded_outcome, sync_wait, SyncWaitReceiver, WaitResult,
};

mod submit;
pub use submit::{lemma_submit_receiver_error, lemma_submit_receiver_value, submit, SubmitReceiver};

mod start_detached;
pub use start_detached::{start_detached, StartDetachedReceiver};

mod awaitable;
pub use awaitable::{awaited_outcome, AwaitResult, PollOutcome, Receiver, SenderAwaitable};

mod errors;
pub use errors::TestError;

mod receivers;
pub use receivers::{ExpectErrorReceiver, ExpectValueReceiver};
