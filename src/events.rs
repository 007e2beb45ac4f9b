use vstd::prelude::*;

verus! {

/// The single terminal classification of why a worker's execution ended.
#[derive(Debug, Clone, PartialEq, Eq)]
pub enum WorkerEvents {
    /// The worker never reached a runnable state.
    BootFailure { msg: String },
    /// The engine exited abnormally with an unhandled error.
    UncaughtException { exception: String, cpu_time_used: u64 },
    /// The engine's event loop drained normally.
    EventLoopCompleted,
    /// The worker was stopped deliberately.
    Terminated { reason: String },
}

} // verus!
