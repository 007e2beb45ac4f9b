use vstd::prelude::*;

use crate::events::WorkerEvents;
use crate::text::{contains, has_substring};

verus! {

#[verifier::external_type_specification]
#[verifier::external_body]
pub struct ExAnyhowError(anyhow::Error);

/// The text found in the message of a run that was stopped on purpose.
pub const TERMINATED_MARKER: &'static str = "execution terminated";

/// Whether a run error's message says that the loop was stopped on purpose.
pub open spec fn is_termination_message(msg: Seq<char>) -> bool {
    has_substring(msg, TERMINATED_MARKER@)
}

/// Raised when a run ended as terminated but no authoritative outcome was sent.
#[derive(Debug, Clone, Copy, PartialEq, Eq)]
pub enum SupervisorError {
    MissingTerminationEvent,
}

pub open spec fn run_view(run: Result<(), String>) -> Result<(), Seq<char>> {
    match run {
        Ok(()) => Ok(()),
        Err(m) => Err(m@),
    }
}

/// Whether `ev` is an uncaught-exception outcome carrying exactly `msg` and no cpu time yet.
pub open spec fn is_uncaught(ev: WorkerEvents, msg: Seq<char>) -> bool {
    match ev {
        WorkerEvents::UncaughtException { exception, cpu_time_used } => exception@ == msg
            && cpu_time_used == 0,
        _ => false,
    }
}

/// The outcome of a run, stated over the error message.
pub open spec fn classified(
    run: Result<(), Seq<char>>,
    termination: Option<WorkerEvents>,
    r: Result<WorkerEvents, SupervisorError>,
) -> bool {
    match run {
        Ok(()) => r == Ok::<WorkerEvents, SupervisorError>(WorkerEvents::EventLoopCompleted),
        Err(msg) => if is_termination_message(msg) {
            match termination {
                Some(ev) => r == Ok::<WorkerEvents, SupervisorError>(ev),
                None => r == Err::<WorkerEvents, SupervisorError>(
                    SupervisorError::MissingTerminationEvent,
                ),
            }
        } else {
            match r {
                Ok(ev) => is_uncaught(ev, msg),
                Err(_) => false,
            }
        },
    }
}

/// Classifies the exit of a worker's run call.
pub fn classify_run_exit(run: Result<(), String>, termination: Option<WorkerEvents>) -> (r: Result<
    WorkerEvents,
    SupervisorError,
>)
    ensures
        classified(run_view(run), termination, r),
{
    match run {
        Ok(()) => Ok(WorkerEvents::EventLoopCompleted),
        Err(msg) => {
            if contains(msg.as_str(), TERMINATED_MARKER) {
                match termination {
                    Some(ev) => Ok(ev),
                    None => Err(SupervisorError::MissingTerminationEvent),
                }
            } else {
                Ok(WorkerEvents::UncaughtException { exception: msg, cpu_time_used: 0 })
            }
        },
    }
}

} // verus!

verus! {

/// One unit of execution capacity, identified for the process lifetime.
#[derive(Debug, Clone, Copy, PartialEq, Eq)]
pub struct Worker {
    pub id: u64,
}

/// The two capabilities a worker variant offers its supervisor: turning a
/// boot error into an outcome, and classifying how the run call ended.
pub trait WorkerHandler {
    /// Turns a failure to instantiate the worker into its outcome.
    fn handle_error(&self, error: anyhow::Error) -> (r: WorkerEvents)
        ensures
            r is BootFailure,
            vstd::string::to_string_from_display_ensures::<anyhow::Error>(&error, r->BootFailure_msg),
    ;

    /// Classifies how the worker's run call ended; `termination` is what the
    /// termination receiver holds at that moment.
    fn handle_exit(&self, run: Result<(), anyhow::Error>, termination: Option<WorkerEvents>) -> (r:
        Result<WorkerEvents, SupervisorError>)
        ensures
            run is Ok ==> r == Ok::<WorkerEvents, SupervisorError>(WorkerEvents::EventLoopCompleted),
            run is Err ==> exists|text: String|
                vstd::string::to_string_from_display_ensures::<anyhow::Error>(&run->Err_0, text)
                    && classified(Err(text@), termination, r),
    ;
}

impl WorkerHandler for Worker {
    fn handle_error(&self, error: anyhow::Error) -> (r: WorkerEvents) {
        boot_failure(error.to_string())
    }

    fn handle_exit(&self, run: Result<(), anyhow::Error>, termination: Option<WorkerEvents>) -> (r:
        Result<WorkerEvents, SupervisorError>) {
        let run_text: Result<(), String> = match run {
            Ok(()) => Ok(()),
            Err(e) => Err(e.to_string()),
        };
        classify_run_exit(run_text, termination)
    }
}

/// The outcome of a worker that never reached a runnable state.
pub fn boot_failure(msg: String) -> (r: WorkerEvents)
    ensures
        r == (WorkerEvents::BootFailure { msg }),
{
    WorkerEvents::BootFailure { msg }
}

/// A run error that does not say "execution terminated" always yields an
/// uncaught exception carrying that message, never a completed loop and never
/// the contract violation.
pub proof fn lemma_other_errors_are_uncaught(
    msg: Seq<char>,
    termination: Option<WorkerEvents>,
    r: Result<WorkerEvents, SupervisorError>,
)
    requires
        !is_termination_message(msg),
        classified(Err(msg), termination, r),
    ensures
        r is Ok,
        is_uncaught(r->Ok_0, msg),
        r->Ok_0 != WorkerEvents::EventLoopCompleted,
{
}

/// When the run stopped on purpose and an outcome was pushed on the
/// termination channel, that outcome is the worker's outcome, whatever the
/// rest of the error text says.
pub proof fn lemma_signalled_outcome_wins(
    msg: Seq<char>,
    ev: WorkerEvents,
    r: Result<WorkerEvents, SupervisorError>,
)
    requires
        is_termination_message(msg),
        classified(Err(msg), Some(ev), r),
    ensures
        r == Ok::<WorkerEvents, SupervisorError>(ev),
{
}

/// On the terminated path the outcome depends only on the value pushed on
/// the termination channel: two runs whose error texts both contain the
/// marker, wherever it stands, end with the same outcome for the same value.
pub proof fn lemma_termination_ignores_error_text(
    msg1: Seq<char>,
    msg2: Seq<char>,
    ev: WorkerEvents,
    r1: Result<WorkerEvents, SupervisorError>,
    r2: Result<WorkerEvents, SupervisorError>,
)
    requires
        is_termination_message(msg1),
        is_termination_message(msg2),
        classified(Err(msg1), Some(ev), r1),
        classified(Err(msg2), Some(ev), r2),
    ensures
        r1 == r2,
        r1 == Ok::<WorkerEvents, SupervisorError>(ev),
{
}

/// The outcome of one worker, from the result of instantiating it (`Err`
/// holds the boot error's message) and, when that succeeded, of its run call.
pub open spec fn supervised(
    boot: Result<Result<(), Seq<char>>, Seq<char>>,
    termination: Option<WorkerEvents>,
    r: Result<WorkerEvents, SupervisorError>,
) -> bool {
    match boot {
        Err(msg) => r is Ok && r->Ok_0 is BootFailure && r->Ok_0->BootFailure_msg@ == msg,
        Ok(run) => classified(run, termination, r),
    }
}

pub open spec fn boot_view(boot: Result<Result<(), String>, String>) -> Result<
    Result<(), Seq<char>>,
    Seq<char>,
> {
    match boot {
        Err(m) => Err(m@),
        Ok(run) => Ok(run_view(run)),
    }
}

/// Drives one worker's result to its single outcome: a failed instantiation
/// is a boot failure and never consults the termination receiver.
pub fn supervise(boot: Result<Result<(), String>, String>, termination: Option<WorkerEvents>) -> (r:
    Result<WorkerEvents, SupervisorError>)
    ensures
        supervised(boot_view(boot), termination, r),
{
    match boot {
        Err(msg) => Ok(boot_failure(msg)),
        Ok(run) => classify_run_exit(run, termination),
    }
}

/// Fills in the cpu time of an uncaught exception once resource accounting
/// for the worker is final; other outcomes are returned unchanged.
pub fn with_cpu_time(ev: WorkerEvents, cpu_time_used: u64) -> (r: WorkerEvents)
    ensures
        match ev {
            WorkerEvents::UncaughtException { exception, .. } => r
                == (WorkerEvents::UncaughtException { exception, cpu_time_used }),
            _ => r == ev,
        },
{
    match ev {
        WorkerEvents::UncaughtException { exception, .. } => WorkerEvents::UncaughtException {
            exception,
            cpu_time_used,
        },
        other => other,
    }
}

} // verus!
