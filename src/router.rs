use vstd::prelude::*;

use crate::pool::AcquireResult;

verus! {

/// Why a request got no response from a worker.
#[derive(Debug, Clone, Copy, PartialEq, Eq)]
pub enum RequestFailure {
    /// The pool will create no more workers, or is shutting down.
    CapacityExhausted,
    /// The assigned worker's inbound channel is closed.
    WorkerUnavailable,
    /// No worker became free within the configured wait.
    WaitTimeout,
    /// The worker dropped the response sender without answering.
    ConnectionLost,
}

/// What the router does with a request after asking the pool for a worker.
#[derive(Debug, Clone, Copy, PartialEq, Eq)]
pub enum RouteStep {
    /// Deliver onto this worker's inbound channel; `fresh` says that its
    /// supervisor must be started first.
    Deliver { worker: u64, fresh: bool },
    /// Wait for a slot to free up, then ask the pool again.
    Wait,
    /// Answer the caller with this failure at once.
    Fail(RequestFailure),
}

pub open spec fn route_step_spec(r: AcquireResult) -> RouteStep {
    match r {
        AcquireResult::Reused(id) => RouteStep::Deliver { worker: id, fresh: false },
        AcquireResult::Created(id) => RouteStep::Deliver { worker: id, fresh: true },
        AcquireResult::Wait => RouteStep::Wait,
        AcquireResult::WaitTimeout => RouteStep::Fail(RequestFailure::WaitTimeout),
        AcquireResult::Exhausted => RouteStep::Fail(RequestFailure::CapacityExhausted),
        AcquireResult::ShuttingDown => RouteStep::Fail(RequestFailure::CapacityExhausted),
    }
}

/// Turns the pool's answer into the router's next step; no capacity answer
/// is dropped silently.
pub fn route_step(r: AcquireResult) -> (s: RouteStep)
    ensures
        s == route_step_spec(r),
{
    match r {
        AcquireResult::Reused(id) => RouteStep::Deliver { worker: id, fresh: false },
        AcquireResult::Created(id) => RouteStep::Deliver { worker: id, fresh: true },
        AcquireResult::Wait => RouteStep::Wait,
        AcquireResult::WaitTimeout => RouteStep::Fail(RequestFailure::WaitTimeout),
        AcquireResult::Exhausted => RouteStep::Fail(RequestFailure::CapacityExhausted),
        AcquireResult::ShuttingDown => RouteStep::Fail(RequestFailure::CapacityExhausted),
    }
}

/// The result of handing a request to a worker's inbound channel: a closed
/// channel fails the request at once.
pub fn delivery_result(sent: bool) -> (r: Result<(), RequestFailure>)
    ensures
        sent ==> r == Ok::<(), RequestFailure>(()),
        !sent ==> r == Err::<(), RequestFailure>(RequestFailure::WorkerUnavailable),
{
    if sent {
        Ok(())
    } else {
        Err(RequestFailure::WorkerUnavailable)
    }
}

/// What the caller gets from its response channel: the response, or a lost
/// connection where the sender was dropped without a value.
pub fn resolve_response<T>(received: Option<T>) -> (r: Result<T, RequestFailure>)
    ensures
        match received {
            Some(v) => r == Ok::<T, RequestFailure>(v),
            None => r == Err::<T, RequestFailure>(RequestFailure::ConnectionLost),
        },
{
    match received {
        Some(v) => Ok(v),
        None => Err(RequestFailure::ConnectionLost),
    }
}

/// State of a connection as seen by the worker serving it.
#[derive(Debug, Clone, Copy, PartialEq, Eq)]
pub enum ConnectionState {
    Open,
    HalfClosed,
    Closed,
}

impl ConnectionState {
    /// Whether the caller may still read a response.
    pub fn caller_listening(&self) -> (r: bool)
        ensures
            r == (*self != ConnectionState::Closed),
    {
        match self {
            ConnectionState::Closed => false,
            _ => true,
        }
    }
}

} // verus!
