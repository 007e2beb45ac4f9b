use edge_runtime::events::WorkerEvents;
use edge_runtime::router::{
    delivery_result, resolve_response, route_step, ConnectionState, RequestFailure, RouteStep,
};
use edge_runtime::pool::AcquireResult;
use edge_runtime::shutdown::{deadline_exceeded_event, shutdown_event, ShutdownController};

fn terminated(reason: &str) -> WorkerEvents {
    WorkerEvents::Terminated { reason: reason.to_string() }
}

#[test]
fn shutdown_events() {
    assert_eq!(shutdown_event(), terminated("shutdown"));
    assert_eq!(deadline_exceeded_event(), terminated("deadline_exceeded"));
}

#[test]
fn natural_outcome_before_deadline_is_kept() {
    let mut c = ShutdownController::new(5, vec![10, 11]);
    assert!(!c.is_complete());
    assert!(c.on_report(10, WorkerEvents::EventLoopCompleted, 2));
    assert!(!c.on_report(10, terminated("shutdown"), 3));
    assert!(!c.grace_over(4));
    assert!(c.grace_over(5));
    assert!(!c.on_report(11, WorkerEvents::EventLoopCompleted, 5));
    c.force_remaining();
    assert!(c.is_complete());
    assert_eq!(c.outcomes[0], Some(WorkerEvents::EventLoopCompleted));
    assert_eq!(c.outcomes[1], Some(terminated("deadline_exceeded")));
}

#[test]
fn zero_deadline_forces_immediately() {
    let mut c = ShutdownController::new(0, vec![1]);
    assert!(c.grace_over(0));
    assert!(!c.on_report(1, WorkerEvents::EventLoopCompleted, 0));
    c.force_remaining();
    assert_eq!(c.outcomes, vec![Some(terminated("deadline_exceeded"))]);
}

#[test]
fn empty_shutdown_is_complete() {
    let c = ShutdownController::new(3, vec![]);
    assert!(c.is_complete());
}

#[test]
fn router_steps() {
    assert_eq!(route_step(AcquireResult::Reused(4)), RouteStep::Deliver { worker: 4, fresh: false });
    assert_eq!(route_step(AcquireResult::Created(5)), RouteStep::Deliver { worker: 5, fresh: true });
    assert_eq!(route_step(AcquireResult::Wait), RouteStep::Wait);
    assert_eq!(route_step(AcquireResult::WaitTimeout), RouteStep::Fail(RequestFailure::WaitTimeout));
    assert_eq!(route_step(AcquireResult::Exhausted), RouteStep::Fail(RequestFailure::CapacityExhausted));
    assert_eq!(route_step(AcquireResult::ShuttingDown), RouteStep::Fail(RequestFailure::CapacityExhausted));
}

#[test]
fn closed_channel_fails_at_once() {
    assert_eq!(delivery_result(true), Ok(()));
    assert_eq!(delivery_result(false), Err(RequestFailure::WorkerUnavailable));
    assert_eq!(resolve_response::<u8>(None), Err(RequestFailure::ConnectionLost));
    assert_eq!(resolve_response(Some(7u8)), Ok(7));
    assert!(ConnectionState::Open.caller_listening());
    assert!(ConnectionState::HalfClosed.caller_listening());
    assert!(!ConnectionState::Closed.caller_listening());
}
