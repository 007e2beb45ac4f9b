use edge_runtime::policy::{
    decide, parallelism_overridden, PolicyDecision, SupervisorPolicy, WorkerPoolPolicy,
};
use edge_runtime::pool::{AcquireResult, PoolManager};

fn pool(policy: SupervisorPolicy, max: usize, wait: Option<u64>) -> PoolManager {
    PoolManager::new(WorkerPoolPolicy::new(Some(policy), Some(max), wait, 4))
}

#[test]
fn policy_names_parse() {
    assert_eq!(SupervisorPolicy::from_name("per_worker"), Some(SupervisorPolicy::PerWorker));
    assert_eq!(SupervisorPolicy::from_name("per_request"), Some(SupervisorPolicy::PerRequest));
    assert_eq!(SupervisorPolicy::from_name("oneshot"), Some(SupervisorPolicy::Oneshot));
    assert_eq!(SupervisorPolicy::from_name("Oneshot"), None);
    assert_eq!(SupervisorPolicy::from_name(""), None);
}

#[test]
fn oneshot_forces_single_worker() {
    let p = WorkerPoolPolicy::new(Some(SupervisorPolicy::Oneshot), Some(8), None, 4);
    assert_eq!(p.max_parallelism, 1);
    assert!(parallelism_overridden(SupervisorPolicy::Oneshot, Some(8)));
    assert!(parallelism_overridden(SupervisorPolicy::Oneshot, Some(0)));
    assert!(!parallelism_overridden(SupervisorPolicy::Oneshot, Some(1)));
    assert!(!parallelism_overridden(SupervisorPolicy::Oneshot, None));
    assert!(!parallelism_overridden(SupervisorPolicy::PerWorker, Some(8)));
}

#[test]
fn policy_defaults() {
    let p = WorkerPoolPolicy::new(None, None, Some(50), 6);
    assert_eq!(p.supervisor_policy, SupervisorPolicy::PerWorker);
    assert_eq!(p.max_parallelism, 6);
    assert_eq!(p.request_wait_timeout_ms, Some(50));
    let p = WorkerPoolPolicy::new(Some(SupervisorPolicy::PerRequest), Some(0), None, 6);
    assert_eq!(p.max_parallelism, 1);
}

#[test]
fn decide_cases() {
    let p = WorkerPoolPolicy::new(Some(SupervisorPolicy::PerWorker), Some(2), None, 4);
    assert_eq!(decide(&p, 0, None, false), PolicyDecision::CreateNew);
    assert_eq!(decide(&p, 1, Some(7), false), PolicyDecision::Reuse(7));
    assert_eq!(decide(&p, 2, None, false), PolicyDecision::Busy);
    assert_eq!(decide(&p, 0, None, true), PolicyDecision::Exhausted);
    let q = WorkerPoolPolicy::new(Some(SupervisorPolicy::PerRequest), Some(2), None, 4);
    assert_eq!(decide(&q, 1, Some(7), false), PolicyDecision::CreateNew);
    assert_eq!(decide(&q, 2, Some(7), false), PolicyDecision::Busy);
}

#[test]
fn burst_never_exceeds_cap() {
    for policy in [SupervisorPolicy::PerWorker, SupervisorPolicy::PerRequest, SupervisorPolicy::Oneshot] {
        let mut p = pool(policy, 3, Some(10));
        for _ in 0..20 {
            let _ = p.acquire_worker(0);
            assert!(p.live_count() <= p.policy.max_parallelism);
        }
    }
    let mut p = pool(SupervisorPolicy::PerRequest, 3, None);
    let mut created = 0;
    for _ in 0..10 {
        if let AcquireResult::Created(_) = p.acquire_worker(0) {
            created += 1;
        }
    }
    assert_eq!(created, 3);
    assert_eq!(p.live_count(), 3);
}

#[test]
fn per_worker_reuses_live_worker() {
    let mut p = pool(SupervisorPolicy::PerWorker, 2, None);
    assert_eq!(p.acquire_worker(0), AcquireResult::Created(0));
    assert_eq!(p.acquire_worker(0), AcquireResult::Reused(0));
    assert!(p.record_outcome(0));
    assert!(!p.record_outcome(0));
    assert_eq!(p.acquire_worker(0), AcquireResult::Created(1));
}

#[test]
fn oneshot_exhausted_after_outcome() {
    let mut p = pool(SupervisorPolicy::Oneshot, 5, None);
    assert_eq!(p.acquire_worker(0), AcquireResult::Created(0));
    assert_eq!(p.acquire_worker(0), AcquireResult::Reused(0));
    assert!(p.record_outcome(0));
    assert_eq!(p.acquire_worker(0), AcquireResult::Exhausted);
    assert_eq!(p.acquire_worker(1000), AcquireResult::Exhausted);
    assert_eq!(p.live_count(), 0);
}

#[test]
fn per_request_second_caller_waits_then_succeeds() {
    let mut p = pool(SupervisorPolicy::PerRequest, 1, Some(100));
    assert_eq!(p.acquire_worker(0), AcquireResult::Created(0));
    assert_eq!(p.acquire_worker(0), AcquireResult::Wait);
    assert_eq!(p.acquire_worker(99), AcquireResult::Wait);
    assert!(p.record_outcome(0));
    assert_eq!(p.acquire_worker(99), AcquireResult::Created(1));
}

#[test]
fn per_request_second_caller_times_out() {
    let mut p = pool(SupervisorPolicy::PerRequest, 1, Some(100));
    assert_eq!(p.acquire_worker(0), AcquireResult::Created(0));
    assert_eq!(p.acquire_worker(100), AcquireResult::WaitTimeout);
    let mut q = pool(SupervisorPolicy::PerRequest, 1, None);
    assert_eq!(q.acquire_worker(0), AcquireResult::Created(0));
    assert_eq!(q.acquire_worker(u64::MAX), AcquireResult::Wait);
}

#[test]
fn shutdown_stops_admission() {
    let mut p = pool(SupervisorPolicy::PerWorker, 2, None);
    assert_eq!(p.acquire_worker(0), AcquireResult::Created(0));
    assert_eq!(p.begin_shutdown(), vec![0]);
    assert_eq!(p.acquire_worker(0), AcquireResult::ShuttingDown);
}
