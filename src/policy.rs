use vstd::prelude::*;

use crate::text::str_equal;

verus! {

/// How the pool decides between reusing and creating workers.
#[derive(Debug, Clone, Copy, PartialEq, Eq)]
pub enum SupervisorPolicy {
    /// A live worker serves every request.
    PerWorker,
    /// Each request gets a fresh worker.
    PerRequest,
    /// One worker for the whole process lifetime.
    Oneshot,
}

impl SupervisorPolicy {
    pub fn is_oneshot(&self) -> (r: bool)
        ensures
            r == (*self == SupervisorPolicy::Oneshot),
    {
        match self {
            SupervisorPolicy::Oneshot => true,
            _ => false,
        }
    }

    /// The policy that `name` denotes, if any.
    pub open spec fn named(name: Seq<char>) -> Option<SupervisorPolicy> {
        if name == "per_worker"@ {
            Some(SupervisorPolicy::PerWorker)
        } else if name == "per_request"@ {
            Some(SupervisorPolicy::PerRequest)
        } else if name == "oneshot"@ {
            Some(SupervisorPolicy::Oneshot)
        } else {
            None
        }
    }

    /// Parses a policy name.
    pub fn from_name(name: &str) -> (r: Option<SupervisorPolicy>)
        ensures
            r == SupervisorPolicy::named(name@),
    {
        if str_equal(name, "per_worker") {
            Some(SupervisorPolicy::PerWorker)
        } else if str_equal(name, "per_request") {
            Some(SupervisorPolicy::PerRequest)
        } else if str_equal(name, "oneshot") {
            Some(SupervisorPolicy::Oneshot)
        } else {
            None
        }
    }
}

/// The pool's configuration, fixed for the process lifetime.
#[derive(Debug, Clone, Copy, PartialEq, Eq)]
pub struct WorkerPoolPolicy {
    pub supervisor_policy: SupervisorPolicy,
    pub max_parallelism: usize,
    /// How long a request may wait for a worker, in milliseconds; `None` waits forever.
    pub request_wait_timeout_ms: Option<u64>,
}

/// The worker cap that a configured value gives under `policy`: exactly one
/// under oneshot, else the value given (at least one), or `fallback`.
pub open spec fn effective_parallelism(
    policy: SupervisorPolicy,
    configured: Option<usize>,
    fallback: usize,
) -> usize {
    if policy == SupervisorPolicy::Oneshot {
        1
    } else {
        let n = match configured {
            Some(n) => n,
            None => fallback,
        };
        if n == 0 {
            1
        } else {
            n
        }
    }
}

impl WorkerPoolPolicy {
    pub open spec fn wf(&self) -> bool {
        &&& self.max_parallelism >= 1
        &&& self.supervisor_policy == SupervisorPolicy::Oneshot ==> self.max_parallelism == 1
    }

    /// Builds the configuration. An absent policy means per-worker; an absent
    /// cap means `fallback`; under oneshot the cap is forced to one.
    pub fn new(
        supervisor_policy: Option<SupervisorPolicy>,
        max_parallelism: Option<usize>,
        request_wait_timeout_ms: Option<u64>,
        fallback: usize,
    ) -> (r: WorkerPoolPolicy)
        ensures
            r.wf(),
            r.supervisor_policy == match supervisor_policy {
                Some(p) => p,
                None => SupervisorPolicy::PerWorker,
            },
            r.max_parallelism == effective_parallelism(r.supervisor_policy, max_parallelism, fallback),
            r.request_wait_timeout_ms == request_wait_timeout_ms,
    {
        let policy = match supervisor_policy {
            Some(p) => p,
            None => SupervisorPolicy::PerWorker,
        };
        let max = if policy.is_oneshot() {
            1
        } else {
            let n = match max_parallelism {
                Some(n) => n,
                None => fallback,
            };
            if n == 0 {
                1
            } else {
                n
            }
        };
        WorkerPoolPolicy {
            supervisor_policy: policy,
            max_parallelism: max,
            request_wait_timeout_ms,
        }
    }
}

/// Whether a configured cap is overridden by the oneshot policy, which asks
/// for a warning.
pub fn parallelism_overridden(policy: SupervisorPolicy, max_parallelism: Option<usize>) -> (r: bool)
    ensures
        r == (policy == SupervisorPolicy::Oneshot && match max_parallelism {
            Some(n) => n != 1,
            None => false,
        }),
{
    if policy.is_oneshot() {
        match max_parallelism {
            Some(n) => n != 1,
            None => false,
        }
    } else {
        false
    }
}

/// What the policy engine decides for one request.
#[derive(Debug, Clone, Copy, PartialEq, Eq)]
pub enum PolicyDecision {
    Reuse(u64),
    CreateNew,
    Busy,
    Exhausted,
}

/// The decision for a request, given the number of live workers, a live worker
/// that could serve it, and whether the pool may create no more workers.
pub open spec fn decide_spec(
    policy: WorkerPoolPolicy,
    live_count: nat,
    existing: Option<u64>,
    exhausted: bool,
) -> PolicyDecision {
    if exhausted {
        PolicyDecision::Exhausted
    } else {
        match policy.supervisor_policy {
            SupervisorPolicy::PerRequest => if live_count < policy.max_parallelism {
                PolicyDecision::CreateNew
            } else {
                PolicyDecision::Busy
            },
            _ => match existing {
                Some(id) => PolicyDecision::Reuse(id),
                None => if live_count < policy.max_parallelism {
                    PolicyDecision::CreateNew
                } else {
                    PolicyDecision::Busy
                },
            },
        }
    }
}

/// The policy engine: reuse, create, or reject for now.
pub fn decide(policy: &WorkerPoolPolicy, live_count: usize, existing: Option<u64>, exhausted: bool) -> (r:
    PolicyDecision)
    ensures
        r == decide_spec(*policy, live_count as nat, existing, exhausted),
{
    if exhausted {
        return PolicyDecision::Exhausted;
    }
    match policy.supervisor_policy {
        SupervisorPolicy::PerRequest => {
            if live_count < policy.max_parallelism {
                PolicyDecision::CreateNew
            } else {
                PolicyDecision::Busy
            }
        },
        _ => match existing {
            Some(id) => PolicyDecision::Reuse(id),
            None => {
                if live_count < policy.max_parallelism {
                    PolicyDecision::CreateNew
                } else {
                    PolicyDecision::Busy
                }
            },
        },
    }
}

} // verus!
