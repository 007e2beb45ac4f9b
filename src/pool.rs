use vstd::prelude::*;

use crate::policy::{decide, decide_spec, PolicyDecision, SupervisorPolicy, WorkerPoolPolicy};

verus! {

/// What a request gets from the pool.
#[derive(Debug, Clone, Copy, PartialEq, Eq)]
pub enum AcquireResult {
    /// An already live worker serves the request.
    Reused(u64),
    /// A new worker was registered under this id; its supervisor must be started.
    Created(u64),
    /// No slot is free; wait for one to free up and ask again.
    Wait,
    /// The wait for a slot took longer than the configured timeout.
    WaitTimeout,
    /// The pool will create no more workers.
    Exhausted,
    /// The pool is shutting down and admits no requests.
    ShuttingDown,
}

/// The set of live workers and the state that decides who serves a request.
pub struct PoolManager {
    pub policy: WorkerPoolPolicy,
    /// Ids of the live workers, each once, in order of creation.
    pub live: Vec<u64>,
    /// The id the next created worker gets; every id ever given is below it.
    pub next_id: u64,
    /// Set once the pool may create no more workers.
    pub exhausted: bool,
    pub shutting_down: bool,
}

/// The live worker that a reusing policy hands a request to.
pub open spec fn first_live(live: Seq<u64>) -> Option<u64> {
    if live.len() == 0 {
        None
    } else {
        Some(live[0])
    }
}

/// Whether waiting `waited_ms` has used up the wait `timeout_ms`.
pub open spec fn wait_elapsed(timeout_ms: Option<u64>, waited_ms: u64) -> bool {
    match timeout_ms {
        Some(t) => waited_ms >= t,
        None => false,
    }
}

impl PoolManager {
    pub open spec fn wf(&self) -> bool {
        &&& self.policy.wf()
        &&& self.live@.len() <= self.policy.max_parallelism
        &&& self.live@.no_duplicates()
        &&& forall|i: int| 0 <= i < self.live@.len() ==> self.live@[i] < self.next_id
        &&& self.policy.supervisor_policy == SupervisorPolicy::Oneshot ==> (self.next_id > 0
            && self.live@.len() == 0 ==> self.exhausted)
    }

    /// The decision the policy engine makes in this state.
    pub open spec fn decision(&self) -> PolicyDecision {
        decide_spec(self.policy, self.live@.len(), first_live(self.live@), self.exhausted)
    }

    /// What `acquire_worker` returns in this state after waiting `waited_ms`.
    pub open spec fn acquire_spec(&self, waited_ms: u64) -> AcquireResult {
        if self.shutting_down && !self.exhausted {
            AcquireResult::ShuttingDown
        } else {
            match self.decision() {
                PolicyDecision::Reuse(id) => AcquireResult::Reused(id),
                PolicyDecision::CreateNew => if self.next_id == u64::MAX {
                    AcquireResult::Exhausted
                } else {
                    AcquireResult::Created(self.next_id)
                },
                PolicyDecision::Busy => if wait_elapsed(
                    self.policy.request_wait_timeout_ms,
                    waited_ms,
                ) {
                    AcquireResult::WaitTimeout
                } else {
                    AcquireResult::Wait
                },
                PolicyDecision::Exhausted => AcquireResult::Exhausted,
            }
        }
    }

    /// An empty pool under `policy`.
    pub fn new(policy: WorkerPoolPolicy) -> (r: PoolManager)
        requires
            policy.wf(),
        ensures
            r.wf(),
            r.policy == policy,
            r.live@ == Seq::<u64>::empty(),
            r.next_id == 0,
            !r.exhausted,
            !r.shutting_down,
    {
        PoolManager { policy, live: Vec::new(), next_id: 0, exhausted: false, shutting_down: false }
    }

    pub fn live_count(&self) -> (r: usize)
        ensures
            r == self.live@.len(),
    {
        self.live.len()
    }

    /// Assigns a worker to one request: reuses a live one, registers a new
    /// one, or says why neither can happen now. `waited_ms` is how long the
    /// caller has already waited for a slot.
    pub fn acquire_worker(&mut self, waited_ms: u64) -> (r: AcquireResult)
        requires
            old(self).wf(),
        ensures
            final(self).wf(),
            r == old(self).acquire_spec(waited_ms),
            final(self).policy == old(self).policy,
            final(self).exhausted == old(self).exhausted,
            final(self).shutting_down == old(self).shutting_down,
            match r {
                AcquireResult::Created(id) => final(self).live@ == old(self).live@.push(id)
                    && final(self).next_id == id + 1,
                _ => final(self).live@ == old(self).live@ && final(self).next_id == old(
                    self,
                ).next_id,
            },
    {
        if self.shutting_down && !self.exhausted {
            return AcquireResult::ShuttingDown;
        }
        let existing = if self.live.len() == 0 {
            None
        } else {
            Some(self.live[0])
        };
        match decide(&self.policy, self.live.len(), existing, self.exhausted) {
            PolicyDecision::Reuse(id) => AcquireResult::Reused(id),
            PolicyDecision::CreateNew => {
                if self.next_id == u64::MAX {
                    return AcquireResult::Exhausted;
                }
                let id = self.next_id;
                self.live.push(id);
                self.next_id = id + 1;
                AcquireResult::Created(id)
            },
            PolicyDecision::Busy => {
                let elapsed = match self.policy.request_wait_timeout_ms {
                    Some(t) => waited_ms >= t,
                    None => false,
                };
                if elapsed {
                    AcquireResult::WaitTimeout
                } else {
                    AcquireResult::Wait
                }
            },
            PolicyDecision::Exhausted => AcquireResult::Exhausted,
        }
    }
}


/// Whether `post` is `pre` after the outcome of worker `id` was recorded.
pub open spec fn retired(pre: PoolManager, id: u64, post: PoolManager) -> bool {
    &&& post.policy == pre.policy
    &&& post.next_id == pre.next_id
    &&& post.shutting_down == pre.shutting_down
    &&& !post.live@.contains(id)
    &&& if pre.live@.contains(id) {
        exists|i: int|
            0 <= i < pre.live@.len() && pre.live@[i] == id && post.live@ == pre.live@.remove(i)
    } else {
        post.live@ == pre.live@
    }
    &&& post.exhausted == (pre.exhausted || (pre.live@.contains(id)
        && pre.policy.supervisor_policy == SupervisorPolicy::Oneshot))
}

impl PoolManager {
    /// Records that worker `id` reached its outcome: it leaves the live set,
    /// and under oneshot the pool is exhausted from then on. Returns whether
    /// the worker was live, so that a second report of it changes nothing.
    pub fn record_outcome(&mut self, id: u64) -> (r: bool)
        requires
            old(self).wf(),
        ensures
            final(self).wf(),
            r == old(self).live@.contains(id),
            retired(*old(self), id, *final(self)),
    {
        let n = self.live.len();
        let mut i: usize = 0;
        while i < n
            invariant
                n == self.live@.len(),
                *self == *old(self),
                self.wf(),
                i <= n,
                forall|k: int| 0 <= k < i ==> self.live@[k] != id,
            decreases n - i,
        {
            if self.live[i] == id {
                let ghost pre = self.live@;
                self.live.remove(i);
                proof {
                    assert(self.live@ == pre.remove(i as int));
                    assert(pre.no_duplicates());
                    assert forall|a: int, b: int|
                        0 <= a < b < self.live@.len() implies self.live@[a] != self.live@[b] by {
                        let a2 = if a < i { a } else { a + 1 };
                        let b2 = if b < i { b } else { b + 1 };
                        assert(self.live@[a] == pre[a2]);
                        assert(self.live@[b] == pre[b2]);
                        assert(a2 < b2);
                        assert(pre[a2] != pre[b2]);
                    }
                    assert(!self.live@.contains(id)) by {
                        if self.live@.contains(id) {
                            let j = choose|j: int| 0 <= j < self.live@.len() && self.live@[j] == id;
                            let j2 = if j < i { j } else { j + 1 };
                            assert(pre[j2] == id);
                            assert(pre[i as int] == id);
                            assert(j2 != i);
                        }
                    }
                    assert(pre.contains(id));
                }
                if self.policy.supervisor_policy.is_oneshot() {
                    self.exhausted = true;
                }
                return true;
            }
            i = i + 1;
        }
        false
    }

    /// Stops admitting requests and returns the live workers, each of which
    /// must now be signalled to terminate.
    pub fn begin_shutdown(&mut self) -> (r: Vec<u64>)
        requires
            old(self).wf(),
        ensures
            final(self).wf(),
            r@ == old(self).live@,
            final(self).shutting_down,
            final(self).live@ == old(self).live@,
            final(self).policy == old(self).policy,
            final(self).next_id == old(self).next_id,
            final(self).exhausted == old(self).exhausted,
    {
        self.shutting_down = true;
        self.live.clone()
    }
}

/// Under every policy, a well-formed pool never holds more live workers than
/// the configured maximum; every operation of the pool keeps it well formed.
pub proof fn lemma_live_within_cap(pool: PoolManager)
    requires
        pool.wf(),
    ensures
        pool.live@.len() <= pool.policy.max_parallelism,
{
}

/// Under oneshot, once the single worker's outcome is recorded, every later
/// request gets `Exhausted`, never a new worker.
pub proof fn lemma_oneshot_exhausted_after_outcome(
    pre: PoolManager,
    id: u64,
    post: PoolManager,
    waited_ms: u64,
)
    requires
        pre.wf(),
        pre.policy.supervisor_policy == SupervisorPolicy::Oneshot,
        pre.live@.contains(id),
        retired(pre, id, post),
    ensures
        post.exhausted,
        post.acquire_spec(waited_ms) == AcquireResult::Exhausted,
{
}

/// Under per-request with a cap of one, a second request while the first
/// worker lives waits, or times out once the configured wait has elapsed; it
/// gets no other answer. Once that worker retires, the request gets a new worker.
pub proof fn lemma_per_request_single_slot(
    pre: PoolManager,
    id: u64,
    post: PoolManager,
    waited_ms: u64,
)
    requires
        pre.wf(),
        pre.policy.supervisor_policy == SupervisorPolicy::PerRequest,
        pre.policy.max_parallelism == 1,
        pre.live@ == seq![id],
        !pre.exhausted,
        !pre.shutting_down,
        retired(pre, id, post),
        pre.next_id < u64::MAX,
    ensures
        pre.acquire_spec(waited_ms) == (if wait_elapsed(pre.policy.request_wait_timeout_ms, waited_ms) {
            AcquireResult::WaitTimeout
        } else {
            AcquireResult::Wait
        }),
        post.acquire_spec(waited_ms) == AcquireResult::Created(pre.next_id),
{
    assert(pre.live@.contains(id)) by {
        assert(pre.live@[0] == id);
    }
    assert(post.live@.len() == 0);
}

} // verus!
