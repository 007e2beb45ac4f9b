use vstd::prelude::*;

use crate::events::WorkerEvents;

verus! {

/// Whether `ev` is a termination with exactly `reason`.
pub open spec fn is_terminated_for(ev: WorkerEvents, reason: Seq<char>) -> bool {
    match ev {
        WorkerEvents::Terminated { reason: r } => r@ == reason,
        _ => false,
    }
}

/// The authoritative outcome sent to every live worker when shutdown begins.
pub fn shutdown_event() -> (r: WorkerEvents)
    ensures
        is_terminated_for(r, "shutdown"@),
{
    WorkerEvents::Terminated { reason: "shutdown".to_string() }
}

/// The outcome recorded for a worker that missed the shutdown deadline.
pub fn deadline_exceeded_event() -> (r: WorkerEvents)
    ensures
        is_terminated_for(r, "deadline_exceeded"@),
{
    WorkerEvents::Terminated { reason: "deadline_exceeded".to_string() }
}

/// Whether a report that came `elapsed_sec` after shutdown began is still in
/// the grace window of `deadline_sec` (none at all when it is zero).
pub open spec fn within_grace(deadline_sec: u64, elapsed_sec: u64) -> bool {
    deadline_sec > 0 && elapsed_sec < deadline_sec
}

/// Drains the live workers within a deadline, then settles the stragglers.
pub struct ShutdownController {
    pub deadline_sec: u64,
    /// The workers that were live when shutdown began, each once.
    pub workers: Vec<u64>,
    /// The final outcome of each of `workers`, once it has one.
    pub outcomes: Vec<Option<WorkerEvents>>,
}

/// Whether `post` is `pre` after worker `id` reported `ev` `elapsed_sec` after
/// shutdown began: a report in the grace window settles a worker that has no
/// outcome yet; any other report changes nothing.
pub open spec fn reported(
    pre: ShutdownController,
    id: u64,
    ev: WorkerEvents,
    elapsed_sec: u64,
    post: ShutdownController,
) -> bool {
    &&& post.deadline_sec == pre.deadline_sec
    &&& post.workers@ == pre.workers@
    &&& post.outcomes@.len() == pre.outcomes@.len()
    &&& forall|k: int|
        0 <= k < pre.workers@.len() ==> post.outcomes@[k] == if pre.workers@[k] == id
            && pre.outcomes@[k] is None && within_grace(pre.deadline_sec, elapsed_sec) {
            Some(ev)
        } else {
            pre.outcomes@[k]
        }
}

/// Whether `post` is `pre` after every worker still without an outcome was
/// force-killed.
pub open spec fn forced(pre: ShutdownController, post: ShutdownController) -> bool {
    &&& post.deadline_sec == pre.deadline_sec
    &&& post.workers@ == pre.workers@
    &&& post.outcomes@.len() == pre.outcomes@.len()
    &&& forall|k: int|
        0 <= k < pre.workers@.len() ==> if pre.outcomes@[k] is Some {
            post.outcomes@[k] == pre.outcomes@[k]
        } else {
            post.outcomes@[k] is Some && is_terminated_for(
                post.outcomes@[k]->Some_0,
                "deadline_exceeded"@,
            )
        }
}

impl ShutdownController {
    pub open spec fn wf(&self) -> bool {
        &&& self.workers@.len() == self.outcomes@.len()
        &&& self.workers@.no_duplicates()
    }

    /// Whether every worker has its final outcome.
    pub open spec fn complete(&self) -> bool {
        forall|k: int| 0 <= k < self.outcomes@.len() ==> (#[trigger] self.outcomes@[k]) is Some
    }

    /// Starts draining `live` with a grace window of `deadline_sec` seconds.
    pub fn new(deadline_sec: u64, live: Vec<u64>) -> (r: ShutdownController)
        requires
            live@.no_duplicates(),
        ensures
            r.wf(),
            r.deadline_sec == deadline_sec,
            r.workers@ == live@,
            forall|k: int| 0 <= k < r.outcomes@.len() ==> r.outcomes@[k] is None,
    {
        let n = live.len();
        let mut outcomes: Vec<Option<WorkerEvents>> = Vec::new();
        while outcomes.len() < n
            invariant
                outcomes@.len() <= n,
                forall|k: int| 0 <= k < outcomes@.len() ==> outcomes@[k] is None,
            decreases n - outcomes@.len(),
        {
            outcomes.push(None);
        }
        ShutdownController { deadline_sec, workers: live, outcomes }
    }

    /// Whether the grace window is over `elapsed_sec` after shutdown began.
    pub fn grace_over(&self, elapsed_sec: u64) -> (r: bool)
        ensures
            r == !within_grace(self.deadline_sec, elapsed_sec),
    {
        self.deadline_sec == 0 || elapsed_sec >= self.deadline_sec
    }

    /// Records that worker `id` reported `ev` `elapsed_sec` after shutdown
    /// began. Returns whether the report settled the worker.
    pub fn on_report(&mut self, id: u64, ev: WorkerEvents, elapsed_sec: u64) -> (r: bool)
        requires
            old(self).wf(),
        ensures
            final(self).wf(),
            reported(*old(self), id, ev, elapsed_sec, *final(self)),
            r == exists|k: int|
                0 <= k < old(self).workers@.len() && old(self).workers@[k] == id && old(
                    self,
                ).outcomes@[k] is None && within_grace(old(self).deadline_sec, elapsed_sec),
    {
        if self.grace_over(elapsed_sec) {
            return false;
        }
        let n = self.workers.len();
        let mut i: usize = 0;
        while i < n
            invariant
                *self == *old(self),
                self.wf(),
                n == self.workers@.len(),
                i <= n,
                within_grace(self.deadline_sec, elapsed_sec),
                forall|k: int| 0 <= k < i ==> self.workers@[k] != id,
            decreases n - i,
        {
            if self.workers[i] == id {
                if self.outcomes[i].is_none() {
                    self.outcomes.set(i, Some(ev));
                    assert forall|k: int| 0 <= k < n && k != i implies self.workers@[k] != id by {
                        assert(old(self).workers@.no_duplicates());
                    }
                    return true;
                }
                assert forall|k: int| 0 <= k < n && k != i implies self.workers@[k] != id by {
                    assert(old(self).workers@.no_duplicates());
                }
                return false;
            }
            i = i + 1;
        }
        false
    }

    /// Settles every worker still without an outcome as having missed the deadline.
    pub fn force_remaining(&mut self)
        requires
            old(self).wf(),
        ensures
            final(self).wf(),
            forced(*old(self), *final(self)),
            final(self).complete(),
    {
        let n = self.outcomes.len();
        let mut i: usize = 0;
        while i < n
            invariant
                self.deadline_sec == old(self).deadline_sec,
                self.workers@ == old(self).workers@,
                self.wf(),
                n == self.outcomes@.len(),
                n == old(self).outcomes@.len(),
                i <= n,
                forall|k: int| i <= k < n ==> self.outcomes@[k] == old(self).outcomes@[k],
                forall|k: int|
                    0 <= k < i ==> if old(self).outcomes@[k] is Some {
                        self.outcomes@[k] == old(self).outcomes@[k]
                    } else {
                        self.outcomes@[k] is Some && is_terminated_for(
                            self.outcomes@[k]->Some_0,
                            "deadline_exceeded"@,
                        )
                    },
            decreases n - i,
        {
            if self.outcomes[i].is_none() {
                self.outcomes.set(i, Some(deadline_exceeded_event()));
            }
            i = i + 1;
        }
    }

    /// Whether every worker has its final outcome.
    pub fn is_complete(&self) -> (r: bool)
        requires
            self.wf(),
        ensures
            r == self.complete(),
    {
        let n = self.outcomes.len();
        let mut i: usize = 0;
        while i < n
            invariant
                n == self.outcomes@.len(),
                i <= n,
                forall|k: int| 0 <= k < i ==> self.outcomes@[k] is Some,
            decreases n - i,
        {
            if self.outcomes[i].is_none() {
                return false;
            }
            i = i + 1;
        }
        true
    }
}

/// A worker that reports its natural outcome inside the grace window keeps
/// it; one that has not reported when the window closes is recorded as
/// exactly `Terminated { reason: "deadline_exceeded" }`.
pub proof fn lemma_graceful_outcome(
    pre: ShutdownController,
    k: int,
    ev: WorkerEvents,
    elapsed_sec: u64,
    mid: ShutdownController,
    post: ShutdownController,
)
    requires
        pre.wf(),
        0 <= k < pre.workers@.len(),
        pre.outcomes@[k] is None,
        reported(pre, pre.workers@[k], ev, elapsed_sec, mid),
        forced(mid, post),
    ensures
        post.outcomes@[k] is Some,
        within_grace(pre.deadline_sec, elapsed_sec) ==> post.outcomes@[k] == Some(ev),
        !within_grace(pre.deadline_sec, elapsed_sec) ==> is_terminated_for(
            post.outcomes@[k]->Some_0,
            "deadline_exceeded"@,
        ),
{
}

/// A worker that never reports is recorded as having missed the deadline.
pub proof fn lemma_silent_worker_exceeds_deadline(
    pre: ShutdownController,
    k: int,
    post: ShutdownController,
)
    requires
        pre.wf(),
        0 <= k < pre.workers@.len(),
        pre.outcomes@[k] is None,
        forced(pre, post),
    ensures
        post.outcomes@[k] is Some,
        is_terminated_for(post.outcomes@[k]->Some_0, "deadline_exceeded"@),
{
}

} // verus!
