use vstd::prelude::*;

use crate::handle::{completed_state, Handle};
use crate::queue::ThreadQueue;
use crate::status::Status;

verus! {

/// The work handed out by one tick of the main loop.
pub struct TickPlan {
    /// Coroutine tickets to resume, spawned ones first, then deferred ones,
    /// each class in the order it was pushed.
    pub threads: Vec<u64>,
    /// How many of `threads`, from the front, came from the spawn queue.
    pub num_spawned: usize,
    /// Local future tickets to adopt, in the order they were pushed.
    pub futures: Vec<u64>,
}

/// Scheduler state of one interpreter: the spawn (front) queue, the defer
/// (back) queue, the local futures queue, the run status and the error hook.
pub struct Runtime {
    queue_spawn: ThreadQueue,
    queue_defer: ThreadQueue,
    queue_futures: ThreadQueue,
    status: Status,
    error_callback: bool,
    errors_reported: u64,
    front_log: Ghost<Seq<u64>>,
    front_out: Ghost<Seq<u64>>,
    back_log: Ghost<Seq<u64>>,
    back_out: Ghost<Seq<u64>>,
}

impl Runtime {
    pub closed spec fn wf(&self) -> bool {
        &&& self.queue_spawn.wf()
        &&& self.queue_defer.wf()
        &&& self.queue_futures.wf()
        &&& self.front_log@ == self.front_out@ + self.queue_spawn.items()
        &&& self.back_log@ == self.back_out@ + self.queue_defer.items()
    }

    /// Every coroutine ticket ever pushed on the spawn queue, in push order.
    pub closed spec fn pushed_front(&self) -> Seq<u64> {
        self.front_log@
    }

    /// Every spawn ticket handed out for resumption so far, in dispatch order.
    pub closed spec fn dispatched_front(&self) -> Seq<u64> {
        self.front_out@
    }

    /// Every coroutine ticket ever pushed on the defer queue, in push order.
    pub closed spec fn pushed_back(&self) -> Seq<u64> {
        self.back_log@
    }

    /// Every defer ticket handed out for resumption so far, in dispatch order.
    pub closed spec fn dispatched_back(&self) -> Seq<u64> {
        self.back_out@
    }

    /// Coroutine tickets waiting in the spawn queue, oldest first.
    pub closed spec fn spawned(&self) -> Seq<u64> {
        self.queue_spawn.items()
    }

    /// Coroutine tickets waiting in the defer queue, oldest first.
    pub closed spec fn deferred(&self) -> Seq<u64> {
        self.queue_defer.items()
    }

    /// Local future tickets waiting for adoption, oldest first.
    pub closed spec fn pending_futures(&self) -> Seq<u64> {
        self.queue_futures.items()
    }

    pub closed spec fn status_spec(&self) -> Status {
        self.status
    }

    pub closed spec fn has_error_callback_spec(&self) -> bool {
        self.error_callback
    }

    /// How many coroutine errors have been reported so far.
    pub closed spec fn errors_spec(&self) -> nat {
        self.errors_reported as nat
    }

    /// Both runtimes hold the same queued work and the same push / dispatch history.
    pub open spec fn same_work(&self, other: Runtime) -> bool {
        &&& self.spawned() == other.spawned()
        &&& self.deferred() == other.deferred()
        &&& self.pending_futures() == other.pending_futures()
        &&& self.pushed_front() == other.pushed_front()
        &&& self.dispatched_front() == other.dispatched_front()
        &&& self.pushed_back() == other.pushed_back()
        &&& self.dispatched_back() == other.dispatched_back()
    }

    /// All three queues are empty.
    pub open spec fn quiescent(&self) -> bool {
        &&& self.spawned().len() == 0
        &&& self.deferred().len() == 0
        &&& self.pending_futures().len() == 0
    }

    /// A new runtime: not started, nothing queued, the default error hook installed.
    pub fn new() -> (r: Runtime)
        ensures
            r.wf(),
            r.status_spec() == Status::NotStarted,
            r.quiescent(),
            r.pushed_front() == Seq::<u64>::empty(),
            r.pushed_back() == Seq::<u64>::empty(),
            r.has_error_callback_spec(),
            r.errors_spec() == 0,
    {
        Runtime {
            queue_spawn: ThreadQueue::new(),
            queue_defer: ThreadQueue::new(),
            queue_futures: ThreadQueue::new(),
            status: Status::NotStarted,
            error_callback: true,
            errors_reported: 0,
            front_log: Ghost(Seq::empty()),
            front_out: Ghost(Seq::empty()),
            back_log: Ghost(Seq::empty()),
            back_out: Ghost(Seq::empty()),
        }
    }

    pub fn status(&self) -> (r: Status)
        ensures
            r == self.status_spec(),
    {
        self.status
    }

    pub fn has_error_callback(&self) -> (r: bool)
        ensures
            r == self.has_error_callback_spec(),
    {
        self.error_callback
    }

    pub fn errors_reported(&self) -> (r: u64)
        ensures
            r == self.errors_spec(),
    {
        self.errors_reported
    }

    /// Installs an error hook, replacing any earlier one; not while running.
    pub fn set_error_callback(&mut self)
        requires
            old(self).status_spec() != Status::Running,
        ensures
            final(self).has_error_callback_spec(),
            final(self).wf() == old(self).wf(),
            final(self).status_spec() == old(self).status_spec(),
            final(self).same_work(*old(self)),
            final(self).errors_spec() == old(self).errors_spec(),
    {
        self.error_callback = true;
    }

    /// Clears the error hook, the default one included; not while running.
    pub fn remove_error_callback(&mut self)
        requires
            old(self).status_spec() != Status::Running,
        ensures
            !final(self).has_error_callback_spec(),
            final(self).wf() == old(self).wf(),
            final(self).status_spec() == old(self).status_spec(),
            final(self).same_work(*old(self)),
            final(self).errors_spec() == old(self).errors_spec(),
    {
        self.error_callback = false;
    }

    /// Queues a coroutine ticket on the spawn queue.
    pub fn push_thread_front(&mut self, ticket: u64)
        requires
            old(self).wf(),
        ensures
            final(self).wf(),
            final(self).spawned() == old(self).spawned().push(ticket),
            final(self).deferred() == old(self).deferred(),
            final(self).pending_futures() == old(self).pending_futures(),
            final(self).pushed_front() == old(self).pushed_front().push(ticket),
            final(self).pushed_back() == old(self).pushed_back(),
            final(self).dispatched_front() == old(self).dispatched_front(),
            final(self).dispatched_back() == old(self).dispatched_back(),
            final(self).status_spec() == old(self).status_spec(),
            final(self).has_error_callback_spec() == old(self).has_error_callback_spec(),
            final(self).errors_spec() == old(self).errors_spec(),
    {
        self.queue_spawn.push(ticket);
        self.front_log = Ghost(self.front_log@.push(ticket));
        assert(self.front_log@ =~= self.front_out@ + self.queue_spawn.items());
    }

    /// Queues a coroutine ticket on the defer queue.
    pub fn push_thread_back(&mut self, ticket: u64)
        requires
            old(self).wf(),
        ensures
            final(self).wf(),
            final(self).spawned() == old(self).spawned(),
            final(self).deferred() == old(self).deferred().push(ticket),
            final(self).pending_futures() == old(self).pending_futures(),
            final(self).pushed_front() == old(self).pushed_front(),
            final(self).pushed_back() == old(self).pushed_back().push(ticket),
            final(self).dispatched_front() == old(self).dispatched_front(),
            final(self).dispatched_back() == old(self).dispatched_back(),
            final(self).status_spec() == old(self).status_spec(),
            final(self).has_error_callback_spec() == old(self).has_error_callback_spec(),
            final(self).errors_spec() == old(self).errors_spec(),
    {
        self.queue_defer.push(ticket);
        self.back_log = Ghost(self.back_log@.push(ticket));
        assert(self.back_log@ =~= self.back_out@ + self.queue_defer.items());
    }

    /// Queues a local future ticket for adoption by the local executor.
    pub fn push_future(&mut self, ticket: u64)
        requires
            old(self).wf(),
        ensures
            final(self).wf(),
            final(self).spawned() == old(self).spawned(),
            final(self).deferred() == old(self).deferred(),
            final(self).pending_futures() == old(self).pending_futures().push(ticket),
            final(self).pushed_front() == old(self).pushed_front(),
            final(self).pushed_back() == old(self).pushed_back(),
            final(self).dispatched_front() == old(self).dispatched_front(),
            final(self).dispatched_back() == old(self).dispatched_back(),
            final(self).status_spec() == old(self).status_spec(),
            final(self).has_error_callback_spec() == old(self).has_error_callback_spec(),
            final(self).errors_spec() == old(self).errors_spec(),
    {
        self.queue_futures.push(ticket);
    }

    /// Whether any queue has work waiting: the wake-up condition of the main loop.
    pub fn has_work(&self) -> (r: bool)
        ensures
            r == !self.quiescent(),
    {
        self.queue_spawn.listen() || self.queue_defer.listen() || self.queue_futures.listen()
    }

    /// First action of a run.
    pub fn start_run(&mut self)
        requires
            old(self).status_spec() == Status::NotStarted,
        ensures
            final(self).status_spec() == Status::Running,
            old(self).status_spec().may_follow(final(self).status_spec()),
            final(self).wf() == old(self).wf(),
            final(self).same_work(*old(self)),
            final(self).has_error_callback_spec() == old(self).has_error_callback_spec(),
            final(self).errors_spec() == old(self).errors_spec(),
    {
        self.status = Status::Running;
    }

    /// Drains the three queues after a wake-up: every spawned coroutine
    /// first, then every deferred one, then the local futures, each in the
    /// order it was pushed. Anything pushed later lands in the next tick.
    pub fn drain_tick(&mut self) -> (plan: TickPlan)
        requires
            old(self).wf(),
        ensures
            final(self).wf(),
            final(self).quiescent(),
            plan.threads@ == old(self).spawned() + old(self).deferred(),
            plan.num_spawned == old(self).spawned().len(),
            plan.futures@ == old(self).pending_futures(),
            final(self).dispatched_front() == old(self).dispatched_front() + old(
                self,
            ).spawned(),
            final(self).dispatched_back() == old(self).dispatched_back() + old(self).deferred(),
            final(self).pushed_front() == old(self).pushed_front(),
            final(self).pushed_back() == old(self).pushed_back(),
            final(self).status_spec() == old(self).status_spec(),
            final(self).has_error_callback_spec() == old(self).has_error_callback_spec(),
            final(self).errors_spec() == old(self).errors_spec(),
    {
        let mut threads = self.queue_spawn.drain();
        let num_spawned = threads.len();
        let mut deferred = self.queue_defer.drain();
        threads.append(&mut deferred);
        let futures = self.queue_futures.drain();
        self.front_out = Ghost(self.front_out@ + old(self).queue_spawn.items());
        self.back_out = Ghost(self.back_out@ + old(self).queue_defer.items());
        assert(self.front_log@ =~= self.front_out@ + self.queue_spawn.items());
        assert(self.back_log@ =~= self.back_out@ + self.queue_defer.items());
        TickPlan { threads, num_spawned, futures }
    }

    /// Ends a tick once the drained work has been handed to the local
    /// executor: the run is over exactly when that executor has no task left
    /// and nothing is queued, and the status then becomes `Completed`.
    pub fn finish_tick(&mut self, executor_empty: bool) -> (done: bool)
        requires
            old(self).status_spec() == Status::Running,
        ensures
            done == (executor_empty && old(self).quiescent()),
            done ==> final(self).status_spec() == Status::Completed,
            done ==> final(self).quiescent(),
            old(self).wf() && done ==> final(self).dispatched_front() == final(self).pushed_front()
                && final(self).dispatched_back() == final(self).pushed_back(),
            !done ==> final(self).status_spec() == Status::Running,
            old(self).status_spec().may_follow(final(self).status_spec()),
            final(self).wf() == old(self).wf(),
            final(self).same_work(*old(self)),
            final(self).has_error_callback_spec() == old(self).has_error_callback_spec(),
            final(self).errors_spec() == old(self).errors_spec(),
    {
        let done = executor_empty && self.queue_spawn.is_empty() && self.queue_defer.is_empty()
            && self.queue_futures.is_empty();
        if done {
            self.status = Status::Completed;
        }
        done
    }

    /// Records how a resumed coroutine ended: the result goes to its handle,
    /// an error is counted, and the return value says whether the error hook
    /// must be called with it.
    pub fn thread_finished<R, E>(
        &mut self,
        handle: &mut Handle<Result<R, E>>,
        outcome: Result<R, E>,
    ) -> (call_hook: bool)
        requires
            old(self).errors_spec() < u64::MAX,
        ensures
            call_hook == (outcome is Err && old(self).has_error_callback_spec()),
            final(handle).state() == completed_state(old(handle).state(), outcome),
            final(self).errors_spec() == old(self).errors_spec() + if outcome is Err {
                1nat
            } else {
                0nat
            },
            final(self).wf() == old(self).wf(),
            final(self).status_spec() == old(self).status_spec(),
            final(self).same_work(*old(self)),
            final(self).has_error_callback_spec() == old(self).has_error_callback_spec(),
    {
        let failed = outcome.is_err();
        handle.complete(outcome);
        if failed {
            self.errors_reported = self.errors_reported + 1;
        }
        failed && self.error_callback
    }
}

/// Across the whole life of a runtime, each class hands out its coroutine
/// tickets in push order: what has been dispatched is always a prefix of what
/// was pushed, and once nothing is queued every pushed ticket has been
/// dispatched exactly once.
pub proof fn lemma_dispatch_follows_push(rt: Runtime)
    requires
        rt.wf(),
    ensures
        rt.dispatched_front().len() <= rt.pushed_front().len(),
        rt.pushed_front().subrange(0, rt.dispatched_front().len() as int) == rt.dispatched_front(),
        rt.dispatched_back().len() <= rt.pushed_back().len(),
        rt.pushed_back().subrange(0, rt.dispatched_back().len() as int) == rt.dispatched_back(),
        rt.quiescent() ==> rt.dispatched_front() == rt.pushed_front() && rt.dispatched_back()
            == rt.pushed_back(),
{
    assert(rt.pushed_front().subrange(0, rt.dispatched_front().len() as int) =~= rt.dispatched_front());
    assert(rt.pushed_back().subrange(0, rt.dispatched_back().len() as int) =~= rt.dispatched_back());
    if rt.quiescent() {
        assert(rt.pushed_front() =~= rt.dispatched_front());
        assert(rt.pushed_back() =~= rt.dispatched_back());
    }
}

/// Within one tick, every drained spawn ticket is dispatched before any
/// drained defer ticket, and each class keeps its own order.
pub proof fn lemma_spawn_before_defer(spawned: Seq<u64>, deferred: Seq<u64>)
    ensures
        ({
            let threads = spawned + deferred;
            &&& threads.len() == spawned.len() + deferred.len()
            &&& forall|i: int| 0 <= i < spawned.len() ==> #[trigger] threads[i] == spawned[i]
            &&& forall|j: int|
                0 <= j < deferred.len() ==> #[trigger] threads[spawned.len() + j] == deferred[j]
        }),
{
    let threads = spawned + deferred;
    assert forall|j: int| 0 <= j < deferred.len() implies #[trigger] threads[spawned.len() + j]
        == deferred[j] by {
    }
}

/// How many of the outcomes are errors.
pub open spec fn count_failed(failed: Seq<bool>) -> nat
    decreases failed.len(),
{
    if failed.len() == 0 {
        0
    } else {
        count_failed(failed.drop_last()) + if failed.last() {
            1nat
        } else {
            0nat
        }
    }
}

/// Reporting the outcomes of a series of coroutines one by one, starting
/// from a count of zero, counts exactly the coroutines that failed: one error
/// report per erroring coroutine, none for a successful one.
pub proof fn lemma_errors_counted(failed: Seq<bool>, counts: Seq<nat>)
    requires
        counts.len() == failed.len() + 1,
        counts[0] == 0,
        forall|i: int|
            0 <= i < failed.len() ==> #[trigger] counts[i + 1] == counts[i] + if failed[i] {
                1nat
            } else {
                0nat
            },
    ensures
        counts.last() == count_failed(failed),
    decreases failed.len(),
{
    if failed.len() > 0 {
        let n = failed.len() - 1;
        let f = failed.drop_last();
        let c = counts.drop_last();
        assert forall|i: int| 0 <= i < f.len() implies #[trigger] c[i + 1] == c[i] + if f[i] {
            1nat
        } else {
            0nat
        } by {
            assert(counts[i + 1] == counts[i] + if failed[i] {
                1nat
            } else {
                0nat
            });
        }
        lemma_errors_counted(f, c);
        assert(counts[n + 1] == counts[n] + if failed[n] {
            1nat
        } else {
            0nat
        });
    }
}

} // verus!
