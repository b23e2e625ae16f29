use vstd::prelude::*;

use concurrent_queue::{ConcurrentQueue, PopError, PushError};

verus! {

#[verifier::external_type_specification]
#[verifier::external_body]
#[verifier::reject_recursive_types(T)]
pub struct ExConcurrentQueue<T>(ConcurrentQueue<T>);

#[verifier::external_type_specification]
#[verifier::external_body]
#[verifier::reject_recursive_types(T)]
pub struct ExPushError<T>(PushError<T>);

#[verifier::external_type_specification]
#[verifier::external_body]
pub struct ExPopError(PopError);

/// The tickets held by a queue, oldest first.
pub uninterp spec fn cq_items(q: ConcurrentQueue<u64>) -> Seq<u64>;

/// Whether the queue was made unbounded and has not been closed.
pub uninterp spec fn cq_open_unbounded(q: ConcurrentQueue<u64>) -> bool;

/// Relies on `ConcurrentQueue::unbounded`: a fresh queue is empty, open and
/// has no capacity limit.
#[verifier::external_body]
fn cq_unbounded() -> (r: ConcurrentQueue<u64>)
    ensures
        cq_items(r) == Seq::<u64>::empty(),
        cq_open_unbounded(r),
{
    ConcurrentQueue::unbounded()
}

/// Relies on `ConcurrentQueue::push`: on an unbounded queue that is not closed
/// the push succeeds and the value goes to the back.
#[verifier::external_body]
fn cq_push(q: &mut ConcurrentQueue<u64>, v: u64) -> (r: Result<(), PushError<u64>>)
    requires
        cq_open_unbounded(*old(q)),
    ensures
        r is Ok,
        cq_items(*final(q)) == cq_items(*old(q)).push(v),
        cq_open_unbounded(*final(q)),
{
    q.push(v)
}

/// Relies on `ConcurrentQueue::pop`: an empty queue reports an error and is
/// left as it was; otherwise the front value is removed and returned.
#[verifier::external_body]
fn cq_pop(q: &mut ConcurrentQueue<u64>) -> (r: Result<u64, PopError>)
    ensures
        cq_items(*old(q)).len() == 0 ==> r is Err && *final(q) == *old(q),
        cq_items(*old(q)).len() > 0 ==> r == Ok::<u64, PopError>(cq_items(*old(q))[0])
            && cq_items(*final(q)) == cq_items(*old(q)).drop_first(),
        cq_open_unbounded(*final(q)) == cq_open_unbounded(*old(q)),
{
    q.pop()
}

/// Relies on `ConcurrentQueue::is_empty`.
#[verifier::external_body]
fn cq_is_empty(q: &ConcurrentQueue<u64>) -> (r: bool)
    ensures
        r == (cq_items(*q).len() == 0),
{
    q.is_empty()
}

/// A first-in first-out queue of work tickets.
///
/// A ticket names one stored `(coroutine, arguments)` pair (or one local
/// future); the program that owns the interpreter keeps the pairs and the
/// library keeps the order in which they are handed out.
pub struct ThreadQueue {
    queue: ConcurrentQueue<u64>,
}

impl ThreadQueue {
    /// The tickets waiting in the queue, oldest first.
    pub closed spec fn items(&self) -> Seq<u64> {
        cq_items(self.queue)
    }

    pub closed spec fn wf(&self) -> bool {
        cq_open_unbounded(self.queue)
    }

    pub fn new() -> (r: ThreadQueue)
        ensures
            r.wf(),
            r.items() == Seq::<u64>::empty(),
    {
        ThreadQueue { queue: cq_unbounded() }
    }

    /// Appends a ticket at the back of the queue.
    pub fn push(&mut self, ticket: u64)
        requires
            old(self).wf(),
        ensures
            final(self).wf(),
            final(self).items() == old(self).items().push(ticket),
    {
        let pushed = cq_push(&mut self.queue, ticket);
        assert(pushed is Ok);
    }

    /// Removes every waiting ticket and returns them in the order they were pushed.
    pub fn drain(&mut self) -> (r: Vec<u64>)
        requires
            old(self).wf(),
        ensures
            final(self).wf(),
            r@ == old(self).items(),
            final(self).items() == Seq::<u64>::empty(),
    {
        let mut out: Vec<u64> = Vec::new();
        let ghost start = self.items();
        loop
            invariant
                self.wf(),
                start == out@ + self.items(),
            ensures
                self.wf(),
                start == out@,
                self.items() == Seq::<u64>::empty(),
            decreases self.items().len(),
        {
            let popped = cq_pop(&mut self.queue);
            match popped {
                Ok(t) => {
                    out.push(t);
                    assert(start == out@ + self.items());
                },
                Err(_) => {
                    assert(self.items() =~= Seq::<u64>::empty());
                    assert(start =~= out@);
                    break;
                },
            }
        }
        out
    }

    /// Whether a drain now would hand out at least one ticket.
    pub fn listen(&self) -> (r: bool)
        ensures
            r == (self.items().len() > 0),
    {
        !cq_is_empty(&self.queue)
    }

    pub fn is_empty(&self) -> (r: bool)
        ensures
            r == (self.items().len() == 0),
    {
        cq_is_empty(&self.queue)
    }
}

/// A queue whose `listen` reports work hands out at least one ticket on the
/// drain that follows, and `listen` reports no work only when that drain
/// would hand out nothing.
pub proof fn lemma_listen_then_drain(q: ThreadQueue, ready: bool, drained: Seq<u64>)
    requires
        ready == (q.items().len() > 0),
        drained == q.items(),
    ensures
        ready ==> drained.len() >= 1,
        !ready ==> drained.len() == 0,
{
}

/// First in, first out: of two tickets pushed on the same queue, with any
/// tickets waiting before, between and after them, a drain hands out the one
/// pushed first at the lower position.
pub proof fn lemma_fifo(before: Seq<u64>, first: u64, between: Seq<u64>, second: u64, after: Seq<u64>)
    ensures
        ({
            let drained = (before.push(first) + between).push(second) + after;
            &&& drained[before.len() as int] == first
            &&& drained[before.len() + 1 + between.len() as int] == second
            &&& before.len() < before.len() + 1 + between.len()
        }),
{
    let d = (before.push(first) + between).push(second) + after;
    assert(d[before.len() as int] == before.push(first)[before.len() as int]);
}

} // verus!
