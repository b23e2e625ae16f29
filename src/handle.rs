use vstd::prelude::*;

verus! {

/// Where a pushed coroutine's result stands.
pub enum HandleState<R> {
    /// The coroutine has not terminated yet.
    Pending,
    /// The coroutine terminated with this result, which nobody has read yet.
    Fulfilled(R),
    /// The result was read.
    Taken,
}

/// The state a slot is in after `complete(result)`: only a pending slot takes
/// the result, any other slot keeps what it had.
pub open spec fn completed_state<R>(s: HandleState<R>, result: R) -> HandleState<R> {
    match s {
        HandleState::Pending => HandleState::Fulfilled(result),
        _ => s,
    }
}

/// The state a slot is in after `take()`.
pub open spec fn taken_state<R>(s: HandleState<R>) -> HandleState<R> {
    match s {
        HandleState::Fulfilled(_) => HandleState::Taken,
        _ => s,
    }
}

/// One-shot result slot of a pushed coroutine.
pub struct Handle<R> {
    state: HandleState<R>,
}

impl<R> Handle<R> {
    pub closed spec fn state(&self) -> HandleState<R> {
        self.state
    }

    pub fn new() -> (r: Handle<R>)
        ensures
            r.state() is Pending,
    {
        Handle { state: HandleState::Pending }
    }

    /// Stores the coroutine's result; returns whether the slot took it, which
    /// it does only while it is still pending.
    pub fn complete(&mut self, result: R) -> (r: bool)
        ensures
            r == (old(self).state() is Pending),
            final(self).state() == completed_state(old(self).state(), result),
    {
        match self.state {
            HandleState::Pending => {
                self.state = HandleState::Fulfilled(result);
                true
            },
            _ => false,
        }
    }

    /// Hands out the stored result once; later calls see nothing.
    pub fn take(&mut self) -> (r: Option<R>)
        ensures
            old(self).state() is Fulfilled ==> r == Some(old(self).state()->Fulfilled_0),
            !(old(self).state() is Fulfilled) ==> r is None,
            final(self).state() == taken_state(old(self).state()),
    {
        let mut prev = HandleState::Taken;
        std::mem::swap(&mut self.state, &mut prev);
        match prev {
            HandleState::Fulfilled(v) => Some(v),
            other => {
                self.state = other;
                None
            },
        }
    }

    /// Whether the coroutine has terminated (its result may already have been read).
    pub fn is_finished(&self) -> (r: bool)
        ensures
            r == !(self.state() is Pending),
    {
        !matches!(self.state, HandleState::Pending)
    }
}

/// A slot is fulfilled exactly once: the first `complete` on a pending slot
/// stores its result, and no later `complete`, before or after the result is
/// taken, changes what was stored or brings the slot back to pending.
pub proof fn lemma_fulfilled_once<R>(first: R, later: Seq<R>)
    ensures
        completed_state(HandleState::Pending, first) == HandleState::Fulfilled(first),
        later.fold_left(
            completed_state(HandleState::Pending, first),
            |s: HandleState<R>, r: R| completed_state(s, r),
        ) == HandleState::Fulfilled(first),
        later.fold_left(
            taken_state(completed_state(HandleState::Pending, first)),
            |s: HandleState<R>, r: R| completed_state(s, r),
        ) == HandleState::<R>::Taken,
    decreases later.len(),
{
    if later.len() > 0 {
        lemma_fulfilled_once(first, later.drop_last());
        assert(later.drop_last().push(later.last()) =~= later);
        later.drop_last().lemma_fold_left_alt(
            completed_state(HandleState::Pending, first),
            |s: HandleState<R>, r: R| completed_state(s, r),
        );
    }
}

} // verus!
