use vstd::prelude::*;

verus! {

/// Lifecycle of a runtime: it only ever moves forward.
#[derive(Clone, Copy, Debug, PartialEq, Eq, Structural)]
pub enum Status {
    NotStarted,
    Running,
    Completed,
}

impl Status {
    /// Position of the status in the lifecycle order.
    pub open spec fn rank(self) -> nat {
        match self {
            Status::NotStarted => 0,
            Status::Running => 1,
            Status::Completed => 2,
        }
    }

    /// A status may be observed after `self` when it is the same one or the next one.
    pub open spec fn may_follow(self, next: Status) -> bool {
        next == self || next.rank() == self.rank() + 1
    }

    pub fn is_running(&self) -> (r: bool)
        ensures
            r == (*self == Status::Running),
    {
        matches!(self, Status::Running)
    }

    pub fn is_done(&self) -> (r: bool)
        ensures
            r == (*self == Status::Completed),
    {
        matches!(self, Status::Completed)
    }
}

/// Any sequence of observed statuses that starts at `NotStarted` and in which
/// each status may follow the one before it is a prefix of
/// `NotStarted, Running, Completed` once repeats are folded: ranks never go
/// down, and no step skips a status.
pub proof fn lemma_status_monotonic(obs: Seq<Status>)
    requires
        obs.len() > 0,
        obs[0] == Status::NotStarted,
        forall|i: int| 0 <= i < obs.len() - 1 ==> #[trigger] obs[i].may_follow(obs[i + 1]),
    ensures
        forall|i: int, j: int|
            0 <= i <= j < obs.len() ==> #[trigger] obs[i].rank() <= #[trigger] obs[j].rank(),
        forall|j: int| 0 < j < obs.len() ==> #[trigger] obs[j].rank() <= obs[j - 1].rank() + 1,
{
    assert forall|i: int, j: int| 0 <= i <= j < obs.len() implies #[trigger] obs[i].rank()
        <= #[trigger] obs[j].rank() by {
        lemma_rank_between(obs, i, j);
    }
    assert forall|j: int| 0 < j < obs.len() implies #[trigger] obs[j].rank() <= obs[j - 1].rank()
        + 1 by {
        let k = j - 1;
        assert(obs[k].may_follow(obs[k + 1]));
    }
}

proof fn lemma_rank_between(obs: Seq<Status>, i: int, j: int)
    requires
        0 <= i <= j < obs.len(),
        forall|k: int| 0 <= k < obs.len() - 1 ==> #[trigger] obs[k].may_follow(obs[k + 1]),
    ensures
        obs[i].rank() <= obs[j].rank(),
    decreases j - i,
{
    if i < j {
        lemma_rank_between(obs, i, j - 1);
        let k = j - 1;
        assert(obs[k].may_follow(obs[k + 1]));
    }
}

} // verus!
