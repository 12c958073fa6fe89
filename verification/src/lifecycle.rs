//! The coarse phase of a node, as shown to status queries.

use vstd::prelude::*;

verus! {

/// The phases a node goes through, in the order in which it goes through them.
#[derive(Clone, Copy, Debug, PartialEq, Eq, Structural, PartialOrd, Ord, Hash)]
pub enum LifecycleState {
    PreparingStorage,
    PreparingBlock0,
    Bootstrapping,
    StartingWorkers,
    Running,
}

impl LifecycleState {
    /// Position of the phase in the fixed order, counted from zero.
    pub open spec fn rank(self) -> nat {
        match self {
            LifecycleState::PreparingStorage => 0,
            LifecycleState::PreparingBlock0 => 1,
            LifecycleState::Bootstrapping => 2,
            LifecycleState::StartingWorkers => 3,
            LifecycleState::Running => 4,
        }
    }

    /// `self` is `other` or a phase before it.
    pub open spec fn precedes_or_is(self, other: LifecycleState) -> bool {
        self.rank() <= other.rank()
    }

    /// Position of the phase in the fixed order, counted from zero.
    pub fn position(&self) -> (r: u8)
        ensures
            r as nat == self.rank(),
            r <= 4,
    {
        match self {
            LifecycleState::PreparingStorage => 0,
            LifecycleState::PreparingBlock0 => 1,
            LifecycleState::Bootstrapping => 2,
            LifecycleState::StartingWorkers => 3,
            LifecycleState::Running => 4,
        }
    }

    /// Whether a node in phase `self` has reached `other` already.
    pub fn has_reached(&self, other: LifecycleState) -> (r: bool)
        ensures
            r == other.precedes_or_is(*self),
    {
        other.position() <= self.position()
    }

    /// The phase that follows `self`, if there is one.
    pub fn next(&self) -> (r: Option<LifecycleState>)
        ensures
            match r {
                Some(s) => s.rank() == self.rank() + 1,
                None => *self == LifecycleState::Running,
            },
    {
        match self {
            LifecycleState::PreparingStorage => Some(LifecycleState::PreparingBlock0),
            LifecycleState::PreparingBlock0 => Some(LifecycleState::Bootstrapping),
            LifecycleState::Bootstrapping => Some(LifecycleState::StartingWorkers),
            LifecycleState::StartingWorkers => Some(LifecycleState::Running),
            LifecycleState::Running => None,
        }
    }
}

/// Two phases at the same position are the same phase.
pub proof fn lemma_rank_is_injective(a: LifecycleState, b: LifecycleState)
    requires
        a.rank() == b.rank(),
    ensures
        a == b,
{
}

} // verus!
