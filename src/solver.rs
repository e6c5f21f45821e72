use vstd::prelude::*;

verus! {

/// Progress of the fixed-point salinity iteration: how many rounds have run,
/// the cap on rounds, and whether the last round's change of SP fell below
/// the tolerance. The arithmetic of each round is the caller's; this decides
/// whether another round runs and tells a converged result from one that hit
/// the cap.
pub struct Progress {
    rounds: usize,
    max_iter: usize,
    converged: bool,
}

impl Progress {
    pub closed spec fn spec_rounds(&self) -> nat {
        self.rounds as nat
    }

    pub closed spec fn spec_max_iter(&self) -> nat {
        self.max_iter as nat
    }

    pub closed spec fn spec_converged(&self) -> bool {
        self.converged
    }

    /// Rounds never exceed the cap.
    pub closed spec fn wf(&self) -> bool {
        self.rounds <= self.max_iter
    }

    /// Whether a further round runs: only while unconverged and under the cap.
    pub open spec fn spec_should_continue(&self) -> bool {
        !self.spec_converged() && self.spec_rounds() < self.spec_max_iter()
    }

    /// Progress before the first round, with at most `max_iter` rounds.
    pub fn new(max_iter: usize) -> (r: Progress)
        ensures
            r.wf(),
            r.spec_rounds() == 0,
            r.spec_max_iter() == max_iter,
            !r.spec_converged(),
    {
        Progress { rounds: 0, max_iter, converged: false }
    }

    pub fn should_continue(&self) -> (r: bool)
        requires
            self.wf(),
        ensures
            r == self.spec_should_continue(),
    {
        !self.converged && self.rounds < self.max_iter
    }

    /// Records one finished round; `within_tolerance` says whether it changed
    /// SP by less than the tolerance.
    pub fn record(&mut self, within_tolerance: bool)
        requires
            old(self).wf(),
            old(self).spec_should_continue(),
        ensures
            final(self).wf(),
            final(self).spec_rounds() == old(self).spec_rounds() + 1,
            final(self).spec_max_iter() == old(self).spec_max_iter(),
            final(self).spec_converged() == within_tolerance,
    {
        self.rounds = self.rounds + 1;
        self.converged = within_tolerance;
    }

    /// Whether the iteration stopped because a round changed SP by less than
    /// the tolerance.
    pub fn converged(&self) -> (r: bool)
        ensures
            r == self.spec_converged(),
    {
        self.converged
    }

    /// The number of rounds run so far.
    pub fn rounds(&self) -> (r: usize)
        ensures
            r == self.spec_rounds(),
    {
        self.rounds
    }
}

} // verus!
