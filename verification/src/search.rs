//! The bounded search for a viewport: candidates are tried until one is
//! found interesting or the budget of attempts is spent.

use vstd::prelude::*;
use crate::MAX_ATTEMPTS;

verus! {

/// The state of a search: how many candidates have been turned down so far.
#[derive(Clone, Copy, Debug)]
pub struct RegionSearch {
    attempts: u32,
}

impl RegionSearch {
    /// Candidates turned down so far.
    pub closed spec fn rejected(self) -> nat {
        self.attempts as nat
    }

    /// The budget is never overdrawn.
    pub open spec fn wf(self) -> bool {
        self.rejected() <= MAX_ATTEMPTS
    }

    /// Whether the budget is spent, so that the next candidate is taken
    /// whatever the validator would say of it.
    pub open spec fn exhausted(self) -> bool {
        self.rejected() >= MAX_ATTEMPTS
    }

    /// A search that has turned down nothing yet.
    pub fn new() -> (search: Self)
        ensures
            search.rejected() == 0,
            search.wf(),
    {
        RegionSearch { attempts: 0 }
    }

    /// Candidates turned down so far.
    pub fn attempts(&self) -> (n: u32)
        ensures
            n == self.rejected(),
    {
        self.attempts
    }

    /// Whether the next candidate must be taken without asking the validator.
    pub fn must_accept(&self) -> (forced: bool)
        ensures
            forced == self.exhausted(),
    {
        self.attempts >= MAX_ATTEMPTS
    }

    /// Settles one candidate. It is taken when the budget is spent or the
    /// validator found it interesting, and the search is then over with its
    /// count unchanged; otherwise it is turned down and counted.
    pub fn settle(&mut self, interesting: bool) -> (taken: bool)
        ensures
            taken == (old(self).exhausted() || interesting),
            taken ==> final(self).rejected() == old(self).rejected(),
            !taken ==> final(self).rejected() == old(self).rejected() + 1,
            old(self).wf() ==> final(self).wf(),
    {
        if self.attempts >= MAX_ATTEMPTS || interesting {
            true
        } else {
            self.attempts = self.attempts + 1;
            false
        }
    }
}

} // verus!
