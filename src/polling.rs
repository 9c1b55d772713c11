use vstd::prelude::*;

use crate::error::SettlementError;

verus! {

/// What one observation of `visible` notes, when `expected` are awaited, decides after
/// `attempts` earlier observations fell short: `Ok(true)` when enough are visible,
/// `Ok(false)` to wait and look again, `VisibilityTimeout` once the budget is spent.
pub open spec fn observation_result(attempts: nat, max_attempts: nat, visible: nat, expected: nat) -> Result<
    bool,
    SettlementError,
> {
    if visible >= expected {
        Ok(true)
    } else if attempts + 1 >= max_attempts {
        Err(SettlementError::VisibilityTimeout)
    } else {
        Ok(false)
    }
}

/// The bounded wait for notes to become consumable: each observation that falls short uses
/// one attempt of a fixed budget, and the wait fails once the budget is spent.
pub struct Poller {
    attempts: u32,
    max_attempts: u32,
}

impl Poller {
    /// Observations that fell short so far.
    pub closed spec fn attempts(&self) -> nat {
        self.attempts as nat
    }

    /// The retry budget.
    pub closed spec fn max_attempts(&self) -> nat {
        self.max_attempts as nat
    }

    /// A wait that gives up after `max_attempts` observations that fall short.
    pub fn new(max_attempts: u32) -> (p: Poller)
        ensures
            p.attempts() == 0,
            p.max_attempts() == max_attempts,
    {
        Poller { attempts: 0, max_attempts }
    }

    /// How many observations fell short so far.
    pub fn attempts_made(&self) -> (r: u32)
        ensures
            r == self.attempts(),
    {
        self.attempts
    }

    /// Records that `visible` of the `expected` notes are consumable and decides: `Ok(true)`
    /// when all are, `Ok(false)` when the caller should wait and observe again, and
    /// `VisibilityTimeout` when the budget is spent. Only `Ok(false)` uses an attempt, and it
    /// is only returned while attempts remain, so a wait never exceeds its budget.
    pub fn observe(&mut self, visible: usize, expected: usize) -> (r: Result<bool, SettlementError>)
        ensures
            r == observation_result(
                old(self).attempts(),
                old(self).max_attempts(),
                visible as nat,
                expected as nat,
            ),
            final(self).max_attempts() == old(self).max_attempts(),
            r == Ok::<bool, SettlementError>(false) ==> final(self).attempts() == old(self).attempts()
                + 1,
            r != Ok::<bool, SettlementError>(false) ==> final(self).attempts() == old(self).attempts(),
            final(self).attempts() < final(self).max_attempts() || final(self).attempts() == old(
                self,
            ).attempts(),
    {
        if visible >= expected {
            Ok(true)
        } else if self.attempts >= self.max_attempts || self.max_attempts - self.attempts <= 1 {
            Err(SettlementError::VisibilityTimeout)
        } else {
            self.attempts = self.attempts + 1;
            Ok(false)
        }
    }
}

} // verus!
