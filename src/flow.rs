use vstd::prelude::*;

use crate::error::SettlementError;

verus! {

/// The step an end-to-end swap flow performs next, in the order the steps must run.
#[derive(Clone, Copy, Debug, PartialEq, Eq, Structural)]
pub enum Stage {
    /// Build and broadcast the note that funds the user.
    BroadcastMint,
    /// Wait until that note is consumable.
    AwaitMint,
    /// Consume it into the user's vault.
    ConsumeMint,
    /// Build the swap note, committed to a pre-built payout note, and broadcast it to the pool.
    BroadcastSwap,
    /// Wait until the pool has consumed the swap note.
    AwaitPoolSwap,
    /// Wait until the payout note is consumable.
    AwaitPayout,
    /// Consume the payout note.
    ConsumePayout,
    /// Every step succeeded.
    Done,
    /// A step failed for good.
    Aborted { error: SettlementError },
}

/// Position of a stage in the flow; an aborted flow sits past the end.
pub open spec fn stage_rank(s: Stage) -> nat {
    match s {
        Stage::BroadcastMint => 0,
        Stage::AwaitMint => 1,
        Stage::ConsumeMint => 2,
        Stage::BroadcastSwap => 3,
        Stage::AwaitPoolSwap => 4,
        Stage::AwaitPayout => 5,
        Stage::ConsumePayout => 6,
        Stage::Done => 7,
        Stage::Aborted { .. } => 8,
    }
}

/// Whether the flow has nothing left to do.
pub open spec fn is_final(s: Stage) -> bool {
    s is Done || s is Aborted
}

/// The stage after a step that succeeded.
pub open spec fn next_stage(s: Stage) -> Stage {
    match s {
        Stage::BroadcastMint => Stage::AwaitMint,
        Stage::AwaitMint => Stage::ConsumeMint,
        Stage::ConsumeMint => Stage::BroadcastSwap,
        Stage::BroadcastSwap => Stage::AwaitPoolSwap,
        Stage::AwaitPoolSwap => Stage::AwaitPayout,
        Stage::AwaitPayout => Stage::ConsumePayout,
        Stage::ConsumePayout => Stage::Done,
        other => other,
    }
}

/// Whether a failure is retried: a visibility timeout while retries remain.
pub open spec fn is_retried(outcome: Result<(), SettlementError>, retries: nat, max_retries: nat) -> bool {
    outcome == Err::<(), SettlementError>(SettlementError::VisibilityTimeout) && retries < max_retries
}

/// The stage after the current step ended with `outcome`.
pub open spec fn stage_after(
    s: Stage,
    outcome: Result<(), SettlementError>,
    retries: nat,
    max_retries: nat,
) -> Stage {
    if is_final(s) || is_retried(outcome, retries, max_retries) {
        s
    } else {
        match outcome {
            Ok(_) => next_stage(s),
            Err(e) => Stage::Aborted { error: e },
        }
    }
}

/// Retries spent on the step after the current one ended with `outcome`.
pub open spec fn retries_after(
    s: Stage,
    outcome: Result<(), SettlementError>,
    retries: nat,
    max_retries: nat,
) -> nat {
    if is_final(s) {
        retries
    } else if is_retried(outcome, retries, max_retries) {
        retries + 1
    } else if outcome is Ok {
        0
    } else {
        retries
    }
}

/// The sequencing of one swap flow: steps run strictly in order, a step that timed out
/// waiting for visibility is retried up to a fixed bound, and any other failure ends the
/// flow at once.
pub struct SwapFlow {
    stage: Stage,
    retries: u32,
    max_retries: u32,
}

impl SwapFlow {
    /// The step to perform now.
    pub closed spec fn stage(&self) -> Stage {
        self.stage
    }

    /// Retries spent on the current step.
    pub closed spec fn retries(&self) -> nat {
        self.retries as nat
    }

    /// Retries allowed per step.
    pub closed spec fn max_retries(&self) -> nat {
        self.max_retries as nat
    }

    /// A flow at its first step that retries a timed-out step at most `max_retries` times.
    pub fn new(max_retries: u32) -> (f: SwapFlow)
        ensures
            f.stage() == Stage::BroadcastMint,
            f.retries() == 0,
            f.max_retries() == max_retries,
    {
        SwapFlow { stage: Stage::BroadcastMint, retries: 0, max_retries }
    }

    /// The step to perform now.
    pub fn current(&self) -> (s: Stage)
        ensures
            s == self.stage(),
    {
        self.stage
    }

    /// Records how the current step ended and returns the step to perform next.
    /// Success moves to the following step; a `VisibilityTimeout` repeats the step while
    /// retries remain; every other failure, or a timeout with no retries left, aborts with
    /// that error. A finished flow stays as it is.
    pub fn record(&mut self, outcome: Result<(), SettlementError>) -> (s: Stage)
        ensures
            s == final(self).stage(),
            final(self).stage() == stage_after(
                old(self).stage(),
                outcome,
                old(self).retries(),
                old(self).max_retries(),
            ),
            final(self).retries() == retries_after(
                old(self).stage(),
                outcome,
                old(self).retries(),
                old(self).max_retries(),
            ),
            final(self).max_retries() == old(self).max_retries(),
    {
        match self.stage {
            Stage::Done | Stage::Aborted { .. } => return self.stage,
            _ => {},
        }
        match outcome {
            Ok(_) => {
                self.stage = match self.stage {
                    Stage::BroadcastMint => Stage::AwaitMint,
                    Stage::AwaitMint => Stage::ConsumeMint,
                    Stage::ConsumeMint => Stage::BroadcastSwap,
                    Stage::BroadcastSwap => Stage::AwaitPoolSwap,
                    Stage::AwaitPoolSwap => Stage::AwaitPayout,
                    Stage::AwaitPayout => Stage::ConsumePayout,
                    _ => Stage::Done,
                };
                self.retries = 0;
            },
            Err(e) => {
                if e == SettlementError::VisibilityTimeout && self.retries < self.max_retries {
                    self.retries = self.retries + 1;
                } else {
                    self.stage = Stage::Aborted { error: e };
                }
            },
        }
        self.stage
    }
}

/// Steps run strictly in order: whatever a step's outcome, the flow stays at that step,
/// moves to the one right after it, or stops; and a step is retried only within its budget.
pub proof fn lemma_steps_in_order(
    s: Stage,
    outcome: Result<(), SettlementError>,
    retries: nat,
    max_retries: nat,
)
    requires
        retries <= max_retries,
    ensures
        stage_after(s, outcome, retries, max_retries) == s || stage_after(
            s,
            outcome,
            retries,
            max_retries,
        ) is Aborted || stage_rank(stage_after(s, outcome, retries, max_retries)) == stage_rank(s)
            + 1,
        retries_after(s, outcome, retries, max_retries) <= max_retries,
{
}

} // verus!
