//! The milestone state machine of a bounty. Periods are not driven by a
//! timer: whoever looks at a bounty works out from the current tick which
//! milestone it has reached.

use super::types::{BlockNumber, Bounty, BountyMilestone};
use vstd::prelude::*;

verus! {

/// A period of `period` ticks that started at `started_at` is over at `now`.
pub open spec fn elapsed(started_at: BlockNumber, period: BlockNumber, now: BlockNumber) -> bool {
    started_at + period < now
}

/// Decides [`elapsed`].
pub fn has_elapsed(started_at: BlockNumber, period: BlockNumber, now: BlockNumber) -> (over: bool)
    ensures
        over == elapsed(started_at, period, now),
{
    period < now && started_at < now - period
}

/// What may happen to a bounty besides the passing of time.
#[derive(Clone, Copy, Debug, PartialEq, Eq, Structural)]
pub enum Action {
    /// Nothing but the passing of time.
    Elapse,
    /// The raised amount reached the cap.
    ReachCap,
    /// The creator cancels.
    Cancel,
    /// The privileged authority cancels.
    Veto,
    /// The judge decides for or against the work.
    Resolve { successful: bool },
}

impl Bounty {
    /// The milestone the bounty has reached at `now` by the passing of time
    /// alone. A funding stage ends with its period if the minimum was
    /// raised, and stays if not; work and judging end with their periods; a
    /// bounty left unjudged is canceled. Each stage starts on the tick after
    /// the one before it ended.
    pub open spec fn spec_effective_milestone(&self, now: BlockNumber) -> BountyMilestone {
        let entered = match self.milestone {
            BountyMilestone::Created => if self.funding_period is Some {
                BountyMilestone::Funding { started_at: self.created_at }
            } else {
                BountyMilestone::WorkSubmission { started_at: self.created_at }
            },
            other => other,
        };
        let funded = match (entered, self.funding_period) {
            (BountyMilestone::Funding { started_at }, Some(period)) => if elapsed(
                started_at,
                period,
                now,
            ) && self.total_funding >= self.min_amount {
                BountyMilestone::WorkSubmission { started_at: (started_at + period + 1) as u64 }
            } else {
                entered
            },
            _ => entered,
        };
        let worked = match funded {
            BountyMilestone::WorkSubmission { started_at } => if elapsed(
                started_at,
                self.work_period,
                now,
            ) {
                BountyMilestone::Judgment { started_at: (started_at + self.work_period + 1) as u64 }
            } else {
                funded
            },
            _ => funded,
        };
        match worked {
            BountyMilestone::Judgment { started_at } => if elapsed(
                started_at,
                self.judging_period,
                now,
            ) {
                BountyMilestone::Canceled
            } else {
                worked
            },
            _ => worked,
        }
    }

    /// Computes [`Self::spec_effective_milestone`].
    #[verifier::when_used_as_spec(spec_effective_milestone)]
    pub fn effective_milestone(&self, now: BlockNumber) -> (milestone: BountyMilestone)
        ensures
            milestone == self.spec_effective_milestone(now),
    {
        let entered = match self.milestone {
            BountyMilestone::Created => if self.funding_period.is_some() {
                BountyMilestone::Funding { started_at: self.created_at }
            } else {
                BountyMilestone::WorkSubmission { started_at: self.created_at }
            },
            other => other,
        };
        let funded = match (entered, self.funding_period) {
            (BountyMilestone::Funding { started_at }, Some(period)) => if has_elapsed(
                started_at,
                period,
                now,
            ) && self.total_funding >= self.min_amount {
                BountyMilestone::WorkSubmission { started_at: started_at + period + 1 }
            } else {
                entered
            },
            _ => entered,
        };
        let worked = match funded {
            BountyMilestone::WorkSubmission { started_at } => if has_elapsed(
                started_at,
                self.work_period,
                now,
            ) {
                BountyMilestone::Judgment { started_at: started_at + self.work_period + 1 }
            } else {
                funded
            },
            _ => funded,
        };
        match worked {
            BountyMilestone::Judgment { started_at } => if has_elapsed(
                started_at,
                self.judging_period,
                now,
            ) {
                BountyMilestone::Canceled
            } else {
                worked
            },
            _ => worked,
        }
    }

    /// The funding stage is over at `now` and the minimum was not raised:
    /// no contribution is taken any more and the refund path is open.
    pub open spec fn spec_funding_failed(&self, now: BlockNumber) -> bool {
        match (self.spec_effective_milestone(now), self.funding_period) {
            (BountyMilestone::Funding { started_at }, Some(period)) => elapsed(
                started_at,
                period,
                now,
            ),
            _ => false,
        }
    }

    /// Decides [`Self::spec_funding_failed`].
    #[verifier::when_used_as_spec(spec_funding_failed)]
    pub fn funding_failed(&self, now: BlockNumber) -> (failed: bool)
        ensures
            failed == self.spec_funding_failed(now),
    {
        match (self.effective_milestone(now), self.funding_period) {
            (BountyMilestone::Funding { started_at }, Some(period)) => has_elapsed(
                started_at,
                period,
                now,
            ),
            _ => false,
        }
    }

    /// Contributions are taken at `now`.
    pub open spec fn spec_accepts_funding(&self, now: BlockNumber) -> bool {
        self.spec_effective_milestone(now) is Funding && !self.spec_funding_failed(now)
    }

    /// Decides [`Self::spec_accepts_funding`].
    #[verifier::when_used_as_spec(spec_accepts_funding)]
    pub fn accepts_funding(&self, now: BlockNumber) -> (open: bool)
        ensures
            open == self.spec_accepts_funding(now),
    {
        match self.effective_milestone(now) {
            BountyMilestone::Funding { .. } => !self.funding_failed(now),
            _ => false,
        }
    }

    /// Work entries are announced and work is submitted at `now`.
    pub open spec fn spec_accepts_work(&self, now: BlockNumber) -> bool {
        self.spec_effective_milestone(now) is WorkSubmission
    }

    /// Decides [`Self::spec_accepts_work`].
    #[verifier::when_used_as_spec(spec_accepts_work)]
    pub fn accepts_work(&self, now: BlockNumber) -> (open: bool)
        ensures
            open == self.spec_accepts_work(now),
    {
        match self.effective_milestone(now) {
            BountyMilestone::WorkSubmission { .. } => true,
            _ => false,
        }
    }

    /// Funders may take their contributions back at `now`: the bounty is
    /// canceled, or its funding failed.
    pub open spec fn spec_refunds_open(&self, now: BlockNumber) -> bool {
        self.spec_effective_milestone(now) is Canceled || self.spec_funding_failed(now)
    }

    /// Decides [`Self::spec_refunds_open`].
    #[verifier::when_used_as_spec(spec_refunds_open)]
    pub fn refunds_open(&self, now: BlockNumber) -> (open: bool)
        ensures
            open == self.spec_refunds_open(now),
    {
        match self.effective_milestone(now) {
            BountyMilestone::Canceled => true,
            _ => self.funding_failed(now),
        }
    }

    /// The creator may take the cherry back at `now`: the bounty is
    /// canceled, or successful with nothing raised left in it.
    pub open spec fn spec_cherry_claimable(&self, now: BlockNumber) -> bool {
        match self.spec_effective_milestone(now) {
            BountyMilestone::Canceled => true,
            BountyMilestone::Successful => self.total_funding == 0,
            _ => false,
        }
    }

    /// Decides [`Self::spec_cherry_claimable`].
    #[verifier::when_used_as_spec(spec_cherry_claimable)]
    pub fn cherry_claimable(&self, now: BlockNumber) -> (claimable: bool)
        ensures
            claimable == self.spec_cherry_claimable(now),
    {
        match self.effective_milestone(now) {
            BountyMilestone::Canceled => true,
            BountyMilestone::Successful => self.total_funding == 0,
            _ => false,
        }
    }

    /// The milestone after `action` at `now`, or `None` where the milestone
    /// reached by then does not permit it. The creator cancels a bounty
    /// that holds no contribution and is in funding or has entered no stage
    /// yet; a veto cancels one in funding or work submission or before any
    /// stage; the cap ends a funding stage that still takes contributions;
    /// a judgment ends the judging stage.
    pub open spec fn spec_transition(&self, now: BlockNumber, action: Action) -> Option<
        BountyMilestone,
    > {
        let reached = self.spec_effective_milestone(now);
        match action {
            Action::Elapse => Some(reached),
            Action::ReachCap => if self.spec_accepts_funding(now) {
                Some(BountyMilestone::WorkSubmission { started_at: now })
            } else {
                None
            },
            Action::Cancel => if (self.milestone is Created || reached is Funding)
                && self.total_funding == 0 {
                Some(BountyMilestone::Canceled)
            } else {
                None
            },
            Action::Veto => if self.milestone is Created || reached is Funding
                || reached is WorkSubmission {
                Some(BountyMilestone::Canceled)
            } else {
                None
            },
            Action::Resolve { successful } => if reached is Judgment {
                Some(
                    if successful {
                        BountyMilestone::Successful
                    } else {
                        BountyMilestone::Canceled
                    },
                )
            } else {
                None
            },
        }
    }

    /// Computes [`Self::spec_transition`].
    #[verifier::when_used_as_spec(spec_transition)]
    pub fn transition(&self, now: BlockNumber, action: Action) -> (next: Option<BountyMilestone>)
        ensures
            next == self.spec_transition(now, action),
    {
        let reached = self.effective_milestone(now);
        match action {
            Action::Elapse => Some(reached),
            Action::ReachCap => if self.accepts_funding(now) {
                Some(BountyMilestone::WorkSubmission { started_at: now })
            } else {
                None
            },
            Action::Cancel => match (self.milestone, reached) {
                (BountyMilestone::Created, _) | (_, BountyMilestone::Funding { .. }) => {
                    if self.total_funding == 0 {
                        Some(BountyMilestone::Canceled)
                    } else {
                        None
                    }
                },
                _ => None,
            },
            Action::Veto => match (self.milestone, reached) {
                (BountyMilestone::Created, _)
                | (_, BountyMilestone::Funding { .. })
                | (_, BountyMilestone::WorkSubmission { .. }) => Some(BountyMilestone::Canceled),
                _ => None,
            },
            Action::Resolve { successful } => match reached {
                BountyMilestone::Judgment { .. } => Some(
                    if successful {
                        BountyMilestone::Successful
                    } else {
                        BountyMilestone::Canceled
                    },
                ),
                _ => None,
            },
        }
    }
}

/// Whether somebody looked at a bounty in between makes no difference to
/// the milestone it has reached later: a bounty that was brought up to
/// date at one tick reaches at any later tick, or at the same, what it
/// would have reached untouched.
pub proof fn law_looking_changes_nothing(bounty: Bounty, earlier: BlockNumber, later: BlockNumber)
    requires
        earlier <= later,
    ensures
        (Bounty { milestone: bounty.spec_effective_milestone(earlier), ..bounty })
            .spec_effective_milestone(later) == bounty.spec_effective_milestone(later),
{
}

/// A bounty that has come to its end stays there: time moves neither a
/// successful nor a canceled bounty.
pub proof fn law_the_end_is_final(bounty: Bounty, now: BlockNumber)
    requires
        bounty.milestone is Successful || bounty.milestone is Canceled,
    ensures
        bounty.spec_effective_milestone(now) == bounty.milestone,
        forall|action: Action|
            action != Action::Elapse ==> bounty.spec_transition(now, action) is None,
{
}

} // verus!
