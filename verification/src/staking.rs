//! What a working group does when a stake is released: it refunds the
//! stake of a role it manages and leaves every other stake alone. Looking
//! up the records and moving the funds is the caller's part; the decisions
//! are made here.

use vstd::prelude::*;

verus! {

/// Identifier of a stake.
pub type StakeId = u64;

/// Identifier of a hiring application.
pub type ApplicationId = u64;

/// What is to happen with the imbalance that remains of a released stake.
#[derive(Clone, Copy, Debug, PartialEq, Eq, Structural)]
pub enum Unstaked {
    /// Hand the imbalance on as it is.
    PassOn,
    /// Ask whether the hiring application belongs to a member of the
    /// group, and come back with the answer.
    LookUpMember(ApplicationId),
    /// Refund the stake to the group's worker.
    RefundWorkingGroupStake(StakeId),
}

/// The first step when a stake is released, given the hiring application
/// that was made with it, if any: a stake that the hiring module does not
/// know is passed on, for any other the group's members are asked.
pub fn unstaked(hiring_application: Option<ApplicationId>) -> (step: Unstaked)
    ensures
        step == match hiring_application {
            None => Unstaked::PassOn,
            Some(application_id) => Unstaked::LookUpMember(application_id),
        },
{
    match hiring_application {
        None => Unstaked::PassOn,
        Some(application_id) => Unstaked::LookUpMember(application_id),
    }
}

/// The second step when the stake `stake_id` is released, given whether
/// its hiring application belongs to a member of the group: the stake is
/// refunded if it does, and passed on if not.
pub fn unstaked_for_member(stake_id: StakeId, application_of_member: bool) -> (step: Unstaked)
    ensures
        step == if application_of_member {
            Unstaked::RefundWorkingGroupStake(stake_id)
        } else {
            Unstaked::PassOn
        },
{
    if application_of_member {
        Unstaked::RefundWorkingGroupStake(stake_id)
    } else {
        Unstaked::PassOn
    }
}

} // verus!
