//! The moves a campaign and a milestone may make from one status to another.

use vstd::prelude::*;

use crate::types::{CampaignStatus, Error, MilestoneStatus};

verus! {

/// The moves of a campaign: to `GoalReached` when the goal is reached, to
/// `Ended` when the deadline passes, and to `Cancelled` by the creator.
pub open spec fn campaign_may_move(current: CampaignStatus, next: CampaignStatus) -> bool {
    match next {
        CampaignStatus::Active => false,
        CampaignStatus::GoalReached => current is Active,
        CampaignStatus::Ended => current is Active || current is GoalReached,
        CampaignStatus::Cancelled => current !is Cancelled,
    }
}

/// The moves of a milestone: to `Unlocked` when its target is reached, and to
/// `Released` whether or not it was unlocked before.
pub open spec fn milestone_may_move(current: MilestoneStatus, next: MilestoneStatus) -> bool {
    match next {
        MilestoneStatus::Locked => false,
        MilestoneStatus::Unlocked => current is Locked,
        MilestoneStatus::Released => current !is Released,
    }
}

/// Checks that a campaign may move from one status to another.
pub fn validate_campaign_transition(
    current_status: &CampaignStatus,
    next_status: &CampaignStatus,
) -> (verdict: Result<(), Error>)
    ensures
        verdict is Ok <==> campaign_may_move(*current_status, *next_status),
        verdict matches Err(error) ==> error == Error::InvalidCampaignTransition,
{
    match (*current_status, *next_status) {
        (CampaignStatus::Active, CampaignStatus::GoalReached) => Ok(()),
        (CampaignStatus::Active, CampaignStatus::Ended) => Ok(()),
        (CampaignStatus::Active, CampaignStatus::Cancelled) => Ok(()),
        (CampaignStatus::GoalReached, CampaignStatus::Ended) => Ok(()),
        (CampaignStatus::GoalReached, CampaignStatus::Cancelled) => Ok(()),
        (CampaignStatus::Ended, CampaignStatus::Cancelled) => Ok(()),
        _ => Err(Error::InvalidCampaignTransition),
    }
}

/// Checks that a milestone may move from one status to another.
pub fn validate_milestone_transition(
    current_status: &MilestoneStatus,
    next_status: &MilestoneStatus,
) -> (verdict: Result<(), Error>)
    ensures
        verdict is Ok <==> milestone_may_move(*current_status, *next_status),
        verdict matches Err(error) ==> error == Error::InvalidMilestoneTransition,
{
    match (*current_status, *next_status) {
        (MilestoneStatus::Locked, MilestoneStatus::Unlocked) => Ok(()),
        (MilestoneStatus::Locked, MilestoneStatus::Released) => Ok(()),
        (MilestoneStatus::Unlocked, MilestoneStatus::Released) => Ok(()),
        _ => Err(Error::InvalidMilestoneTransition),
    }
}

} // verus!
