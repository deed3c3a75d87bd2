//! The rules on what a campaign is initialized with.

use vstd::prelude::*;

use crate::types::{Error, MilestoneData, StellarAsset, MAX_MILESTONES};

verus! {

/// Every asset has a code.
pub open spec fn codes_are_given(assets: Seq<StellarAsset>) -> bool {
    forall|i: int| 0 <= i < assets.len() ==> (#[trigger] assets[i]).asset_code@.len() > 0
}

/// Every milestone has a larger target than the ones before it.
pub open spec fn targets_ascend(milestones: Seq<MilestoneData>) -> bool {
    forall|i: int, j: int|
        0 <= i < j < milestones.len() ==> milestones[i].target_amount
            < milestones[j].target_amount
}

/// The verdict on the milestones of a campaign with the given goal.
pub open spec fn milestones_verdict(milestones: Seq<MilestoneData>, goal_amount: i128) -> Result<
    (),
    Error,
> {
    if milestones.len() == 0 || !targets_ascend(milestones) {
        Err(Error::InvalidMilestones)
    } else if milestones.last().target_amount != goal_amount {
        Err(Error::MilestoneMismatch)
    } else {
        Ok(())
    }
}

/// A number of milestones that a campaign can have.
pub open spec fn milestone_count_is_valid(count: nat) -> bool {
    1 <= count <= MAX_MILESTONES
}

/// Checks that every asset has a code.
pub fn validate_assets(assets: &Vec<StellarAsset>) -> (verdict: Result<(), Error>)
    ensures
        verdict is Ok <==> codes_are_given(assets@),
        verdict matches Err(error) ==> error == Error::InvalidAssetCode,
{
    let mut i: usize = 0;
    while i < assets.len()
        invariant
            i <= assets.len(),
            forall|j: int| 0 <= j < i ==> (#[trigger] assets@[j]).asset_code@.len() > 0,
        decreases assets.len() - i,
    {
        if assets[i].asset_code.len() == 0 {
            assert(assets@[i as int].asset_code@.len() == 0);
            return Err(Error::InvalidAssetCode);
        }
        i = i + 1;
    }
    Ok(())
}

/// Checks that the milestones are sorted by strictly ascending target, and
/// that the last of them stands at the goal.
pub fn validate_milestones(milestones: &Vec<MilestoneData>, goal_amount: i128) -> (verdict: Result<
    (),
    Error,
>)
    ensures
        verdict == milestones_verdict(milestones@, goal_amount),
{
    let count: usize = milestones.len();
    if count == 0 {
        return Err(Error::InvalidMilestones);
    }
    let mut i: usize = 1;
    while i < count
        invariant
            1 <= i <= count,
            count == milestones.len(),
            targets_ascend(milestones@.take(i as int)),
        decreases count - i,
    {
        let previous: i128 = milestones[i - 1].target_amount;
        let current: i128 = milestones[i].target_amount;
        if previous >= current {
            assert(milestones@[i - 1].target_amount >= milestones@[i as int].target_amount);
            return Err(Error::InvalidMilestones);
        }
        assert(targets_ascend(milestones@.take(i + 1))) by {
            let seen = milestones@.take(i as int);
            let next = milestones@.take(i + 1);
            assert forall|a: int, b: int| 0 <= a < b < next.len() implies next[a].target_amount
                < next[b].target_amount by {
                if b < i {
                    assert(seen[a].target_amount < seen[b].target_amount);
                } else if a < i - 1 {
                    assert(seen[a].target_amount < seen[i - 1].target_amount);
                }
            }
        }
        i = i + 1;
    }
    assert(milestones@.take(count as int) =~= milestones@);
    if milestones[count - 1].target_amount != goal_amount {
        Err(Error::MilestoneMismatch)
    } else {
        Ok(())
    }
}

} // verus!
