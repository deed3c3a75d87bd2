//! The rules on assets, milestones and statuses, and the error codes.

use campaign::assets::get_token_address_for_asset;
use campaign::types::{
    Address, AssetInfo, CampaignData, CampaignStatus, Error, MilestoneData, MilestoneStatus,
    StellarAsset, MAX_MILESTONES,
};
use campaign::validation::{validate_assets, validate_milestones};
use campaign::{validate_campaign_transition, validate_milestone_transition};

fn address(letter: u8) -> Address {
    let mut strkey = [b'A'; 56];
    strkey[0] = b'G';
    strkey[55] = letter;
    Address { strkey }
}

fn asset(code: &str, issuer: Option<Address>) -> StellarAsset {
    StellarAsset { asset_code: code.as_bytes().to_vec(), issuer }
}

fn milestone(index: u32, target_amount: i128) -> MilestoneData {
    MilestoneData {
        index,
        target_amount,
        description_hash: [7; 32],
        status: MilestoneStatus::Locked,
        released_at: None,
        release_tx: None,
    }
}

fn campaign(accepted_assets: Vec<StellarAsset>) -> CampaignData {
    CampaignData {
        creator: address(b'C'),
        goal_amount: 100,
        raised_amount: 0,
        end_time: 1000,
        status: CampaignStatus::Active,
        accepted_assets,
        milestone_count: 1,
    }
}

#[test]
fn addresses_are_equal_when_all_characters_are() {
    assert!(address(b'B') == address(b'B'));
    assert!(address(b'B') != address(b'D'));
    let mut first = address(b'B');
    first.strkey[0] = b'C';
    assert!(first != address(b'B'));
}

#[test]
fn only_an_asset_without_issuer_is_xlm() {
    assert!(asset("XLM", None).is_xlm());
    assert!(!asset("XLM", Some(address(b'T'))).is_xlm());
    assert!(asset("USDC", None).is_xlm());
}

#[test]
fn assets_need_codes() {
    assert_eq!(validate_assets(&vec![]), Ok(()));
    assert_eq!(validate_assets(&vec![asset("XLM", None), asset("USDC", None)]), Ok(()));
    assert_eq!(
        validate_assets(&vec![asset("XLM", None), asset("", Some(address(b'T')))]),
        Err(Error::InvalidAssetCode)
    );
}

#[test]
fn milestones_need_ascending_targets_up_to_the_goal() {
    assert_eq!(validate_milestones(&vec![milestone(0, 100)], 100), Ok(()));
    assert_eq!(
        validate_milestones(&vec![milestone(0, 10), milestone(1, 50), milestone(2, 100)], 100),
        Ok(())
    );
    assert_eq!(
        validate_milestones(&vec![milestone(0, -5), milestone(9, 100)], 100),
        Ok(())
    );
    assert_eq!(validate_milestones(&vec![], 100), Err(Error::InvalidMilestones));
    assert_eq!(
        validate_milestones(&vec![milestone(0, 50), milestone(1, 50), milestone(2, 100)], 100),
        Err(Error::InvalidMilestones)
    );
    assert_eq!(
        validate_milestones(&vec![milestone(0, 10), milestone(1, 100), milestone(2, 60)], 100),
        Err(Error::InvalidMilestones)
    );
    assert_eq!(
        validate_milestones(&vec![milestone(0, 10), milestone(1, 99)], 100),
        Err(Error::MilestoneMismatch)
    );
    // Unsorted milestones count before a missed goal.
    assert_eq!(
        validate_milestones(&vec![milestone(0, 10), milestone(1, 9)], 100),
        Err(Error::InvalidMilestones)
    );
    assert_eq!(MAX_MILESTONES, 5);
}

#[test]
fn a_token_is_accepted_as_an_issuer() {
    let listed = campaign(vec![asset("XLM", None), asset("USDC", Some(address(b'T')))]);
    assert_eq!(
        get_token_address_for_asset(&AssetInfo::Stellar(address(b'T')), &listed),
        Ok(address(b'T'))
    );
    assert_eq!(
        get_token_address_for_asset(&AssetInfo::Stellar(address(b'U')), &listed),
        Err(Error::AssetNotAccepted)
    );
}

#[test]
fn native_xlm_goes_through_the_first_xlm_entry() {
    let native = AssetInfo::Native;
    let listed = campaign(vec![
        asset("USDC", Some(address(b'T'))),
        asset("XLM", Some(address(b'W'))),
        asset("XLM", Some(address(b'V'))),
    ]);
    assert_eq!(get_token_address_for_asset(&native, &listed), Ok(address(b'W')));
    // The token of native XLM is accepted by its address too.
    assert_eq!(
        get_token_address_for_asset(&AssetInfo::Stellar(address(b'W')), &listed),
        Ok(address(b'W'))
    );
    let display_only = campaign(vec![asset("XLM", None), asset("XLM", Some(address(b'V')))]);
    assert_eq!(get_token_address_for_asset(&native, &display_only), Err(Error::AssetNotAccepted));
    let others = campaign(vec![
        asset("XLMX", Some(address(b'V'))),
        asset("xlm", Some(address(b'V'))),
        asset("XL", Some(address(b'V'))),
    ]);
    assert_eq!(get_token_address_for_asset(&native, &others), Err(Error::AssetNotAccepted));
}

#[test]
fn campaigns_move_only_forward() {
    let order = [
        CampaignStatus::Active,
        CampaignStatus::GoalReached,
        CampaignStatus::Ended,
        CampaignStatus::Cancelled,
    ];
    for i in 0..4 {
        for j in 0..4 {
            let expected = if i < j { Ok(()) } else { Err(Error::InvalidCampaignTransition) };
            assert_eq!(validate_campaign_transition(&order[i], &order[j]), expected);
        }
    }
}

#[test]
fn cancellation_is_final() {
    let cancelled = CampaignStatus::Cancelled;
    assert_eq!(
        validate_campaign_transition(&cancelled, &CampaignStatus::Active),
        Err(Error::InvalidCampaignTransition)
    );
    assert_eq!(validate_campaign_transition(&CampaignStatus::Ended, &cancelled), Ok(()));
}

#[test]
fn milestones_move_only_forward() {
    let order = [MilestoneStatus::Locked, MilestoneStatus::Unlocked, MilestoneStatus::Released];
    for i in 0..3 {
        for j in 0..3 {
            let expected = if i < j { Ok(()) } else { Err(Error::InvalidMilestoneTransition) };
            assert_eq!(validate_milestone_transition(&order[i], &order[j]), expected);
        }
    }
}

#[test]
fn release_is_final() {
    let released = MilestoneStatus::Released;
    assert_eq!(
        validate_milestone_transition(&released, &MilestoneStatus::Locked),
        Err(Error::InvalidMilestoneTransition)
    );
    assert_eq!(validate_milestone_transition(&MilestoneStatus::Locked, &released), Ok(()));
}

#[test]
fn errors_are_numbered_from_one() {
    let errors = [
        Error::InvalidGoalAmount,
        Error::InvalidEndTime,
        Error::InvalidAssets,
        Error::InvalidAssetCode,
        Error::InvalidMilestones,
        Error::MilestoneMismatch,
        Error::InvalidMilestoneCount,
        Error::AlreadyInitialized,
        Error::UnauthorizedCreator,
        Error::InvalidCampaignTransition,
        Error::InvalidMilestoneTransition,
        Error::CampaignNotActive,
        Error::CampaignEnded,
        Error::GoalNotReached,
        Error::NotInitialized,
        Error::AssetNotAccepted,
        Error::InvalidDonationAmount,
    ];
    for i in 0..errors.len() {
        assert_eq!(errors[i].code(), i as u32 + 1);
    }
    assert_eq!(errors.len(), 17);
}
