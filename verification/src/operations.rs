//! What each operation of the contract answers, told by its arguments and its
//! result alone.

use vstd::prelude::*;
use vstd::std_specs::cmp::PartialEqSpec;

use crate::assets::get_token_address_for_asset;
use crate::contract::{
    self, require_creator, CampaignContract, CampaignTerms, Initialized, PendingDonation,
    SettledDonation,
};
use crate::laws::{self, Call};
use crate::sdk;
use crate::storage::{self, ContractEvent, Ledger, StorageWrite, StoredValue};
use crate::transitions::{validate_campaign_transition, validate_milestone_transition};
use crate::types::{
    Address, AssetInfo, CampaignData, CampaignStatus, DataKey, DonorRecord, Error, MilestoneData, MilestoneStatus, StellarAsset,
};
use crate::validation::{validate_assets, validate_milestones};

verus! {

// ---------------------------------------------------------------------------
// Donations

/// A donation is accepted only by a campaign that is active or has reached its
/// goal, in a positive amount, and not after the campaign's end.
pub proof fn law_only_an_open_campaign_accepts(
    campaign: CampaignData,
    now: u64,
    amount: i128,
    asset: AssetInfo,
)
    requires
        contract::donate_verdict(Some(campaign), now, amount, asset) is Ok,
    ensures
        campaign.status == CampaignStatus::Active || campaign.status
            == CampaignStatus::GoalReached,
        amount > 0,
        now <= campaign.end_time,
{
}

/// An open campaign accepts a positive donation in a token if and only if an
/// accepted asset, whatever its position and its code, has that token as its
/// issuer. It is then paid in that token, and else refused for its asset.
pub proof fn law_token_is_accepted_iff_listed(
    campaign: CampaignData,
    now: u64,
    amount: i128,
    token: Address,
)
    requires
        campaign.status == CampaignStatus::Active || campaign.status
            == CampaignStatus::GoalReached,
        amount > 0,
        now <= campaign.end_time,
    ensures
        contract::donate_verdict(Some(campaign), now, amount, AssetInfo::Stellar(token)) == (if (
        exists|i: int|
            0 <= i < campaign.accepted_assets@.len() && (
            #[trigger] campaign.accepted_assets@[i]).issuer == Some(token)) {
            Ok::<Address, Error>(token)
        } else {
            Err::<Address, Error>(Error::AssetNotAccepted)
        }),
{
}

/// Where the accepted asset at `i` is the first whose code is the bytes of
/// `XLM`, an open campaign accepts a positive donation in native XLM if and
/// only if that asset has an issuer, in whose token it is then paid.
pub proof fn law_native_is_paid_to_the_first_xlm_issuer(
    campaign: CampaignData,
    now: u64,
    amount: i128,
    i: int,
)
    requires
        campaign.status == CampaignStatus::Active || campaign.status
            == CampaignStatus::GoalReached,
        amount > 0,
        now <= campaign.end_time,
        0 <= i < campaign.accepted_assets@.len(),
        campaign.accepted_assets@[i].asset_code@ == seq![0x58u8, 0x4Cu8, 0x4Du8],
        forall|j: int|
            0 <= j < i ==> (#[trigger] campaign.accepted_assets@[j]).asset_code@
                != seq![0x58u8, 0x4Cu8, 0x4Du8],
    ensures
        contract::donate_verdict(Some(campaign), now, amount, AssetInfo::Native) == (
        match campaign.accepted_assets@[i].issuer {
            Some(token) => Ok::<Address, Error>(token),
            None => Err::<Address, Error>(Error::AssetNotAccepted),
        }),
{
    assert(crate::assets::is_first_xlm(campaign.accepted_assets@, i));
}

/// Where no accepted asset has the bytes of `XLM` as its code, an open campaign
/// refuses a donation in native XLM for its asset.
pub proof fn law_native_is_refused_without_xlm(campaign: CampaignData, now: u64, amount: i128)
    requires
        campaign.status == CampaignStatus::Active || campaign.status
            == CampaignStatus::GoalReached,
        amount > 0,
        now <= campaign.end_time,
        forall|j: int|
            0 <= j < campaign.accepted_assets@.len() ==> (
            #[trigger] campaign.accepted_assets@[j]).asset_code@
                != seq![0x58u8, 0x4Cu8, 0x4Du8],
    ensures
        contract::donate_verdict(Some(campaign), now, amount, AssetInfo::Native) == Err::<
            Address,
            Error,
        >(Error::AssetNotAccepted),
{
}

/// A donation is refused for its amount, for want of a campaign, for the
/// campaign's status and for the time in exactly these cases. Where none of
/// them holds, only its asset can be in the way.
pub proof fn law_donation_is_refused_exactly_when(
    stored: Option<CampaignData>,
    now: u64,
    amount: i128,
    asset: AssetInfo,
)
    ensures
        ({
            let verdict = contract::donate_verdict(stored, now, amount, asset);
            &&& verdict == Err::<Address, Error>(Error::InvalidDonationAmount) <==> amount <= 0
            &&& verdict == Err::<Address, Error>(Error::NotInitialized) <==> amount > 0
                && stored is None
            &&& verdict == Err::<Address, Error>(Error::CampaignNotActive) <==> amount > 0
                && stored is Some && ((stored->0).status == CampaignStatus::Ended || (
            stored->0).status == CampaignStatus::Cancelled)
            &&& verdict == Err::<Address, Error>(Error::CampaignEnded) <==> amount > 0
                && stored is Some && ((stored->0).status == CampaignStatus::Active || (
            stored->0).status == CampaignStatus::GoalReached) && now > (stored->0).end_time
            &&& (verdict is Ok || verdict == Err::<Address, Error>(Error::AssetNotAccepted))
                <==> amount > 0 && stored is Some && ((stored->0).status
                == CampaignStatus::Active || (stored->0).status == CampaignStatus::GoalReached)
                && now <= (stored->0).end_time
        }),
{
}

/// `donate` can always be called, and an accepted donation keeps the campaign
/// as it is stored and the donor, amount, asset and time as they are given. It
/// is paid from the donor to the contract, in the amount that is given.
pub proof fn law_donate_orders_the_given_transfer(
    stored: Option<CampaignData>,
    now: u64,
    contract: Address,
    donor: Address,
    amount: i128,
    asset: AssetInfo,
    outcome: Result<PendingDonation, Error>,
)
    requires
        call_ensures(
            CampaignContract::donate,
            (stored, now, contract, donor, amount, asset),
            outcome,
        ),
    ensures
        call_requires(
            CampaignContract::donate,
            (stored, now, contract, donor, amount, asset),
        ),
        outcome matches Ok(pending) ==> {
            &&& stored == Some(pending.campaign)
            &&& pending.donor == donor
            &&& pending.amount == amount
            &&& pending.asset == asset
            &&& pending.time == now
            &&& pending.transfer.from == donor
            &&& pending.transfer.to == contract
            &&& pending.transfer.amount == amount
        },
{
}

/// `donate` refuses for the amount, the missing campaign, the status and the
/// time, in this order, and accepts nothing that breaks one of these rules.
pub proof fn law_donate_refuses_what_breaks_a_rule(
    stored: Option<CampaignData>,
    now: u64,
    contract: Address,
    donor: Address,
    amount: i128,
    asset: AssetInfo,
    outcome: Result<PendingDonation, Error>,
)
    requires
        call_ensures(
            CampaignContract::donate,
            (stored, now, contract, donor, amount, asset),
            outcome,
        ),
    ensures
        outcome == Err::<PendingDonation, Error>(Error::InvalidDonationAmount) <==> amount <= 0,
        outcome == Err::<PendingDonation, Error>(Error::NotInitialized) <==> amount > 0
            && stored is None,
        outcome == Err::<PendingDonation, Error>(Error::CampaignNotActive) <==> amount > 0
            && stored is Some && ((stored->0).status == CampaignStatus::Ended || (
        stored->0).status == CampaignStatus::Cancelled),
        outcome == Err::<PendingDonation, Error>(Error::CampaignEnded) <==> amount > 0
            && stored is Some && ((stored->0).status == CampaignStatus::Active || (
        stored->0).status == CampaignStatus::GoalReached) && now > (stored->0).end_time,
        (outcome is Ok || outcome == Err::<PendingDonation, Error>(Error::AssetNotAccepted))
            <==> amount > 0 && stored is Some && ((stored->0).status == CampaignStatus::Active
            || (stored->0).status == CampaignStatus::GoalReached) && now
            <= (stored->0).end_time,
{
}

/// `donate` to an open campaign accepts a token exactly where an accepted asset
/// has it as its issuer, and orders the transfer in that token.
pub proof fn law_donate_takes_exactly_the_listed_tokens(
    campaign: CampaignData,
    now: u64,
    contract: Address,
    donor: Address,
    amount: i128,
    token: Address,
    outcome: Result<PendingDonation, Error>,
)
    requires
        campaign.status == CampaignStatus::Active || campaign.status
            == CampaignStatus::GoalReached,
        amount > 0,
        now <= campaign.end_time,
        call_ensures(
            CampaignContract::donate,
            (Some(campaign), now, contract, donor, amount, AssetInfo::Stellar(token)),
            outcome,
        ),
    ensures
        outcome is Ok <==> exists|i: int|
            0 <= i < campaign.accepted_assets@.len() && (
            #[trigger] campaign.accepted_assets@[i]).issuer == Some(token),
        outcome matches Ok(pending) ==> pending.transfer.token == token,
        outcome matches Err(error) ==> error == Error::AssetNotAccepted,
{
}

/// `donate` of native XLM to an open campaign goes by the first accepted asset
/// whose code is the bytes of `XLM`: where that asset has an issuer, it orders
/// the transfer in the issuer's token; where it has none, or there is no such
/// asset, it refuses.
pub proof fn law_donate_takes_native_through_the_first_xlm(
    campaign: CampaignData,
    now: u64,
    contract: Address,
    donor: Address,
    amount: i128,
    token: Address,
    outcome: Result<PendingDonation, Error>,
)
    requires
        campaign.status == CampaignStatus::Active || campaign.status
            == CampaignStatus::GoalReached,
        amount > 0,
        now <= campaign.end_time,
        call_ensures(
            CampaignContract::donate,
            (Some(campaign), now, contract, donor, amount, AssetInfo::Native),
            outcome,
        ),
    ensures
        (outcome is Ok && (outcome->Ok_0).transfer.token == token) <==> exists|i: int|
            {
                &&& 0 <= i < campaign.accepted_assets@.len()
                &&& (#[trigger] campaign.accepted_assets@[i]).asset_code@
                    == seq![0x58u8, 0x4Cu8, 0x4Du8]
                &&& campaign.accepted_assets@[i].issuer == Some(token)
                &&& forall|j: int|
                    0 <= j < i ==> (#[trigger] campaign.accepted_assets@[j]).asset_code@
                        != seq![0x58u8, 0x4Cu8, 0x4Du8]
            },
        outcome matches Err(error) ==> error == Error::AssetNotAccepted,
{
    let accepted = campaign.accepted_assets@;
    if outcome is Ok {
        let i = choose|i: int| crate::assets::is_first_xlm(accepted, i);
        assert(crate::assets::is_first_xlm(accepted, i));
        assert(accepted[i].issuer == Some((outcome->Ok_0).transfer.token));
    }
    if exists|i: int|
        {
            &&& 0 <= i < accepted.len()
            &&& (#[trigger] accepted[i]).asset_code@ == seq![0x58u8, 0x4Cu8, 0x4Du8]
            &&& accepted[i].issuer == Some(token)
            &&& forall|j: int|
                0 <= j < i ==> (#[trigger] accepted[j]).asset_code@
                    != seq![0x58u8, 0x4Cu8, 0x4Du8]
        } {
        let i = choose|i: int|
            {
                &&& 0 <= i < accepted.len()
                &&& (#[trigger] accepted[i]).asset_code@ == seq![0x58u8, 0x4Cu8, 0x4Du8]
                &&& accepted[i].issuer == Some(token)
                &&& forall|j: int|
                    0 <= j < i ==> (#[trigger] accepted[j]).asset_code@
                        != seq![0x58u8, 0x4Cu8, 0x4Du8]
            };
        law_native_is_paid_to_the_first_xlm_issuer(campaign, now, amount, i);
    }
}

/// The token of an asset is found for a campaign of any status and at any
/// time: a token by its address where an accepted asset has it as its issuer.
pub proof fn law_token_address_is_a_listed_issuer(
    campaign: CampaignData,
    token: Address,
    found: Result<Address, Error>,
)
    requires
        call_ensures(
            get_token_address_for_asset,
            (&AssetInfo::Stellar(token), &campaign),
            found,
        ),
    ensures
        found == (if (exists|i: int|
            0 <= i < campaign.accepted_assets@.len() && (
            #[trigger] campaign.accepted_assets@[i]).issuer == Some(token)) {
            Ok::<Address, Error>(token)
        } else {
            Err::<Address, Error>(Error::AssetNotAccepted)
        }),
{
}

/// The token of native XLM is the issuer of the first accepted asset whose code
/// is the bytes of `XLM`; it is not found where that asset has no issuer.
pub proof fn law_native_token_address_is_the_first_xlm_issuer(
    campaign: CampaignData,
    i: int,
    found: Result<Address, Error>,
)
    requires
        0 <= i < campaign.accepted_assets@.len(),
        campaign.accepted_assets@[i].asset_code@ == seq![0x58u8, 0x4Cu8, 0x4Du8],
        forall|j: int|
            0 <= j < i ==> (#[trigger] campaign.accepted_assets@[j]).asset_code@
                != seq![0x58u8, 0x4Cu8, 0x4Du8],
        call_ensures(get_token_address_for_asset, (&AssetInfo::Native, &campaign), found),
    ensures
        found == (match campaign.accepted_assets@[i].issuer {
            Some(token) => Ok::<Address, Error>(token),
            None => Err::<Address, Error>(Error::AssetNotAccepted),
        }),
{
    assert(crate::assets::is_first_xlm(campaign.accepted_assets@, i));
}

/// The token of native XLM is not found where no accepted asset has the bytes
/// of `XLM` as its code.
pub proof fn law_native_token_address_needs_xlm(
    campaign: CampaignData,
    found: Result<Address, Error>,
)
    requires
        forall|j: int|
            0 <= j < campaign.accepted_assets@.len() ==> (
            #[trigger] campaign.accepted_assets@[j]).asset_code@
                != seq![0x58u8, 0x4Cu8, 0x4Du8],
        call_ensures(get_token_address_for_asset, (&AssetInfo::Native, &campaign), found),
    ensures
        found == Err::<Address, Error>(Error::AssetNotAccepted),
{
}

/// A donation can be settled whenever its two sums are within range. What it
/// raises is its amount: the campaign is stored with that much more and no
/// other change, and the donor's record, under the donor's key, with that much
/// more and the time of the donation, or, for a first donation, with the amount,
/// the asset and the time. The announcement names the donor, the amount and the
/// asset.
pub proof fn law_settle_credits_the_amount(
    pending: PendingDonation,
    existing: Option<DonorRecord>,
    settled: SettledDonation,
)
    requires
        i128::MIN <= pending.campaign.raised_amount + pending.amount <= i128::MAX,
        existing matches Some(record) ==> i128::MIN <= record.total_donated + pending.amount
            <= i128::MAX,
        call_ensures(PendingDonation::settle, (pending, existing), settled),
    ensures
        call_requires(PendingDonation::settle, (pending, existing)),
        settled.writes@.len() == 2,
        settled.writes@[0].key == DataKey::CampaignData,
        settled.writes@[0].value matches StoredValue::Campaign(campaign) && {
            &&& campaign.raised_amount == pending.campaign.raised_amount + pending.amount
            &&& campaign.creator == pending.campaign.creator
            &&& campaign.goal_amount == pending.campaign.goal_amount
            &&& campaign.end_time == pending.campaign.end_time
            &&& campaign.status == pending.campaign.status
            &&& campaign.accepted_assets == pending.campaign.accepted_assets
            &&& campaign.milestone_count == pending.campaign.milestone_count
        },
        settled.writes@[1].key == DataKey::DonorData(pending.donor),
        settled.writes@[1].value matches StoredValue::Donor(record) && {
            &&& record.last_donation_time == pending.time
            &&& existing matches Some(before) ==> {
                &&& record.donor == before.donor
                &&& record.total_donated == before.total_donated + pending.amount
                &&& record.asset == before.asset
            }
            &&& existing is None ==> {
                &&& record.donor == pending.donor
                &&& record.total_donated == pending.amount
                &&& record.asset == pending.asset
            }
        },
        settled.event == ContractEvent::DonationReceived(
            pending.donor,
            pending.amount,
            pending.asset,
        ),
{
}

/// A donation that is accepted and then settled stores the campaign as it was,
/// but for the given amount that has been raised on top, and credits that
/// amount to the given donor at the given time.
pub proof fn law_donate_and_settle_move_the_given_amount(
    campaign: CampaignData,
    existing: Option<DonorRecord>,
    now: u64,
    contract: Address,
    donor: Address,
    amount: i128,
    asset: AssetInfo,
    pending: PendingDonation,
    settled: SettledDonation,
)
    requires
        campaign.raised_amount + amount <= i128::MAX,
        existing matches Some(record) ==> record.total_donated + amount <= i128::MAX,
        call_ensures(
            CampaignContract::donate,
            (Some(campaign), now, contract, donor, amount, asset),
            Ok::<PendingDonation, Error>(pending),
        ),
        call_ensures(PendingDonation::settle, (pending, existing), settled),
    ensures
        call_requires(PendingDonation::settle, (pending, existing)),
        settled.writes@[0] == (StorageWrite {
            key: DataKey::CampaignData,
            value: StoredValue::Campaign(
                CampaignData { raised_amount: (campaign.raised_amount + amount) as i128, ..campaign },
            ),
        }),
        settled.writes@[1].key == DataKey::DonorData(donor),
        settled.writes@[1].value matches StoredValue::Donor(record) && record.total_donated
            == amount + (match existing {
            Some(before) => before.total_donated as int,
            None => 0,
        }) && record.last_donation_time == now,
        settled.event == ContractEvent::DonationReceived(donor, amount, asset),
{
}

// ---------------------------------------------------------------------------
// Initialization

/// A campaign may start on its terms if and only if the creator has authorized
/// it, there is none yet, the goal is positive, the end lies ahead, one asset or
/// more is accepted and each has a code, and there are one to five milestones
/// with strictly ascending targets of which the last is the goal.
pub proof fn law_terms_are_accepted_exactly_when(
    authorized: bool,
    stored: Option<CampaignData>,
    now: u64,
    terms: CampaignTerms,
)
    ensures
        contract::initialize_verdict(authorized, stored, now, terms) is Ok <==> {
            &&& authorized
            &&& stored is None
            &&& terms.goal_amount > 0
            &&& terms.end_time > now
            &&& terms.accepted_assets@.len() >= 1
            &&& forall|i: int|
                0 <= i < terms.accepted_assets@.len() ==> (
                #[trigger] terms.accepted_assets@[i]).asset_code@.len() >= 1
            &&& 1 <= terms.milestones@.len() <= 5
            &&& forall|i: int, j: int|
                0 <= i < j < terms.milestones@.len() ==> terms.milestones@[i].target_amount
                    < terms.milestones@[j].target_amount
            &&& terms.milestones@[terms.milestones@.len() - 1].target_amount
                == terms.goal_amount
        },
{
}

/// `initialize` can be called with any number of assets that a `u32` counts. It
/// succeeds if and only if all of its rules are kept.
pub proof fn law_initialize_succeeds_exactly_when(
    authorized: bool,
    stored: Option<CampaignData>,
    now: u64,
    creator: Address,
    goal_amount: i128,
    end_time: u64,
    accepted_assets: Vec<StellarAsset>,
    milestones: Vec<MilestoneData>,
    outcome: Result<Initialized, Error>,
)
    requires
        accepted_assets@.len() <= u32::MAX,
        call_ensures(
            CampaignContract::initialize,
            (
                authorized,
                &stored,
                now,
                creator,
                goal_amount,
                end_time,
                accepted_assets,
                milestones,
            ),
            outcome,
        ),
    ensures
        call_requires(
            CampaignContract::initialize,
            (
                authorized,
                &stored,
                now,
                creator,
                goal_amount,
                end_time,
                accepted_assets,
                milestones,
            ),
        ),
        outcome is Ok <==> {
            &&& authorized
            &&& stored is None
            &&& goal_amount > 0
            &&& end_time > now
            &&& accepted_assets@.len() >= 1
            &&& forall|i: int|
                0 <= i < accepted_assets@.len() ==> (
                #[trigger] accepted_assets@[i]).asset_code@.len() >= 1
            &&& 1 <= milestones@.len() <= 5
            &&& forall|i: int, j: int|
                0 <= i < j < milestones@.len() ==> milestones@[i].target_amount
                    < milestones@[j].target_amount
            &&& milestones@[milestones@.len() - 1].target_amount == goal_amount
        },
{
    law_terms_are_accepted_exactly_when(
        authorized,
        stored,
        now,
        CampaignTerms { creator, goal_amount, end_time, accepted_assets, milestones },
    );
}

/// `initialize` names the first rule that is broken: authorization, that there
/// is no campaign yet, the goal, the end, the assets, their codes, the number
/// of milestones, their order, and the last target.
pub proof fn law_initialize_names_the_first_broken_rule(
    authorized: bool,
    stored: Option<CampaignData>,
    now: u64,
    creator: Address,
    goal_amount: i128,
    end_time: u64,
    accepted_assets: Vec<StellarAsset>,
    milestones: Vec<MilestoneData>,
    outcome: Result<Initialized, Error>,
)
    requires
        call_ensures(
            CampaignContract::initialize,
            (
                authorized,
                &stored,
                now,
                creator,
                goal_amount,
                end_time,
                accepted_assets,
                milestones,
            ),
            outcome,
        ),
    ensures
        outcome == Err::<Initialized, Error>(Error::UnauthorizedCreator) <==> !authorized,
        outcome == Err::<Initialized, Error>(Error::AlreadyInitialized) <==> authorized
            && stored is Some,
        outcome == Err::<Initialized, Error>(Error::InvalidGoalAmount) <==> authorized
            && stored is None && goal_amount <= 0,
        outcome == Err::<Initialized, Error>(Error::InvalidEndTime) <==> authorized
            && stored is None && goal_amount > 0 && end_time <= now,
        outcome == Err::<Initialized, Error>(Error::InvalidAssets) <==> authorized
            && stored is None && goal_amount > 0 && end_time > now && accepted_assets@.len()
            == 0,
        outcome == Err::<Initialized, Error>(Error::InvalidAssetCode) <==> authorized
            && stored is None && goal_amount > 0 && end_time > now && exists|i: int|
            0 <= i < accepted_assets@.len() && (
            #[trigger] accepted_assets@[i]).asset_code@.len() == 0,
        outcome == Err::<Initialized, Error>(Error::InvalidMilestoneCount) <==> authorized
            && stored is None && goal_amount > 0 && end_time > now && accepted_assets@.len() >= 1
            && (forall|i: int|
            0 <= i < accepted_assets@.len() ==> (
            #[trigger] accepted_assets@[i]).asset_code@.len() >= 1) && !(1 <= milestones@.len()
            <= 5),
        outcome == Err::<Initialized, Error>(Error::InvalidMilestones) <==> authorized
            && stored is None && goal_amount > 0 && end_time > now && accepted_assets@.len() >= 1
            && (forall|i: int|
            0 <= i < accepted_assets@.len() ==> (
            #[trigger] accepted_assets@[i]).asset_code@.len() >= 1) && 1 <= milestones@.len()
            <= 5 && exists|i: int, j: int|
            0 <= i < j < milestones@.len() && milestones@[i].target_amount
                >= milestones@[j].target_amount,
        outcome == Err::<Initialized, Error>(Error::MilestoneMismatch) <==> authorized
            && stored is None && goal_amount > 0 && end_time > now && accepted_assets@.len() >= 1
            && (forall|i: int|
            0 <= i < accepted_assets@.len() ==> (
            #[trigger] accepted_assets@[i]).asset_code@.len() >= 1) && 1 <= milestones@.len()
            <= 5 && (forall|i: int, j: int|
            0 <= i < j < milestones@.len() ==> milestones@[i].target_amount
                < milestones@[j].target_amount) && milestones@[milestones@.len()
            - 1].target_amount != goal_amount,
{
}

/// A successful `initialize` stores, in this order, an active campaign on the
/// given terms with nothing raised and every given milestone under its
/// position, and nothing else. It announces the creator, the goal, the end and
/// the numbers of assets and milestones.
pub proof fn law_initialize_stores_and_announces_what_is_given(
    authorized: bool,
    stored: Option<CampaignData>,
    now: u64,
    creator: Address,
    goal_amount: i128,
    end_time: u64,
    accepted_assets: Vec<StellarAsset>,
    milestones: Vec<MilestoneData>,
    done: Initialized,
)
    requires
        accepted_assets@.len() <= u32::MAX,
        call_ensures(
            CampaignContract::initialize,
            (
                authorized,
                &stored,
                now,
                creator,
                goal_amount,
                end_time,
                accepted_assets,
                milestones,
            ),
            Ok::<Initialized, Error>(done),
        ),
    ensures
        done.writes@.len() == milestones@.len() + 1,
        done.writes@[0].key == DataKey::CampaignData,
        done.writes@[0].value matches StoredValue::Campaign(campaign) && {
            &&& campaign.creator == creator
            &&& campaign.goal_amount == goal_amount
            &&& campaign.raised_amount == 0
            &&& campaign.end_time == end_time
            &&& campaign.status == CampaignStatus::Active
            &&& campaign.accepted_assets == accepted_assets
            &&& campaign.milestone_count == milestones@.len()
        },
        forall|i: int|
            0 <= i < milestones@.len() ==> {
                &&& done.writes@[i + 1].key == DataKey::MilestoneData(i as u32)
                &&& done.writes@[i + 1].value == StoredValue::Milestone(
                    #[trigger] milestones@[i],
                )
            },
        done.event matches ContractEvent::CampaignInitialized(event) && {
            &&& event.creator == creator
            &&& event.goal_amount == goal_amount
            &&& event.end_time == end_time
            &&& event.asset_count == accepted_assets@.len()
            &&& event.milestone_count == milestones@.len()
        },
{
}

/// The check of assets passes if and only if no code is empty, and fails for
/// the code.
pub proof fn law_assets_pass_iff_every_code_is_given(
    assets: Vec<StellarAsset>,
    verdict: Result<(), Error>,
)
    requires
        call_ensures(validate_assets, (&assets,), verdict),
    ensures
        verdict is Err <==> exists|i: int|
            0 <= i < assets@.len() && (#[trigger] assets@[i]).asset_code@.len() == 0,
        verdict matches Err(error) ==> error == Error::InvalidAssetCode,
{
}

/// The check of milestones passes if and only if there are any, each has a
/// larger target than the one right before it, and the last target is the
/// goal. It fails for the goal only where the milestones are in order.
pub proof fn law_milestones_pass_iff_each_exceeds_the_one_before(
    milestones: Vec<MilestoneData>,
    goal_amount: i128,
    verdict: Result<(), Error>,
)
    requires
        call_ensures(validate_milestones, (&milestones, goal_amount), verdict),
    ensures
        verdict is Ok <==> {
            &&& milestones@.len() > 0
            &&& forall|i: int, j: int|
                0 <= i && j == i + 1 && j < milestones@.len() ==> (
                #[trigger] milestones@[i]).target_amount < (
                #[trigger] milestones@[j]).target_amount
            &&& milestones@[milestones@.len() - 1].target_amount == goal_amount
        },
        verdict == Err::<(), Error>(Error::MilestoneMismatch) <==> {
            &&& milestones@.len() > 0
            &&& forall|i: int, j: int|
                0 <= i && j == i + 1 && j < milestones@.len() ==> (
                #[trigger] milestones@[i]).target_amount < (
                #[trigger] milestones@[j]).target_amount
            &&& milestones@[milestones@.len() - 1].target_amount != goal_amount
        },
        verdict matches Err(error) ==> error == Error::InvalidMilestones || error
            == Error::MilestoneMismatch,
{
    let listed = milestones@;
    if forall|i: int, j: int|
        0 <= i && j == i + 1 && j < listed.len() ==> (#[trigger] listed[i]).target_amount < (
        #[trigger] listed[j]).target_amount {
        assert forall|i: int, j: int| 0 <= i < j < listed.len() implies listed[i].target_amount
            < listed[j].target_amount by {
            lemma_neighbours_ascend(listed, i, j);
        }
    }
}

/// Where every target is below the next, any earlier one is below any later.
proof fn lemma_neighbours_ascend(milestones: Seq<MilestoneData>, i: int, j: int)
    requires
        forall|a: int, b: int|
            0 <= a && b == a + 1 && b < milestones.len() ==> (
            #[trigger] milestones[a]).target_amount < (#[trigger] milestones[b]).target_amount,
        0 <= i < j < milestones.len(),
    ensures
        milestones[i].target_amount < milestones[j].target_amount,
    decreases j - i,
{
    if i < j - 1 {
        lemma_neighbours_ascend(milestones, i, j - 1);
    }
    assert(milestones[j - 1].target_amount < milestones[j].target_amount);
}

// ---------------------------------------------------------------------------
// Reading

/// Anyone is told of the stored campaign as it is stored, with every field, and
/// that there is none where there is none.
pub proof fn law_info_is_the_stored_campaign(
    stored: Option<CampaignData>,
    info: Result<CampaignData, Error>,
)
    requires
        call_ensures(CampaignContract::get_campaign_info, (stored,), info),
    ensures
        info is Ok <==> stored is Some,
        info matches Ok(campaign) ==> stored == Some(campaign),
        info matches Err(error) ==> error == Error::NotInitialized,
{
}

/// What anyone is told of a new contract's campaign after any calls has, as
/// the raised amount, the sum of the donations that were carried out.
pub proof fn law_info_reports_what_was_given(calls: Seq<Call>, info: Result<CampaignData, Error>)
    requires
        call_ensures(
            CampaignContract::get_campaign_info,
            (storage::stored_campaign(laws::after_calls(Map::empty(), calls)),),
            info,
        ),
    ensures
        info matches Ok(campaign) ==> campaign.raised_amount == laws::received_over(
            Map::empty(),
            calls,
        ),
        info is Err ==> laws::received_over(Map::empty(), calls) == 0,
{
    laws::law_accounts_are_the_sums_of_donations(calls, arbitrary());
}

/// What anyone is told before and after a donation differs by the amount that
/// was carried out, and by nothing else.
pub proof fn law_info_moves_with_a_donation(
    ledger: Ledger,
    now: u64,
    donor: Address,
    amount: i128,
    asset: AssetInfo,
    before: CampaignData,
    after: CampaignData,
)
    requires
        laws::is_carried_out(ledger, Call::Donate { now, donor, amount, asset, paid: true }),
        call_ensures(
            CampaignContract::get_campaign_info,
            (storage::stored_campaign(ledger),),
            Ok::<CampaignData, Error>(before),
        ),
        call_ensures(
            CampaignContract::get_campaign_info,
            (
                storage::stored_campaign(
                    laws::after_call(
                        ledger,
                        Call::Donate { now, donor, amount, asset, paid: true },
                    ),
                ),
            ),
            Ok::<CampaignData, Error>(after),
        ),
    ensures
        after.raised_amount == before.raised_amount + amount,
        after == (CampaignData { raised_amount: after.raised_amount, ..before }),
{
    laws::law_donation_is_credited(ledger, now, donor, amount, asset);
}

/// A paid donation to an open campaign in a token that an accepted asset has as
/// its issuer is carried out, where both sums are within range; and what the
/// campaign raises by it is its amount.
pub proof fn law_paid_donation_is_carried_out(
    ledger: Ledger,
    campaign: CampaignData,
    i: int,
    now: u64,
    donor: Address,
    amount: i128,
    token: Address,
)
    requires
        storage::stored_campaign(ledger) == Some(campaign),
        campaign.status == CampaignStatus::Active || campaign.status
            == CampaignStatus::GoalReached,
        amount > 0,
        now <= campaign.end_time,
        0 <= i < campaign.accepted_assets@.len(),
        campaign.accepted_assets@[i].issuer == Some(token),
        i128::MIN <= campaign.raised_amount + amount <= i128::MAX,
        storage::stored_donor(ledger, donor) matches Some(record) ==> i128::MIN
            <= record.total_donated + amount <= i128::MAX,
    ensures
        ({
            let call = Call::Donate {
                now,
                donor,
                amount,
                asset: AssetInfo::Stellar(token),
                paid: true,
            };
            &&& laws::is_carried_out(ledger, call)
            &&& laws::raised_in(laws::after_call(ledger, call)) == campaign.raised_amount + amount
            &&& laws::total_of(laws::after_call(ledger, call), donor) == laws::total_of(
                ledger,
                donor,
            ) + amount
        }),
{
    let call = Call::Donate { now, donor, amount, asset: AssetInfo::Stellar(token), paid: true };
    law_token_is_accepted_iff_listed(campaign, now, amount, token);
    assert(campaign.accepted_assets@[i].issuer == Some(token));
    assert(laws::is_carried_out(ledger, call));
    laws::law_donation_is_credited(ledger, now, donor, amount, AssetInfo::Stellar(token));
}

/// The creator whose authorization is required is the one of the stored
/// campaign; without a campaign there is none.
pub proof fn law_required_creator_is_the_stored_one(
    stored: Option<CampaignData>,
    creator: Result<Address, Error>,
)
    requires
        call_ensures(require_creator, (&stored,), creator),
    ensures
        creator is Ok <==> stored is Some,
        stored matches Some(campaign) ==> creator == Ok::<Address, Error>(campaign.creator),
        creator matches Err(error) ==> error == Error::UnauthorizedCreator,
{
}

/// An asset is native XLM if and only if it has no issuer, whatever its code.
pub proof fn law_xlm_has_no_issuer(asset: StellarAsset, native: bool)
    requires
        call_ensures(StellarAsset::is_xlm, (&asset,), native),
    ensures
        native <==> asset.issuer == None::<Address>,
{
}

/// Two addresses are equal if and only if they have the same character in
/// every place.
pub proof fn law_addresses_are_equal_character_by_character(a: Address, b: Address)
    ensures
        a.eq_spec(&b) <==> forall|i: int| 0 <= i < 56 ==> a.strkey[i] == b.strkey[i],
{
    if forall|i: int| 0 <= i < 56 ==> a.strkey[i] == b.strkey[i] {
        assert(a.strkey =~= b.strkey);
    }
}

/// The contract's name is `campaign`, and its version is one.
pub proof fn law_contract_has_its_name_and_version(
    env: soroban_sdk::Env,
    name: soroban_sdk::Symbol,
    version: u32,
)
    requires
        call_ensures(CampaignContract::hello, (env,), name),
        call_ensures(CampaignContract::version, (), version),
    ensures
        sdk::symbol_text(name) == seq!['c', 'a', 'm', 'p', 'a', 'i', 'g', 'n'],
        version == 1,
{
    reveal_strlit("campaign");
}

/// An initialization is published under `campaign` and `initialized`, and a
/// donation under `donation` and `received`.
pub proof fn law_events_have_their_topics(
    event: ContractEvent,
    topics: (&'static str, &'static str),
)
    requires
        call_ensures(ContractEvent::topics, (&event,), topics),
    ensures
        event is CampaignInitialized ==> topics.0@ == seq![
            'c',
            'a',
            'm',
            'p',
            'a',
            'i',
            'g',
            'n',
        ] && topics.1@ == seq!['i', 'n', 'i', 't', 'i', 'a', 'l', 'i', 'z', 'e', 'd'],
        event is DonationReceived ==> topics.0@ == seq![
            'd',
            'o',
            'n',
            'a',
            't',
            'i',
            'o',
            'n',
        ] && topics.1@ == seq!['r', 'e', 'c', 'e', 'i', 'v', 'e', 'd'],
{
    reveal_strlit("campaign");
    reveal_strlit("initialized");
    reveal_strlit("donation");
    reveal_strlit("received");
}

// ---------------------------------------------------------------------------
// Statuses and errors

/// A campaign moves from active to any other status, from its goal reached to
/// ended or cancelled, and from ended to cancelled. Every other move is refused.
pub proof fn law_campaign_moves_are_these(
    current: CampaignStatus,
    next: CampaignStatus,
    verdict: Result<(), Error>,
)
    requires
        call_ensures(validate_campaign_transition, (&current, &next), verdict),
    ensures
        verdict is Ok <==> {
            ||| current == CampaignStatus::Active && next == CampaignStatus::GoalReached
            ||| current == CampaignStatus::Active && next == CampaignStatus::Ended
            ||| current == CampaignStatus::Active && next == CampaignStatus::Cancelled
            ||| current == CampaignStatus::GoalReached && next == CampaignStatus::Ended
            ||| current == CampaignStatus::GoalReached && next == CampaignStatus::Cancelled
            ||| current == CampaignStatus::Ended && next == CampaignStatus::Cancelled
        },
        verdict matches Err(error) ==> error == Error::InvalidCampaignTransition,
{
}

/// A milestone moves from locked to unlocked or released, and from unlocked to
/// released. Every other move is refused.
pub proof fn law_milestone_moves_are_these(
    current: MilestoneStatus,
    next: MilestoneStatus,
    verdict: Result<(), Error>,
)
    requires
        call_ensures(validate_milestone_transition, (&current, &next), verdict),
    ensures
        verdict is Ok <==> {
            ||| current == MilestoneStatus::Locked && next == MilestoneStatus::Unlocked
            ||| current == MilestoneStatus::Locked && next == MilestoneStatus::Released
            ||| current == MilestoneStatus::Unlocked && next == MilestoneStatus::Released
        },
        verdict matches Err(error) ==> error == Error::InvalidMilestoneTransition,
{
}

/// Every error has its code: those of an initialization come first, then those
/// of status moves and open campaigns, then those of a running campaign.
pub proof fn law_errors_have_their_codes(error: Error, code: u32)
    requires
        call_ensures(Error::code, (error,), code),
    ensures
        error == Error::InvalidGoalAmount <==> code == 1,
        error == Error::InvalidEndTime <==> code == 2,
        error == Error::InvalidAssets <==> code == 3,
        error == Error::InvalidAssetCode <==> code == 4,
        error == Error::InvalidMilestones <==> code == 5,
        error == Error::MilestoneMismatch <==> code == 6,
        error == Error::InvalidMilestoneCount <==> code == 7,
        error == Error::AlreadyInitialized <==> code == 8,
        error == Error::UnauthorizedCreator <==> code == 9,
        error == Error::InvalidCampaignTransition <==> code == 10,
        error == Error::InvalidMilestoneTransition <==> code == 11,
        error == Error::CampaignNotActive <==> code == 12,
        error == Error::CampaignEnded <==> code == 13,
        error == Error::GoalNotReached <==> code == 14,
        error == Error::NotInitialized <==> code == 15,
        error == Error::AssetNotAccepted <==> code == 16,
        error == Error::InvalidDonationAmount <==> code == 17,
        1 <= code <= 17,
{
}

} // verus!
