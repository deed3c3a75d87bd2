//! The data a campaign is made of.

use vstd::prelude::*;

verus! {

/// Why a call on a campaign is refused.
#[derive(Clone, Copy, Debug, PartialEq, Eq, Structural)]
pub enum Error {
    /// The goal is zero or negative.
    InvalidGoalAmount,
    /// The end time is not after the current ledger timestamp.
    InvalidEndTime,
    /// No asset is accepted.
    InvalidAssets,
    /// An accepted asset has an empty code.
    InvalidAssetCode,
    /// The milestones are not sorted by strictly ascending target.
    InvalidMilestones,
    /// The last milestone's target is not the goal.
    MilestoneMismatch,
    /// There are no milestones, or more than `MAX_MILESTONES`.
    InvalidMilestoneCount,
    /// The campaign has been initialized before.
    AlreadyInitialized,
    /// The creator has not authorized the call, or there is no creator yet.
    UnauthorizedCreator,
    /// The campaign may not move from its status to the requested one.
    InvalidCampaignTransition,
    /// The milestone may not move from its status to the requested one.
    InvalidMilestoneTransition,
    /// The campaign's status does not allow donations.
    CampaignNotActive,
    /// The campaign's end time has passed.
    CampaignEnded,
    /// The goal has not been reached yet.
    GoalNotReached,
    /// The campaign has not been initialized.
    NotInitialized,
    /// The donated asset is not among the accepted ones.
    AssetNotAccepted,
    /// The donated amount is zero or negative.
    InvalidDonationAmount,
}

/// The number by which an error is known outside the contract.
pub open spec fn error_code(error: Error) -> u32 {
    match error {
        Error::InvalidGoalAmount => 1,
        Error::InvalidEndTime => 2,
        Error::InvalidAssets => 3,
        Error::InvalidAssetCode => 4,
        Error::InvalidMilestones => 5,
        Error::MilestoneMismatch => 6,
        Error::InvalidMilestoneCount => 7,
        Error::AlreadyInitialized => 8,
        Error::UnauthorizedCreator => 9,
        Error::InvalidCampaignTransition => 10,
        Error::InvalidMilestoneTransition => 11,
        Error::CampaignNotActive => 12,
        Error::CampaignEnded => 13,
        Error::GoalNotReached => 14,
        Error::NotInitialized => 15,
        Error::AssetNotAccepted => 16,
        Error::InvalidDonationAmount => 17,
    }
}

impl Error {
    /// Returns the number by which this error is known outside the contract.
    pub fn code(self) -> (code: u32)
        ensures
            code == error_code(self),
    {
        match self {
            Error::InvalidGoalAmount => 1,
            Error::InvalidEndTime => 2,
            Error::InvalidAssets => 3,
            Error::InvalidAssetCode => 4,
            Error::InvalidMilestones => 5,
            Error::MilestoneMismatch => 6,
            Error::InvalidMilestoneCount => 7,
            Error::AlreadyInitialized => 8,
            Error::UnauthorizedCreator => 9,
            Error::InvalidCampaignTransition => 10,
            Error::InvalidMilestoneTransition => 11,
            Error::CampaignNotActive => 12,
            Error::CampaignEnded => 13,
            Error::GoalNotReached => 14,
            Error::NotInitialized => 15,
            Error::AssetNotAccepted => 16,
            Error::InvalidDonationAmount => 17,
        }
    }
}

/// Where a campaign is in its life.
#[derive(Clone, Copy, Debug, PartialEq, Eq, Structural)]
pub enum CampaignStatus {
    /// Accepting donations.
    Active,
    /// The goal is reached; donations are accepted until the deadline.
    GoalReached,
    /// The deadline has passed, or the campaign was concluded.
    Ended,
    /// The creator cancelled the campaign.
    Cancelled,
}

/// Where a milestone is on its way to release.
#[derive(Clone, Copy, Debug, PartialEq, Eq, Structural)]
pub enum MilestoneStatus {
    /// The target has not been reached.
    Locked,
    /// The target has been reached; the release is awaited.
    Unlocked,
    /// The funds have been released.
    Released,
}

/// An account or a contract on the network, by its strkey: the 56 ASCII
/// characters that start with `G` for an account and with `C` for a contract.
#[derive(Clone, Copy, Debug, Eq)]
pub struct Address {
    pub strkey: [u8; 56],
}

impl PartialEq for Address {
    fn eq(&self, other: &Self) -> (same: bool) {
        let mut i: usize = 0;
        while i < 56
            invariant
                i <= 56,
                forall|j: int| 0 <= j < i ==> self.strkey[j] == other.strkey[j],
            decreases 56 - i,
        {
            if self.strkey[i] != other.strkey[i] {
                return false;
            }
            i = i + 1;
        }
        assert(self.strkey =~= other.strkey);
        true
    }
}

impl vstd::std_specs::cmp::PartialEqSpecImpl for Address {
    open spec fn obeys_eq_spec() -> bool {
        true
    }

    open spec fn eq_spec(&self, other: &Self) -> bool {
        *self == *other
    }
}

/// An asset that a campaign accepts.
#[derive(Clone, Debug, PartialEq, Eq)]
pub struct StellarAsset {
    /// The asset's code, such as `XLM` or `USDC`, byte by byte.
    pub asset_code: Vec<u8>,
    /// The asset's issuer; `None` for native XLM that is listed for display
    /// only, since a transfer needs the address of a token contract.
    pub issuer: Option<Address>,
}

impl StellarAsset {
    /// Tells whether this asset is native XLM, that is, has no issuer.
    pub fn is_xlm(&self) -> (native: bool)
        ensures
            native == (self.issuer is None),
    {
        self.issuer.is_none()
    }
}

/// The asset in which a donation is made.
#[derive(Clone, Copy, Debug, PartialEq, Eq)]
pub enum AssetInfo {
    /// Native XLM, by way of the token contract that the campaign's XLM entry
    /// names as its issuer.
    Native,
    /// The token whose contract has this address.
    Stellar(Address),
}

/// The keys under which a campaign's data is stored.
#[derive(Clone, Copy, Debug, PartialEq, Eq)]
pub enum DataKey {
    CampaignData,
    MilestoneData(u32),
    DonorData(Address),
    TotalRaised,
    ContractStatus,
}

/// A campaign.
#[derive(Clone, Debug, PartialEq, Eq)]
pub struct CampaignData {
    pub creator: Address,
    pub goal_amount: i128,
    pub raised_amount: i128,
    pub end_time: u64,
    pub status: CampaignStatus,
    pub accepted_assets: Vec<StellarAsset>,
    pub milestone_count: u32,
}

/// The largest number of milestones a campaign can have.
pub const MAX_MILESTONES: u32 = 5;

/// A milestone on the way to a campaign's goal.
#[derive(Clone, Copy, Debug, PartialEq, Eq)]
pub struct MilestoneData {
    pub index: u32,
    pub target_amount: i128,
    pub description_hash: [u8; 32],
    pub status: MilestoneStatus,
    pub released_at: Option<u64>,
    pub release_tx: Option<[u8; 32]>,
}

/// What one donor has given to a campaign, over all of their donations.
#[derive(Clone, Copy, Debug, PartialEq, Eq)]
pub struct DonorRecord {
    pub donor: Address,
    pub total_donated: i128,
    /// The asset of the first donation.
    pub asset: AssetInfo,
    pub last_donation_time: u64,
}

/// What is announced when a campaign has been initialized.
#[derive(Clone, Copy, Debug, PartialEq, Eq)]
pub struct CampaignInitializedEvent {
    pub creator: Address,
    pub goal_amount: i128,
    pub end_time: u64,
    pub asset_count: u32,
    pub milestone_count: u32,
}

} // verus!
