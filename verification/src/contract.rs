//! The contract's functions.
//!
//! Each function takes what the host holds (the stored campaign, the ledger
//! timestamp, the contract's own address) as plain values, and returns what
//! the host is to do: the transfer to make, the values to store, the event to
//! publish. A refused call asks for nothing.

use soroban_sdk::{Env, Symbol};
use vstd::prelude::*;

use crate::assets::{self, get_token_address_for_asset};
use crate::sdk::{self, new_symbol};
use crate::storage::{self, ContractEvent, StorageWrite, StoredValue};
use crate::types::{
    Address, AssetInfo, CampaignData, CampaignInitializedEvent, CampaignStatus, DataKey,
    DonorRecord, Error, MilestoneData, StellarAsset, MAX_MILESTONES,
};
use crate::validation::{self, validate_assets, validate_milestones};

verus! {

/// The version of the contract.
pub const VERSION: u32 = 1;

/// What a creator asks for when they initialize a campaign, as the contracts
/// of this module speak of it.
pub struct CampaignTerms {
    pub creator: Address,
    pub goal_amount: i128,
    pub end_time: u64,
    pub accepted_assets: Vec<StellarAsset>,
    pub milestones: Vec<MilestoneData>,
}

/// What the host does for an accepted initialization.
#[derive(Clone, Debug, PartialEq, Eq)]
pub struct Initialized {
    pub writes: Vec<StorageWrite>,
    pub event: ContractEvent,
}

/// The transfer of an amount of a token.
#[derive(Clone, Copy, Debug, PartialEq, Eq)]
pub struct TokenTransfer {
    /// The address of the token's contract.
    pub token: Address,
    pub from: Address,
    pub to: Address,
    pub amount: i128,
}

/// An accepted donation that is yet to be paid.
#[derive(Clone, Debug, PartialEq, Eq)]
pub struct PendingDonation {
    /// The transfer by which the donation is paid.
    pub transfer: TokenTransfer,
    /// The campaign as it was when the donation was accepted.
    pub campaign: CampaignData,
    pub donor: Address,
    pub amount: i128,
    pub asset: AssetInfo,
    /// The ledger timestamp of the donation.
    pub time: u64,
}

/// What the host does for a donation that has been paid.
#[derive(Clone, Debug, PartialEq, Eq)]
pub struct SettledDonation {
    pub writes: Vec<StorageWrite>,
    pub event: ContractEvent,
}

/// The verdict on the initialization of a campaign: the first of its rules
/// that is broken, in this order.
pub open spec fn initialize_verdict(
    authorized: bool,
    stored: Option<CampaignData>,
    now: u64,
    terms: CampaignTerms,
) -> Result<(), Error> {
    if !authorized {
        Err(Error::UnauthorizedCreator)
    } else if stored is Some {
        Err(Error::AlreadyInitialized)
    } else if terms.goal_amount <= 0 {
        Err(Error::InvalidGoalAmount)
    } else if terms.end_time <= now {
        Err(Error::InvalidEndTime)
    } else if terms.accepted_assets@.len() == 0 {
        Err(Error::InvalidAssets)
    } else if !validation::codes_are_given(terms.accepted_assets@) {
        Err(Error::InvalidAssetCode)
    } else if !validation::milestone_count_is_valid(terms.milestones@.len()) {
        Err(Error::InvalidMilestoneCount)
    } else {
        validation::milestones_verdict(terms.milestones@, terms.goal_amount)
    }
}

/// The campaign that starts out on the given terms.
pub open spec fn new_campaign(terms: CampaignTerms) -> CampaignData {
    CampaignData {
        creator: terms.creator,
        goal_amount: terms.goal_amount,
        raised_amount: 0,
        end_time: terms.end_time,
        status: CampaignStatus::Active,
        accepted_assets: terms.accepted_assets,
        milestone_count: terms.milestones@.len() as u32,
    }
}

/// What an accepted initialization stores: the campaign, then every milestone
/// under its position.
pub open spec fn initialize_writes(terms: CampaignTerms) -> Seq<StorageWrite> {
    seq![storage::campaign_write(new_campaign(terms))] + Seq::new(
        terms.milestones@.len(),
        |i: int| storage::milestone_write(i as u32, terms.milestones@[i]),
    )
}

/// What an accepted initialization announces.
pub open spec fn initialize_event(terms: CampaignTerms) -> ContractEvent {
    ContractEvent::CampaignInitialized(
        CampaignInitializedEvent {
            creator: terms.creator,
            goal_amount: terms.goal_amount,
            end_time: terms.end_time,
            asset_count: terms.accepted_assets@.len() as u32,
            milestone_count: terms.milestones@.len() as u32,
        },
    )
}

/// What anyone is told of the campaign in storage.
pub open spec fn campaign_info(stored: Option<CampaignData>) -> Result<CampaignData, Error> {
    match stored {
        Some(campaign) => Ok(campaign),
        None => Err(Error::NotInitialized),
    }
}

/// The verdict on a donation: the first of its rules that is broken, in this
/// order, or else the token contract through which it is paid.
pub open spec fn donate_verdict(
    stored: Option<CampaignData>,
    now: u64,
    amount: i128,
    asset: AssetInfo,
) -> Result<Address, Error> {
    if amount <= 0 {
        Err(Error::InvalidDonationAmount)
    } else {
        match stored {
            None => Err(Error::NotInitialized),
            Some(campaign) => if campaign.status !is Active && campaign.status !is GoalReached {
                Err(Error::CampaignNotActive)
            } else if now > campaign.end_time {
                Err(Error::CampaignEnded)
            } else {
                match assets::token_for(asset, campaign.accepted_assets@) {
                    None => Err(Error::AssetNotAccepted),
                    Some(token) => Ok(token),
                }
            },
        }
    }
}

/// The sums that a donation adds to stay within what an amount can hold.
pub open spec fn donation_fits(
    campaign: CampaignData,
    existing: Option<DonorRecord>,
    amount: i128,
) -> bool {
    &&& i128::MIN <= campaign.raised_amount + amount <= i128::MAX
    &&& existing matches Some(record) ==> i128::MIN <= record.total_donated + amount <= i128::MAX
}

/// The campaign once it has received an amount.
pub open spec fn credited_campaign(campaign: CampaignData, amount: i128) -> CampaignData {
    CampaignData { raised_amount: (campaign.raised_amount + amount) as i128, ..campaign }
}

/// The donor's record once they have given an amount: a first donation starts
/// the record, a further one adds to its total and sets its time.
pub open spec fn credited_record(
    existing: Option<DonorRecord>,
    donor: Address,
    amount: i128,
    asset: AssetInfo,
    time: u64,
) -> DonorRecord {
    match existing {
        Some(record) => DonorRecord {
            total_donated: (record.total_donated + amount) as i128,
            last_donation_time: time,
            ..record
        },
        None => DonorRecord { donor, total_donated: amount, asset, last_donation_time: time },
    }
}

/// What a paid donation stores: the campaign, then the donor's record, which
/// goes under the donor's key.
pub open spec fn donate_writes(
    campaign: CampaignData,
    existing: Option<DonorRecord>,
    donor: Address,
    amount: i128,
    asset: AssetInfo,
    time: u64,
) -> Seq<StorageWrite> {
    seq![
        storage::campaign_write(credited_campaign(campaign, amount)),
        StorageWrite {
            key: DataKey::DonorData(donor),
            value: StoredValue::Donor(credited_record(existing, donor, amount, asset, time)),
        },
    ]
}

/// The crowdfunding contract.
pub struct CampaignContract;

impl CampaignContract {
    /// Initializes a campaign, which can be done once.
    ///
    /// `authorized` tells whether the creator has authorized the call,
    /// `stored` is the campaign in storage, and `now` the ledger timestamp.
    pub fn initialize(
        authorized: bool,
        stored: &Option<CampaignData>,
        now: u64,
        creator: Address,
        goal_amount: i128,
        end_time: u64,
        accepted_assets: Vec<StellarAsset>,
        milestones: Vec<MilestoneData>,
    ) -> (outcome: Result<Initialized, Error>)
        requires
            accepted_assets@.len() <= u32::MAX,
        ensures
            ({
                let terms = CampaignTerms {
                    creator,
                    goal_amount,
                    end_time,
                    accepted_assets,
                    milestones,
                };
                match initialize_verdict(authorized, *stored, now, terms) {
                    Err(error) => outcome == Err::<Initialized, Error>(error),
                    Ok(_) => outcome matches Ok(done) && done.writes@ == initialize_writes(terms)
                        && done.event == initialize_event(terms),
                }
            }),
    {
        let ghost terms = CampaignTerms {
            creator,
            goal_amount,
            end_time,
            accepted_assets,
            milestones,
        };
        if !authorized {
            return Err(Error::UnauthorizedCreator);
        }
        if stored.is_some() {
            return Err(Error::AlreadyInitialized);
        }
        if goal_amount <= 0 {
            return Err(Error::InvalidGoalAmount);
        }
        if end_time <= now {
            return Err(Error::InvalidEndTime);
        }
        if accepted_assets.len() == 0 {
            return Err(Error::InvalidAssets);
        }
        if let Err(error) = validate_assets(&accepted_assets) {
            return Err(error);
        }
        let count: usize = milestones.len();
        if count == 0 || count > MAX_MILESTONES as usize {
            return Err(Error::InvalidMilestoneCount);
        }
        let milestone_count: u32 = count as u32;
        if let Err(error) = validate_milestones(&milestones, goal_amount) {
            return Err(error);
        }
        let asset_count: u32 = accepted_assets.len() as u32;
        let campaign = CampaignData {
            creator,
            goal_amount,
            raised_amount: 0,
            end_time,
            status: CampaignStatus::Active,
            accepted_assets,
            milestone_count,
        };
        let mut writes: Vec<StorageWrite> = Vec::new();
        writes.push(
            StorageWrite { key: DataKey::CampaignData, value: StoredValue::Campaign(campaign) },
        );
        let mut position: u32 = 0;
        while position < milestone_count
            invariant
                position <= milestone_count,
                milestone_count == milestones@.len(),
                terms.milestones == milestones,
                writes@ == initialize_writes(terms).take(position + 1),
            decreases milestone_count - position,
        {
            let milestone = milestones[position as usize];
            writes.push(
                StorageWrite {
                    key: DataKey::MilestoneData(position),
                    value: StoredValue::Milestone(milestone),
                },
            );
            position = position + 1;
            assert(writes@ =~= initialize_writes(terms).take(position + 1));
        }
        assert(writes@ =~= initialize_writes(terms));
        let event = ContractEvent::CampaignInitialized(
            CampaignInitializedEvent {
                creator,
                goal_amount,
                end_time,
                asset_count,
                milestone_count,
            },
        );
        Ok(Initialized { writes, event })
    }

    /// Returns the full state of the campaign; anyone may ask.
    pub fn get_campaign_info(stored: Option<CampaignData>) -> (info: Result<CampaignData, Error>)
        ensures
            info == campaign_info(stored),
    {
        match stored {
            Some(campaign) => Ok(campaign),
            None => Err(Error::NotInitialized),
        }
    }

    /// Decides on a donation of native XLM or of a token, which the donor must
    /// have authorized.
    ///
    /// `stored` is the campaign in storage, `now` the ledger timestamp, and
    /// `contract` the address of this contract. An accepted donation names the
    /// transfer from the donor to the contract by which it is paid; once that
    /// is made, [`PendingDonation::settle`] says what to store and announce.
    pub fn donate(
        stored: Option<CampaignData>,
        now: u64,
        contract: Address,
        donor: Address,
        amount: i128,
        asset: AssetInfo,
    ) -> (outcome: Result<PendingDonation, Error>)
        ensures
            match donate_verdict(stored, now, amount, asset) {
                Err(error) => outcome == Err::<PendingDonation, Error>(error),
                Ok(token) => stored is Some && outcome == Ok::<PendingDonation, Error>(
                    PendingDonation {
                        transfer: TokenTransfer { token, from: donor, to: contract, amount },
                        campaign: stored->0,
                        donor,
                        amount,
                        asset,
                        time: now,
                    },
                ),
            },
    {
        if amount <= 0 {
            return Err(Error::InvalidDonationAmount);
        }
        let campaign = match stored {
            Some(campaign) => campaign,
            None => {
                return Err(Error::NotInitialized);
            },
        };
        if campaign.status != CampaignStatus::Active && campaign.status
            != CampaignStatus::GoalReached {
            return Err(Error::CampaignNotActive);
        }
        if now > campaign.end_time {
            return Err(Error::CampaignEnded);
        }
        let token = match get_token_address_for_asset(&asset, &campaign) {
            Ok(token) => token,
            Err(error) => {
                return Err(error);
            },
        };
        let transfer = TokenTransfer { token, from: donor, to: contract, amount };
        Ok(PendingDonation { transfer, campaign, donor, amount, asset, time: now })
    }

    /// Returns the name of the contract.
    pub fn hello(env: Env) -> (name: Symbol)
        ensures
            sdk::symbol_text(name) == "campaign"@,
    {
        proof {
            reveal_strlit("campaign");
        }
        new_symbol(&env, "campaign")
    }

    /// Returns the version of the contract.
    pub fn version() -> (version: u32)
        ensures
            version == VERSION,
    {
        VERSION
    }
}

impl PendingDonation {
    /// Accounts for the donation once its transfer has been made; `existing`
    /// is the donor's record in storage.
    pub fn settle(self, existing: Option<DonorRecord>) -> (settled: SettledDonation)
        requires
            donation_fits(self.campaign, existing, self.amount),
        ensures
            settled.writes@ == donate_writes(
                self.campaign,
                existing,
                self.donor,
                self.amount,
                self.asset,
                self.time,
            ),
            settled.event == ContractEvent::DonationReceived(self.donor, self.amount, self.asset),
    {
        let mut campaign = self.campaign;
        campaign.raised_amount = campaign.raised_amount + self.amount;
        let record = match existing {
            Some(mut record) => {
                record.total_donated = record.total_donated + self.amount;
                record.last_donation_time = self.time;
                record
            },
            None => DonorRecord {
                donor: self.donor,
                total_donated: self.amount,
                asset: self.asset,
                last_donation_time: self.time,
            },
        };
        let mut writes: Vec<StorageWrite> = Vec::new();
        writes.push(
            StorageWrite { key: DataKey::CampaignData, value: StoredValue::Campaign(campaign) },
        );
        writes.push(
            StorageWrite { key: DataKey::DonorData(self.donor), value: StoredValue::Donor(record) },
        );
        let event = ContractEvent::DonationReceived(self.donor, self.amount, self.asset);
        SettledDonation { writes, event }
    }
}

/// Returns the creator, whose authorization a call that is reserved to them
/// needs.
pub fn require_creator(stored: &Option<CampaignData>) -> (creator: Result<Address, Error>)
    ensures
        match stored {
            Some(campaign) => creator == Ok::<Address, Error>(campaign.creator),
            None => creator == Err::<Address, Error>(Error::UnauthorizedCreator),
        },
{
    match stored {
        Some(campaign) => Ok(campaign.creator),
        None => Err(Error::UnauthorizedCreator),
    }
}

} // verus!
