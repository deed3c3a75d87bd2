//! What a campaign keeps in storage, and what it announces.
//!
//! The contract's functions decide what is to be written and announced; the
//! writes of a call are made in order, each replacing what its key held.

use vstd::prelude::*;

use crate::types::{
    Address, AssetInfo, CampaignData, CampaignInitializedEvent, DataKey, DonorRecord,
    MilestoneData,
};

verus! {

/// A value in storage.
#[derive(Clone, Debug, PartialEq, Eq)]
pub enum StoredValue {
    Campaign(CampaignData),
    Milestone(MilestoneData),
    Donor(DonorRecord),
}

/// The order to store a value under a key.
#[derive(Clone, Debug, PartialEq, Eq)]
pub struct StorageWrite {
    pub key: DataKey,
    pub value: StoredValue,
}

/// An event for the contract to publish.
#[derive(Clone, Copy, Debug, PartialEq, Eq)]
pub enum ContractEvent {
    /// The campaign has been initialized.
    CampaignInitialized(CampaignInitializedEvent),
    /// A donor has given an amount in an asset.
    DonationReceived(Address, i128, AssetInfo),
}

/// The two topics under which an event is published.
pub open spec fn event_topics(event: ContractEvent) -> (Seq<char>, Seq<char>) {
    match event {
        ContractEvent::CampaignInitialized(_) => ("campaign"@, "initialized"@),
        ContractEvent::DonationReceived(_, _, _) => ("donation"@, "received"@),
    }
}

impl ContractEvent {
    /// Returns the two topics under which this event is published.
    pub fn topics(&self) -> (topics: (&'static str, &'static str))
        ensures
            (topics.0@, topics.1@) == event_topics(*self),
    {
        match self {
            ContractEvent::CampaignInitialized(_) => ("campaign", "initialized"),
            ContractEvent::DonationReceived(_, _, _) => ("donation", "received"),
        }
    }
}

/// The write of a campaign.
pub open spec fn campaign_write(campaign: CampaignData) -> StorageWrite {
    StorageWrite { key: DataKey::CampaignData, value: StoredValue::Campaign(campaign) }
}

/// The write of the milestone at the given position.
pub open spec fn milestone_write(position: u32, milestone: MilestoneData) -> StorageWrite {
    StorageWrite {
        key: DataKey::MilestoneData(position),
        value: StoredValue::Milestone(milestone),
    }
}

/// The storage of one contract: what is held under each key.
pub type Ledger = Map<DataKey, StoredValue>;

/// The storage after the given writes, made in order.
pub open spec fn after_writes(ledger: Ledger, writes: Seq<StorageWrite>) -> Ledger
    decreases writes.len(),
{
    if writes.len() == 0 {
        ledger
    } else {
        let write = writes.last();
        after_writes(ledger, writes.drop_last()).insert(write.key, write.value)
    }
}

/// The campaign in storage, if there is one.
pub open spec fn stored_campaign(ledger: Ledger) -> Option<CampaignData> {
    if ledger.contains_key(DataKey::CampaignData) {
        match ledger[DataKey::CampaignData] {
            StoredValue::Campaign(campaign) => Some(campaign),
            _ => None,
        }
    } else {
        None
    }
}

/// The milestone in storage at the given position, if there is one.
pub open spec fn stored_milestone(ledger: Ledger, position: u32) -> Option<MilestoneData> {
    if ledger.contains_key(DataKey::MilestoneData(position)) {
        match ledger[DataKey::MilestoneData(position)] {
            StoredValue::Milestone(milestone) => Some(milestone),
            _ => None,
        }
    } else {
        None
    }
}

/// The record of a donor in storage, if there is one.
pub open spec fn stored_donor(ledger: Ledger, donor: Address) -> Option<DonorRecord> {
    if ledger.contains_key(DataKey::DonorData(donor)) {
        match ledger[DataKey::DonorData(donor)] {
            StoredValue::Donor(record) => Some(record),
            _ => None,
        }
    } else {
        None
    }
}

} // verus!
