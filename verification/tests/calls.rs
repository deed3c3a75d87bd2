//! Calls of the contract, with a list in place of the host's storage.

use campaign::contract::{require_creator, Initialized, TokenTransfer};
use campaign::storage::{ContractEvent, StorageWrite, StoredValue};
use campaign::types::{
    Address, AssetInfo, CampaignData, CampaignInitializedEvent, CampaignStatus, DataKey,
    DonorRecord, Error, MilestoneData, MilestoneStatus, StellarAsset,
};
use campaign::{CampaignContract, VERSION};
use soroban_sdk::Env;

type Storage = Vec<(DataKey, StoredValue)>;

fn write_all(storage: &mut Storage, writes: Vec<StorageWrite>) {
    for write in writes {
        storage.retain(|entry| entry.0 != write.key);
        storage.push((write.key, write.value));
    }
}

fn read(storage: &Storage, key: DataKey) -> Option<StoredValue> {
    storage.iter().find(|entry| entry.0 == key).map(|entry| entry.1.clone())
}

fn read_campaign(storage: &Storage) -> Option<CampaignData> {
    match read(storage, DataKey::CampaignData) {
        Some(StoredValue::Campaign(campaign)) => Some(campaign),
        None => None,
        other => panic!("not a campaign: {:?}", other),
    }
}

fn read_donor(storage: &Storage, donor: Address) -> Option<DonorRecord> {
    match read(storage, DataKey::DonorData(donor)) {
        Some(StoredValue::Donor(record)) => Some(record),
        None => None,
        other => panic!("not a record: {:?}", other),
    }
}

fn address(letter: u8) -> Address {
    let mut strkey = [b'A'; 56];
    strkey[0] = b'G';
    strkey[1] = letter;
    Address { strkey }
}

const CREATOR: u8 = b'C';
const CONTRACT: u8 = b'K';
const TOKEN: u8 = b'T';
const NATIVE: u8 = b'N';

fn assets() -> Vec<StellarAsset> {
    vec![
        StellarAsset { asset_code: b"XLM".to_vec(), issuer: Some(address(NATIVE)) },
        StellarAsset { asset_code: b"USDC".to_vec(), issuer: Some(address(TOKEN)) },
    ]
}

fn milestone(index: u32, target_amount: i128) -> MilestoneData {
    MilestoneData {
        index,
        target_amount,
        description_hash: [index as u8; 32],
        status: MilestoneStatus::Locked,
        released_at: None,
        release_tx: None,
    }
}

fn milestones() -> Vec<MilestoneData> {
    // The stored position is where a milestone stands, not its own index.
    vec![milestone(30, 400), milestone(20, 700), milestone(10, 1000)]
}

fn initialize(
    stored: &Option<CampaignData>,
    goal_amount: i128,
    end_time: u64,
    accepted_assets: Vec<StellarAsset>,
    milestones: Vec<MilestoneData>,
) -> Result<Initialized, Error> {
    CampaignContract::initialize(
        true,
        stored,
        50,
        address(CREATOR),
        goal_amount,
        end_time,
        accepted_assets,
        milestones,
    )
}

fn running() -> Storage {
    let mut storage = Storage::new();
    let done = initialize(&None, 1000, 100, assets(), milestones()).unwrap();
    write_all(&mut storage, done.writes);
    storage
}

fn donate(
    storage: &mut Storage,
    now: u64,
    donor: Address,
    amount: i128,
    asset: AssetInfo,
) -> Result<(TokenTransfer, ContractEvent), Error> {
    let pending = CampaignContract::donate(
        read_campaign(storage),
        now,
        address(CONTRACT),
        donor,
        amount,
        asset,
    )?;
    let transfer = pending.transfer;
    let settled = pending.settle(read_donor(storage, donor));
    write_all(storage, settled.writes);
    Ok((transfer, settled.event))
}

fn sorted(mut storage: Storage) -> Vec<String> {
    storage.sort_by_key(|entry| format!("{:?}", entry.0));
    storage.iter().map(|entry| format!("{:?}", entry)).collect()
}

#[test]
fn initialize_stores_the_terms_and_announces_them() {
    let done = initialize(&None, 1000, 100, assets(), milestones()).unwrap();
    assert_eq!(
        done.event,
        ContractEvent::CampaignInitialized(CampaignInitializedEvent {
            creator: address(CREATOR),
            goal_amount: 1000,
            end_time: 100,
            asset_count: 2,
            milestone_count: 3,
        })
    );
    assert_eq!(done.event.topics(), ("campaign", "initialized"));
    assert_eq!(done.writes.len(), 4);
    assert_eq!(done.writes[0].key, DataKey::CampaignData);
    let campaign = CampaignData {
        creator: address(CREATOR),
        goal_amount: 1000,
        raised_amount: 0,
        end_time: 100,
        status: CampaignStatus::Active,
        accepted_assets: assets(),
        milestone_count: 3,
    };
    assert_eq!(done.writes[0].value, StoredValue::Campaign(campaign.clone()));
    for position in 0..3u32 {
        let write = &done.writes[position as usize + 1];
        assert_eq!(write.key, DataKey::MilestoneData(position));
        assert_eq!(write.value, StoredValue::Milestone(milestones()[position as usize]));
    }
    let mut storage = Storage::new();
    write_all(&mut storage, done.writes);
    assert_eq!(CampaignContract::get_campaign_info(read_campaign(&storage)), Ok(campaign));
}

#[test]
fn initialize_needs_the_creators_authorization() {
    let refused = CampaignContract::initialize(
        false,
        &read_campaign(&running()),
        50,
        address(CREATOR),
        0,
        0,
        vec![],
        vec![],
    );
    assert_eq!(refused, Err(Error::UnauthorizedCreator));
}

#[test]
fn initialize_succeeds_once() {
    let mut storage = running();
    let again = initialize(&read_campaign(&storage), 1000, 100, assets(), milestones());
    assert_eq!(again, Err(Error::AlreadyInitialized));
    donate(&mut storage, 60, address(b'D'), 5, AssetInfo::Native).unwrap();
    let later = initialize(&read_campaign(&storage), 0, 0, vec![], vec![]);
    assert_eq!(later, Err(Error::AlreadyInitialized));
}

#[test]
fn initialize_needs_a_positive_goal() {
    for goal in [0, -1, i128::MIN] {
        let refused = initialize(&None, goal, 0, vec![], vec![]);
        assert_eq!(refused, Err(Error::InvalidGoalAmount));
    }
}

#[test]
fn initialize_needs_an_end_ahead() {
    for end_time in [0, 49, 50] {
        let refused = initialize(&None, 1000, end_time, vec![], vec![]);
        assert_eq!(refused, Err(Error::InvalidEndTime));
    }
    assert!(initialize(&None, 1000, 51, assets(), milestones()).is_ok());
}

#[test]
fn initialize_needs_assets() {
    assert_eq!(initialize(&None, 1000, 100, vec![], vec![]), Err(Error::InvalidAssets));
}

#[test]
fn initialize_needs_asset_codes() {
    let mut listed = assets();
    listed[1].asset_code = vec![];
    assert_eq!(initialize(&None, 1000, 100, listed, vec![]), Err(Error::InvalidAssetCode));
}

#[test]
fn initialize_needs_one_to_five_milestones() {
    let none = initialize(&None, 1000, 100, assets(), vec![]);
    assert_eq!(none, Err(Error::InvalidMilestoneCount));
    let six: Vec<MilestoneData> = (1..7).map(|i| milestone(i, i as i128)).collect();
    let refused = initialize(&None, 6, 100, assets(), six);
    assert_eq!(refused, Err(Error::InvalidMilestoneCount));
    let five: Vec<MilestoneData> = (1..6).map(|i| milestone(i, i as i128)).collect();
    assert!(initialize(&None, 5, 100, assets(), five).is_ok());
    assert!(initialize(&None, 9, 100, assets(), vec![milestone(0, 9)]).is_ok());
}

#[test]
fn initialize_needs_sorted_milestones_up_to_the_goal() {
    let unsorted = vec![milestone(0, 700), milestone(1, 400), milestone(2, 1000)];
    let refused = initialize(&None, 1000, 100, assets(), unsorted);
    assert_eq!(refused, Err(Error::InvalidMilestones));
    let short = initialize(&None, 1001, 100, assets(), milestones());
    assert_eq!(short, Err(Error::MilestoneMismatch));
}

#[test]
fn there_is_no_info_before_initialize() {
    assert_eq!(CampaignContract::get_campaign_info(None), Err(Error::NotInitialized));
    let mut storage = Storage::new();
    let refused = donate(&mut storage, 0, address(b'D'), 1, AssetInfo::Native);
    assert_eq!(refused, Err(Error::NotInitialized));
    let empty = donate(&mut storage, 0, address(b'D'), 0, AssetInfo::Native);
    assert_eq!(empty, Err(Error::InvalidDonationAmount));
    assert!(storage.is_empty());
}

#[test]
fn only_the_creator_of_a_campaign_is_required() {
    assert_eq!(require_creator(&None), Err(Error::UnauthorizedCreator));
    assert_eq!(require_creator(&read_campaign(&running())), Ok(address(CREATOR)));
}

#[test]
fn a_donation_is_paid_and_credited() {
    let mut storage = running();
    let donor = address(b'D');
    let (transfer, event) = donate(&mut storage, 60, donor, 25, AssetInfo::Native).unwrap();
    assert_eq!(
        transfer,
        TokenTransfer { token: address(NATIVE), from: donor, to: address(CONTRACT), amount: 25 }
    );
    assert_eq!(event, ContractEvent::DonationReceived(donor, 25, AssetInfo::Native));
    assert_eq!(event.topics(), ("donation", "received"));
    assert_eq!(read_campaign(&storage).unwrap().raised_amount, 25);
    assert_eq!(
        read_donor(&storage, donor),
        Some(DonorRecord {
            donor,
            total_donated: 25,
            asset: AssetInfo::Native,
            last_donation_time: 60,
        })
    );
}

#[test]
fn a_further_donation_adds_to_the_record() {
    let mut storage = running();
    let donor = address(b'D');
    let token = AssetInfo::Stellar(address(TOKEN));
    donate(&mut storage, 60, donor, 25, AssetInfo::Native).unwrap();
    let (transfer, event) = donate(&mut storage, 70, donor, 10, token).unwrap();
    assert_eq!(transfer.token, address(TOKEN));
    assert_eq!(event, ContractEvent::DonationReceived(donor, 10, token));
    assert_eq!(
        read_donor(&storage, donor),
        Some(DonorRecord {
            donor,
            total_donated: 35,
            asset: AssetInfo::Native,
            last_donation_time: 70,
        })
    );
}

#[test]
fn a_donation_changes_nothing_else() {
    let mut storage = running();
    donate(&mut storage, 60, address(b'D'), 25, AssetInfo::Native).unwrap();
    let before = storage.clone();
    donate(&mut storage, 61, address(b'E'), 5000, AssetInfo::Native).unwrap();
    // Even beyond the goal the status stays.
    let expected = CampaignData { raised_amount: 5025, ..read_campaign(&before).unwrap() };
    assert_eq!(read_campaign(&storage), Some(expected));
    assert_eq!(read_donor(&storage, address(b'D')), read_donor(&before, address(b'D')));
    for position in 0..3 {
        let key = DataKey::MilestoneData(position);
        assert_eq!(read(&storage, key), read(&before, key));
    }
    assert_eq!(read(&storage, DataKey::TotalRaised), None);
    assert_eq!(read(&storage, DataKey::ContractStatus), None);
}

#[test]
fn a_donation_needs_a_positive_amount() {
    for amount in [0, -1, i128::MIN] {
        let mut storage = running();
        let refused = donate(&mut storage, 60, address(b'D'), amount, AssetInfo::Native);
        assert_eq!(refused, Err(Error::InvalidDonationAmount));
        assert_eq!(storage, running());
    }
}

#[test]
fn a_donation_needs_an_open_campaign() {
    let campaign = read_campaign(&running()).unwrap();
    let statuses = [
        (CampaignStatus::Active, true),
        (CampaignStatus::GoalReached, true),
        (CampaignStatus::Ended, false),
        (CampaignStatus::Cancelled, false),
    ];
    for (status, open) in statuses {
        let stored = Some(CampaignData { status, ..campaign.clone() });
        let outcome = CampaignContract::donate(
            stored,
            101 - open as u64,
            address(CONTRACT),
            address(b'D'),
            1,
            AssetInfo::Native,
        );
        if open {
            assert!(outcome.is_ok());
        } else {
            assert_eq!(outcome, Err(Error::CampaignNotActive));
        }
    }
}

#[test]
fn donations_close_after_the_end() {
    let mut storage = running();
    assert!(donate(&mut storage, 100, address(b'D'), 1, AssetInfo::Native).is_ok());
    for now in [101, 102, u64::MAX] {
        let refused = donate(&mut storage, now, address(b'D'), 1, AssetInfo::Native);
        assert_eq!(refused, Err(Error::CampaignEnded));
    }
}

#[test]
fn a_donation_needs_an_accepted_asset() {
    let mut storage = running();
    let other = AssetInfo::Stellar(address(b'X'));
    let refused = donate(&mut storage, 60, address(b'D'), 1, other);
    assert_eq!(refused, Err(Error::AssetNotAccepted));
    assert_eq!(storage, running());
}

#[test]
fn accounts_are_the_sums_of_donations() {
    let mut storage = running();
    let native = AssetInfo::Native;
    donate(&mut storage, 60, address(b'D'), 1, native).unwrap();
    donate(&mut storage, 61, address(b'E'), 20, native).unwrap();
    donate(&mut storage, 62, address(b'D'), -7, native).unwrap_err();
    donate(&mut storage, 63, address(b'D'), 300, native).unwrap();
    donate(&mut storage, 200, address(b'E'), 9, native).unwrap_err();
    assert_eq!(read_campaign(&storage).unwrap().raised_amount, 321);
    assert_eq!(read_donor(&storage, address(b'D')).unwrap().total_donated, 301);
    assert_eq!(read_donor(&storage, address(b'E')).unwrap().total_donated, 20);
}

#[test]
fn donations_of_two_donors_commute() {
    let mut one = running();
    donate(&mut one, 60, address(b'D'), 3, AssetInfo::Native).unwrap();
    donate(&mut one, 61, address(b'E'), 4, AssetInfo::Native).unwrap();
    let mut other = running();
    donate(&mut other, 61, address(b'E'), 4, AssetInfo::Native).unwrap();
    donate(&mut other, 60, address(b'D'), 3, AssetInfo::Native).unwrap();
    assert_eq!(sorted(one), sorted(other));
}

#[test]
fn the_largest_amount_can_be_raised() {
    let mut storage = running();
    donate(&mut storage, 60, address(b'D'), i128::MAX - 1, AssetInfo::Native).unwrap();
    donate(&mut storage, 60, address(b'D'), 1, AssetInfo::Native).unwrap();
    assert_eq!(read_campaign(&storage).unwrap().raised_amount, i128::MAX);
    assert_eq!(read_donor(&storage, address(b'D')).unwrap().total_donated, i128::MAX);
}

#[test]
fn the_contract_says_hello() {
    let name = CampaignContract::hello(Env::default());
    assert_eq!(name.to_string(), "campaign");
}

#[test]
fn the_contract_has_a_version() {
    assert_eq!(CampaignContract::version(), 1);
    assert_eq!(VERSION, 1);
}
