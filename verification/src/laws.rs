//! What holds of a campaign over all of its calls.

use vstd::prelude::*;

use crate::assets;
use crate::contract::{self, CampaignTerms};
use crate::storage::{self, Ledger, StoredValue};
use crate::transitions;
use crate::types::{
    self, Address, AssetInfo, CampaignData, CampaignStatus, DataKey, DonorRecord, Error,
    MilestoneStatus,
};
use crate::validation;

verus! {

// ---------------------------------------------------------------------------
// Calls and their effect on storage

/// A call of the contract that can change its storage.
pub enum Call {
    Initialize { authorized: bool, now: u64, terms: CampaignTerms },
    /// A donation; `paid` tells whether the donor authorized it and its
    /// transfer went through.
    Donate { now: u64, donor: Address, amount: i128, asset: AssetInfo, paid: bool },
}

/// The call is carried out, and not refused or undone. The host undoes a
/// donation whose transfer fails or whose sums exceed what an amount can hold.
pub open spec fn is_carried_out(ledger: Ledger, call: Call) -> bool {
    match call {
        Call::Initialize { authorized, now, terms } => contract::initialize_verdict(
            authorized,
            storage::stored_campaign(ledger),
            now,
            terms,
        ) is Ok,
        Call::Donate { now, donor, amount, asset, paid } => {
            &&& paid
            &&& contract::donate_verdict(storage::stored_campaign(ledger), now, amount, asset) is Ok
            &&& contract::donation_fits(
                storage::stored_campaign(ledger)->0,
                storage::stored_donor(ledger, donor),
                amount,
            )
        },
    }
}

/// The storage after a call.
pub open spec fn after_call(ledger: Ledger, call: Call) -> Ledger {
    if !is_carried_out(ledger, call) {
        ledger
    } else {
        match call {
            Call::Initialize { authorized, now, terms } => storage::after_writes(
                ledger,
                contract::initialize_writes(terms),
            ),
            Call::Donate { now, donor, amount, asset, paid } => storage::after_writes(
                ledger,
                contract::donate_writes(
                    storage::stored_campaign(ledger)->0,
                    storage::stored_donor(ledger, donor),
                    donor,
                    amount,
                    asset,
                    now,
                ),
            ),
        }
    }
}

/// The storage after a sequence of calls.
pub open spec fn after_calls(ledger: Ledger, calls: Seq<Call>) -> Ledger
    decreases calls.len(),
{
    if calls.len() == 0 {
        ledger
    } else {
        after_call(after_calls(ledger, calls.drop_last()), calls.last())
    }
}

/// What the campaign receives by a call.
pub open spec fn received(ledger: Ledger, call: Call) -> int {
    match call {
        Call::Donate { now, donor, amount, asset, paid } if is_carried_out(ledger, call) =>
            amount as int,
        _ => 0,
    }
}

/// What the given donor gives by a call.
pub open spec fn given_by(ledger: Ledger, call: Call, giver: Address) -> int {
    match call {
        Call::Donate { now, donor, amount, asset, paid } if donor == giver => received(
            ledger,
            call,
        ),
        _ => 0,
    }
}

/// What the campaign receives by a sequence of calls.
pub open spec fn received_over(ledger: Ledger, calls: Seq<Call>) -> int
    decreases calls.len(),
{
    if calls.len() == 0 {
        0
    } else {
        received_over(ledger, calls.drop_last()) + received(
            after_calls(ledger, calls.drop_last()),
            calls.last(),
        )
    }
}

/// What the given donor gives by a sequence of calls.
pub open spec fn given_over(ledger: Ledger, calls: Seq<Call>, giver: Address) -> int
    decreases calls.len(),
{
    if calls.len() == 0 {
        0
    } else {
        given_over(ledger, calls.drop_last(), giver) + given_by(
            after_calls(ledger, calls.drop_last()),
            calls.last(),
            giver,
        )
    }
}

// ---------------------------------------------------------------------------
// Sound storage

/// What the records of all donors say that each of them has given.
pub open spec fn donor_totals(ledger: Ledger) -> Map<Address, int> {
    Map::new(
        |donor: Address| storage::stored_donor(ledger, donor) is Some,
        |donor: Address| (storage::stored_donor(ledger, donor)->0).total_donated as int,
    )
}

/// The sum of the values of a finite map.
pub open spec fn sum_of(amounts: Map<Address, int>) -> int
    decreases amounts.dom().len(),
{
    if amounts.dom().finite() && amounts.dom().len() > 0 {
        let key = amounts.dom().choose();
        amounts[key] + sum_of(amounts.remove(key))
    } else {
        0
    }
}

/// A donor's record fits the campaign: the donor has given something, not
/// after the end, and first in an asset that is accepted.
pub open spec fn record_is_sound(
    campaign: CampaignData,
    donor: Address,
    record: DonorRecord,
) -> bool {
    &&& record.donor == donor
    &&& record.total_donated > 0
    &&& record.last_donation_time <= campaign.end_time
    &&& assets::token_for(record.asset, campaign.accepted_assets@) is Some
}

/// The milestones in storage are those of the campaign: as many as it counts,
/// under the positions from zero on, with strictly ascending targets of which
/// the last is the goal.
pub open spec fn milestones_are_sound(ledger: Ledger, campaign: CampaignData) -> bool {
    &&& validation::milestone_count_is_valid(campaign.milestone_count as nat)
    &&& forall|i: u32|
        (#[trigger] storage::stored_milestone(ledger, i)) is Some <==> i < campaign.milestone_count
    &&& forall|i: u32, j: u32|
        i < j < campaign.milestone_count ==> (#[trigger] storage::stored_milestone(
            ledger,
            i,
        )->0).target_amount < (#[trigger] storage::stored_milestone(ledger, j)->0).target_amount
    &&& (storage::stored_milestone(ledger, (campaign.milestone_count - 1) as u32)->0).target_amount
        == campaign.goal_amount
}

/// The value is of the kind that its key is for. Nothing is ever kept under
/// `TotalRaised` and `ContractStatus`.
pub open spec fn is_kept_under(key: DataKey, value: StoredValue) -> bool {
    match key {
        DataKey::CampaignData => value is Campaign,
        DataKey::MilestoneData(_) => value is Milestone,
        DataKey::DonorData(_) => value is Donor,
        DataKey::TotalRaised => false,
        DataKey::ContractStatus => false,
    }
}

/// Storage that a campaign can have: none at all before it is initialized;
/// from then on a campaign that is within the rules, its milestones, and the
/// records of its donors, which add up to what it has raised.
pub open spec fn is_sound(ledger: Ledger) -> bool {
    &&& forall|key: DataKey| #[trigger]
        ledger.contains_key(key) ==> is_kept_under(key, ledger[key])
    &&& match storage::stored_campaign(ledger) {
        None => ledger == Map::<DataKey, StoredValue>::empty(),
        Some(campaign) => {
            &&& campaign.goal_amount > 0
            &&& campaign.status is Active
            &&& campaign.accepted_assets@.len() > 0
            &&& validation::codes_are_given(campaign.accepted_assets@)
            &&& milestones_are_sound(ledger, campaign)
            &&& forall|donor: Address|
                (#[trigger] storage::stored_donor(ledger, donor)) matches Some(record) ==> record_is_sound(
                    campaign,
                    donor,
                    record,
                )
            &&& donor_totals(ledger).dom().finite()
            &&& campaign.raised_amount == sum_of(donor_totals(ledger))
        },
    }
}

/// A donor's total, or zero where the donor has no record.
pub open spec fn total_of(ledger: Ledger, donor: Address) -> int {
    match storage::stored_donor(ledger, donor) {
        Some(record) => record.total_donated as int,
        None => 0,
    }
}

/// What the campaign has raised, or zero where there is no campaign.
pub open spec fn raised_in(ledger: Ledger) -> int {
    match storage::stored_campaign(ledger) {
        Some(campaign) => campaign.raised_amount as int,
        None => 0,
    }
}

// ---------------------------------------------------------------------------
// Steps of the proofs

/// Taking any key out of a finite map takes its value out of the sum.
proof fn lemma_sum_remove(amounts: Map<Address, int>, key: Address)
    requires
        amounts.dom().finite(),
        amounts.contains_key(key),
    ensures
        sum_of(amounts) == amounts[key] + sum_of(amounts.remove(key)),
    decreases amounts.dom().len(),
{
    let chosen = amounts.dom().choose();
    if chosen != key {
        lemma_sum_remove(amounts.remove(chosen), key);
        lemma_sum_remove(amounts.remove(key), chosen);
        assert(amounts.remove(chosen).remove(key) =~= amounts.remove(key).remove(chosen));
    }
}

/// Setting a key's value changes the sum by the difference.
proof fn lemma_sum_insert(amounts: Map<Address, int>, key: Address, value: int)
    requires
        amounts.dom().finite(),
    ensures
        sum_of(amounts.insert(key, value)) == sum_of(amounts) + value - (if amounts.contains_key(
            key,
        ) {
            amounts[key]
        } else {
            0
        }),
{
    lemma_sum_remove(amounts.insert(key, value), key);
    if amounts.contains_key(key) {
        lemma_sum_remove(amounts, key);
        assert(amounts.insert(key, value).remove(key) =~= amounts.remove(key));
    } else {
        assert(amounts.insert(key, value).remove(key) =~= amounts);
    }
}

/// What the first writes of an initialization leave in storage.
proof fn lemma_initialize_writes(ledger: Ledger, terms: CampaignTerms, count: nat)
    requires
        count <= terms.milestones@.len() <= u32::MAX,
    ensures
        ({
            let after = storage::after_writes(ledger, contract::initialize_writes(terms).take(count + 1int));
            &&& after.contains_key(DataKey::CampaignData)
            &&& after[DataKey::CampaignData] == StoredValue::Campaign(contract::new_campaign(terms))
            &&& forall|i: u32|
                i < count ==> #[trigger] after.contains_key(DataKey::MilestoneData(i))
                    && after[DataKey::MilestoneData(i)] == StoredValue::Milestone(
                    terms.milestones@[i as int],
                )
            &&& forall|key: DataKey|
                key != DataKey::CampaignData && !(key matches DataKey::MilestoneData(i) && i
                    < count) ==> (#[trigger] after.contains_key(key) <==> ledger.contains_key(key))
                    && (after.contains_key(key) ==> after[key] == ledger[key])
        }),
    decreases count,
{
    let writes = contract::initialize_writes(terms).take(count + 1int);
    if count == 0 {
        assert(writes.drop_last() =~= Seq::empty());
        reveal_with_fuel(storage::after_writes, 2);
    } else {
        lemma_initialize_writes(ledger, terms, (count - 1) as nat);
        assert(writes.drop_last() =~= contract::initialize_writes(terms).take(count as int));
    }
}

/// What an accepted initialization leaves in storage.
proof fn lemma_after_initialize(ledger: Ledger, terms: CampaignTerms)
    requires
        terms.milestones@.len() <= u32::MAX,
    ensures
        ({
            let after = storage::after_writes(ledger, contract::initialize_writes(terms));
            &&& storage::stored_campaign(after) == Some(contract::new_campaign(terms))
            &&& forall|i: u32|
                i < terms.milestones@.len() ==> #[trigger] storage::stored_milestone(after, i) == Some(
                    terms.milestones@[i as int],
                )
            &&& forall|i: u32|
                i >= terms.milestones@.len() ==> #[trigger] storage::stored_milestone(after, i)
                    == storage::stored_milestone(ledger, i)
            &&& forall|donor: Address| #[trigger]
                storage::stored_donor(after, donor) == storage::stored_donor(ledger, donor)
        }),
{
    lemma_initialize_writes(ledger, terms, terms.milestones@.len());
    assert(contract::initialize_writes(terms).take(terms.milestones@.len() + 1int) =~= contract::initialize_writes(
        terms,
    ));
    let after = storage::after_writes(ledger, contract::initialize_writes(terms));
    assert forall|i: u32| i < terms.milestones@.len() implies #[trigger] storage::stored_milestone(after, i)
        == Some(terms.milestones@[i as int]) by {
        assert(after.contains_key(DataKey::MilestoneData(i)));
    }
}

/// A paid donation sets the campaign and the donor's record, and nothing else.
proof fn lemma_after_donation(
    ledger: Ledger,
    campaign: CampaignData,
    existing: Option<DonorRecord>,
    donor: Address,
    amount: i128,
    asset: AssetInfo,
    time: u64,
)
    ensures
        storage::after_writes(ledger, contract::donate_writes(campaign, existing, donor, amount, asset, time))
            == ledger.insert(
            DataKey::CampaignData,
            StoredValue::Campaign(contract::credited_campaign(campaign, amount)),
        ).insert(
            DataKey::DonorData(donor),
            StoredValue::Donor(contract::credited_record(existing, donor, amount, asset, time)),
        ),
{
    let writes = contract::donate_writes(campaign, existing, donor, amount, asset, time);
    assert(writes.drop_last().drop_last() =~= Seq::empty());
    reveal_with_fuel(storage::after_writes, 3);
}

/// An initialization leaves sound storage.
proof fn lemma_initialize_keeps_sound(
    ledger: Ledger,
    authorized: bool,
    now: u64,
    terms: CampaignTerms,
)
    requires
        is_sound(ledger),
        is_carried_out(ledger, Call::Initialize { authorized, now, terms }),
    ensures
        is_sound(after_call(ledger, Call::Initialize { authorized, now, terms })),
{
    let after = after_call(ledger, Call::Initialize { authorized, now, terms });
    let count = terms.milestones@.len();
    lemma_after_initialize(ledger, terms);
    lemma_initialize_writes(ledger, terms, count);
    assert(contract::initialize_writes(terms).take(count + 1int) =~= contract::initialize_writes(
        terms,
    ));
    assert forall|key: DataKey| #[trigger] after.contains_key(key) implies is_kept_under(
        key,
        after[key],
    ) by {
        if let DataKey::MilestoneData(i) = key {
            if i < count {
                assert(after.contains_key(DataKey::MilestoneData(i)));
            }
        }
    }
    let campaign = contract::new_campaign(terms);
    assert forall|i: u32, j: u32| i < j < campaign.milestone_count implies (
    #[trigger] storage::stored_milestone(after, i)->0).target_amount < (
    #[trigger] storage::stored_milestone(after, j)->0).target_amount by {
        assert(terms.milestones@[i as int].target_amount
            < terms.milestones@[j as int].target_amount);
    }
    let last = (count - 1) as u32;
    assert(storage::stored_milestone(after, last) == Some(terms.milestones@[last as int]));
    assert(donor_totals(after) =~= Map::empty());
}

/// A donation leaves sound storage.
proof fn lemma_donation_keeps_sound(
    ledger: Ledger,
    now: u64,
    donor: Address,
    amount: i128,
    asset: AssetInfo,
)
    requires
        is_sound(ledger),
        is_carried_out(ledger, Call::Donate { now, donor, amount, asset, paid: true }),
    ensures
        is_sound(after_call(ledger, Call::Donate { now, donor, amount, asset, paid: true })),
{
    let call = Call::Donate { now, donor, amount, asset, paid: true };
    let after = after_call(ledger, call);
    let campaign = storage::stored_campaign(ledger)->0;
    let existing = storage::stored_donor(ledger, donor);
    law_donation_is_credited(ledger, now, donor, amount, asset);
    lemma_after_donation(ledger, campaign, existing, donor, amount, asset, now);
    let total = total_of(after, donor);
    assert(donor_totals(after) =~= donor_totals(ledger).insert(donor, total));
    lemma_sum_insert(donor_totals(ledger), donor, total);
    assert(milestones_are_sound(after, storage::stored_campaign(after)->0));
}

// ---------------------------------------------------------------------------
// The laws of one call

/// A call that is refused or undone leaves storage as it was.
pub proof fn law_refused_call_changes_nothing(ledger: Ledger, call: Call)
    requires
        !is_carried_out(ledger, call),
    ensures
        after_call(ledger, call) == ledger,
        received(ledger, call) == 0,
{
}

/// From an accepted initialization on, anyone is told of an active campaign on
/// the given terms with nothing raised. The initialization stores every given
/// milestone under its position, and leaves all donors' records as they were.
pub proof fn law_initialize_stores_the_terms(
    ledger: Ledger,
    authorized: bool,
    now: u64,
    terms: CampaignTerms,
)
    requires
        is_carried_out(ledger, Call::Initialize { authorized, now, terms }),
    ensures
        ({
            let after = after_call(ledger, Call::Initialize { authorized, now, terms });
            &&& contract::campaign_info(storage::stored_campaign(after)) == Ok::<
                CampaignData,
                Error,
            >(contract::new_campaign(terms))
            &&& forall|i: u32|
                i < terms.milestones@.len() ==> #[trigger] storage::stored_milestone(after, i)
                    == Some(terms.milestones@[i as int])
            &&& forall|donor: Address| #[trigger]
                storage::stored_donor(after, donor) == storage::stored_donor(ledger, donor)
        }),
{
    lemma_after_initialize(ledger, terms);
}

/// Without a campaign there is nothing to be told of, and no donation is
/// accepted.
pub proof fn law_nothing_comes_before_initialize(
    ledger: Ledger,
    now: u64,
    amount: i128,
    asset: AssetInfo,
)
    requires
        storage::stored_campaign(ledger) is None,
    ensures
        contract::campaign_info(storage::stored_campaign(ledger)) == Err::<CampaignData, Error>(
            Error::NotInitialized,
        ),
        contract::donate_verdict(storage::stored_campaign(ledger), now, amount, asset) == Err::<
            Address,
            Error,
        >(
            if amount > 0 {
                Error::NotInitialized
            } else {
                Error::InvalidDonationAmount
            },
        ),
{
}

/// An accepted initialization is within the rules: the creator authorized it,
/// the goal is positive, the end lies ahead, at least one asset is accepted
/// and every accepted asset has a code, there are one to five milestones, and
/// each has a target below the goal but for the last, whose target is the
/// goal.
pub proof fn law_initialized_campaign_is_within_the_rules(
    ledger: Ledger,
    authorized: bool,
    now: u64,
    terms: CampaignTerms,
)
    requires
        is_carried_out(ledger, Call::Initialize { authorized, now, terms }),
    ensures
        authorized,
        storage::stored_campaign(ledger) is None,
        terms.goal_amount > 0,
        now < terms.end_time,
        terms.accepted_assets@.len() > 0,
        validation::codes_are_given(terms.accepted_assets@),
        1 <= terms.milestones@.len() <= 5,
        validation::targets_ascend(terms.milestones@),
        terms.milestones@.last().target_amount == terms.goal_amount,
        forall|i: int|
            0 <= i < terms.milestones@.len() - 1 ==> (#[trigger] terms.milestones@[i]).target_amount
                < terms.goal_amount,
{
}

/// A donation that is carried out adds its amount to what the campaign has
/// raised and to the donor's total, and sets the time of the donor's last
/// donation. The asset in the record stays that of the donor's first
/// donation. Nothing else of the campaign changes, not even its status, and
/// no milestone and no other donor's record.
pub proof fn law_donation_is_credited(
    ledger: Ledger,
    now: u64,
    donor: Address,
    amount: i128,
    asset: AssetInfo,
)
    requires
        is_carried_out(ledger, Call::Donate { now, donor, amount, asset, paid: true }),
    ensures
        ({
            let after = after_call(
                ledger,
                Call::Donate { now, donor, amount, asset, paid: true },
            );
            let before = storage::stored_campaign(ledger)->0;
            let existing = storage::stored_donor(ledger, donor);
            &&& storage::stored_campaign(after) matches Some(campaign)
                && campaign.raised_amount == before.raised_amount + amount && campaign
                == (CampaignData { raised_amount: campaign.raised_amount, ..before })
            &&& storage::stored_donor(after, donor) matches Some(record)
                && record.last_donation_time == now && record.total_donated == total_of(
                ledger,
                donor,
            ) + amount && record.asset == (if existing is Some {
                (existing->0).asset
            } else {
                asset
            }) && record.donor == (if existing is Some {
                (existing->0).donor
            } else {
                donor
            })
            &&& forall|other: Address|
                other != donor ==> #[trigger] storage::stored_donor(after, other)
                    == storage::stored_donor(ledger, other)
            &&& forall|i: u32| #[trigger]
                storage::stored_milestone(after, i) == storage::stored_milestone(ledger, i)
        }),
{
    lemma_after_donation(
        ledger,
        storage::stored_campaign(ledger)->0,
        storage::stored_donor(ledger, donor),
        donor,
        amount,
        asset,
        now,
    );
}

/// A donation goes to a token contract that the campaign lists as an issuer;
/// one in a token goes to that very token.
pub proof fn law_donation_is_paid_in_an_accepted_token(
    campaign: CampaignData,
    now: u64,
    amount: i128,
    asset: AssetInfo,
)
    requires
        contract::donate_verdict(Some(campaign), now, amount, asset) is Ok,
    ensures
        ({
            let token = contract::donate_verdict(Some(campaign), now, amount, asset)->Ok_0;
            &&& assets::is_accepted_issuer(campaign.accepted_assets@, token)
            &&& asset matches AssetInfo::Stellar(address) ==> token == address
        }),
{
    let accepted = campaign.accepted_assets@;
    if asset is Native {
        let i = choose|i: int| assets::is_first_xlm(accepted, i);
        assert(assets::is_first_xlm(accepted, i));
        assert(accepted[i].issuer is Some);
    }
}

/// Native XLM is donated through the same token as if its token contract had
/// been named.
pub proof fn law_native_donation_is_a_donation_of_its_token(
    campaign: CampaignData,
    now: u64,
    amount: i128,
)
    ensures
        contract::donate_verdict(Some(campaign), now, amount, AssetInfo::Native) matches Ok(token)
            ==> contract::donate_verdict(Some(campaign), now, amount, AssetInfo::Stellar(token))
            == Ok::<Address, Error>(token),
{
    if contract::donate_verdict(Some(campaign), now, amount, AssetInfo::Native) is Ok {
        law_donation_is_paid_in_an_accepted_token(campaign, now, amount, AssetInfo::Native);
    }
}

/// A donation in an asset that is accepted at one moment is accepted at every
/// earlier one, and one that comes after the end is refused at every later
/// moment.
pub proof fn law_donations_close_for_good(
    campaign: CampaignData,
    earlier: u64,
    later: u64,
    amount: i128,
    asset: AssetInfo,
)
    requires
        earlier <= later,
    ensures
        contract::donate_verdict(Some(campaign), later, amount, asset) is Ok
            ==> contract::donate_verdict(Some(campaign), earlier, amount, asset)
            == contract::donate_verdict(Some(campaign), later, amount, asset),
        contract::donate_verdict(Some(campaign), earlier, amount, asset) == Err::<Address, Error>(
            Error::CampaignEnded,
        ) ==> contract::donate_verdict(Some(campaign), later, amount, asset) == Err::<
            Address,
            Error,
        >(Error::CampaignEnded),
{
}

// ---------------------------------------------------------------------------
// The laws of all calls

/// A campaign, once it is there, stays there on its terms: over any calls only
/// the raised amount changes, which never falls, and every milestone stays as
/// it was stored.
pub proof fn law_terms_are_fixed(ledger: Ledger, calls: Seq<Call>)
    requires
        storage::stored_campaign(ledger) is Some,
    ensures
        ({
            let before = storage::stored_campaign(ledger)->0;
            let after = after_calls(ledger, calls);
            &&& storage::stored_campaign(after) matches Some(campaign) && campaign.raised_amount
                >= before.raised_amount && campaign == (CampaignData {
                raised_amount: campaign.raised_amount,
                ..before
            })
            &&& forall|i: u32| #[trigger]
                storage::stored_milestone(after, i) == storage::stored_milestone(ledger, i)
        }),
    decreases calls.len(),
{
    if calls.len() > 0 {
        law_terms_are_fixed(ledger, calls.drop_last());
        let previous = after_calls(ledger, calls.drop_last());
        match calls.last() {
            Call::Donate { now, donor, amount, asset, paid } => {
                if is_carried_out(previous, calls.last()) {
                    law_donation_is_credited(previous, now, donor, amount, asset);
                }
            },
            Call::Initialize { .. } => {},
        }
    }
}

/// A campaign can be initialized once: whatever calls follow, an authorized
/// initialization is refused as one of a campaign that is already initialized,
/// and changes nothing.
pub proof fn law_initialize_succeeds_once(
    ledger: Ledger,
    calls: Seq<Call>,
    now: u64,
    terms: CampaignTerms,
)
    requires
        storage::stored_campaign(ledger) is Some,
    ensures
        ({
            let later = after_calls(ledger, calls);
            &&& contract::initialize_verdict(
                true,
                storage::stored_campaign(later),
                now,
                terms,
            ) == Err::<(), Error>(Error::AlreadyInitialized)
            &&& forall|authorized: bool| #[trigger]
                after_call(later, Call::Initialize { authorized, now, terms }) == later
        }),
{
    law_terms_are_fixed(ledger, calls);
}

/// Storage that is sound before a call is sound after it.
pub proof fn law_call_keeps_storage_sound(ledger: Ledger, call: Call)
    requires
        is_sound(ledger),
    ensures
        is_sound(after_call(ledger, call)),
{
    if is_carried_out(ledger, call) {
        match call {
            Call::Initialize { authorized, now, terms } => {
                lemma_initialize_keeps_sound(ledger, authorized, now, terms);
            },
            Call::Donate { now, donor, amount, asset, paid } => {
                lemma_donation_keeps_sound(ledger, now, donor, amount, asset);
            },
        }
    }
}

/// Whatever calls a new contract gets, its storage is sound: the donors'
/// records always add up to what the campaign has raised.
pub proof fn law_storage_is_always_sound(calls: Seq<Call>)
    ensures
        is_sound(after_calls(Map::empty(), calls)),
    decreases calls.len(),
{
    if calls.len() > 0 {
        law_storage_is_always_sound(calls.drop_last());
        law_call_keeps_storage_sound(after_calls(Map::empty(), calls.drop_last()), calls.last());
    }
}

/// What a new contract's campaign has raised is the sum of all donations that
/// were carried out, and every donor's total is the sum of their own.
pub proof fn law_accounts_are_the_sums_of_donations(calls: Seq<Call>, giver: Address)
    ensures
        raised_in(after_calls(Map::empty(), calls)) == received_over(Map::empty(), calls),
        total_of(after_calls(Map::empty(), calls), giver) == given_over(
            Map::empty(),
            calls,
            giver,
        ),
    decreases calls.len(),
{
    if calls.len() > 0 {
        law_accounts_are_the_sums_of_donations(calls.drop_last(), giver);
        let previous = after_calls(Map::empty(), calls.drop_last());
        if is_carried_out(previous, calls.last()) {
            match calls.last() {
                Call::Initialize { authorized, now, terms } => {
                    law_initialize_stores_the_terms(previous, authorized, now, terms);
                },
                Call::Donate { now, donor, amount, asset, paid } => {
                    law_donation_is_credited(previous, now, donor, amount, asset);
                },
            }
        }
    }
}

/// Two donations of different donors leave the same storage in either order.
pub proof fn law_donations_commute(ledger: Ledger, first: Call, second: Call)
    requires
        first is Donate,
        second is Donate,
        first->Donate_donor != second->Donate_donor,
        is_carried_out(ledger, first),
        is_carried_out(after_call(ledger, first), second),
    ensures
        is_carried_out(ledger, second),
        is_carried_out(after_call(ledger, second), first),
        after_call(after_call(ledger, first), second) == after_call(
            after_call(ledger, second),
            first,
        ),
{
    match (first, second) {
        (
            Call::Donate { now: now1, donor: donor1, amount: amount1, asset: asset1, paid: paid1 },
            Call::Donate { now: now2, donor: donor2, amount: amount2, asset: asset2, paid: paid2 },
        ) => {
            law_donation_is_credited(ledger, now1, donor1, amount1, asset1);
            law_donation_is_credited(ledger, now2, donor2, amount2, asset2);
            let campaign = storage::stored_campaign(ledger)->0;
            let record1 = storage::stored_donor(ledger, donor1);
            let record2 = storage::stored_donor(ledger, donor2);
            let campaign1 = contract::credited_campaign(campaign, amount1);
            let campaign2 = contract::credited_campaign(campaign, amount2);
            lemma_after_donation(ledger, campaign, record1, donor1, amount1, asset1, now1);
            lemma_after_donation(ledger, campaign, record2, donor2, amount2, asset2, now2);
            lemma_after_donation(
                after_call(ledger, first),
                campaign1,
                record2,
                donor2,
                amount2,
                asset2,
                now2,
            );
            lemma_after_donation(
                after_call(ledger, second),
                campaign2,
                record1,
                donor1,
                amount1,
                asset1,
                now1,
            );
            assert(after_call(after_call(ledger, first), second) =~= after_call(
                after_call(ledger, second),
                first,
            ));
        },
        _ => {},
    }
}

// ---------------------------------------------------------------------------
// The laws of statuses and error codes

/// A campaign's moves are a strict order in which any two statuses compare: no
/// status leads back to itself, two moves in a row make one move, and of two
/// different statuses exactly one leads to the other.
pub proof fn law_campaign_moves_only_forward(
    a: CampaignStatus,
    b: CampaignStatus,
    c: CampaignStatus,
)
    ensures
        !transitions::campaign_may_move(a, a),
        transitions::campaign_may_move(a, b) && transitions::campaign_may_move(b, c)
            ==> transitions::campaign_may_move(a, c),
        a != b ==> (transitions::campaign_may_move(a, b) <==> !transitions::campaign_may_move(
            b,
            a,
        )),
{
}

/// A cancelled campaign stays cancelled, and every other campaign may be
/// cancelled.
pub proof fn law_cancellation_is_final(status: CampaignStatus)
    ensures
        !transitions::campaign_may_move(CampaignStatus::Cancelled, status),
        transitions::campaign_may_move(status, CampaignStatus::Cancelled) <==> status
            != CampaignStatus::Cancelled,
{
}

/// A milestone's moves are a strict order in which any two statuses compare.
pub proof fn law_milestone_moves_only_forward(
    a: MilestoneStatus,
    b: MilestoneStatus,
    c: MilestoneStatus,
)
    ensures
        !transitions::milestone_may_move(a, a),
        transitions::milestone_may_move(a, b) && transitions::milestone_may_move(b, c)
            ==> transitions::milestone_may_move(a, c),
        a != b ==> (transitions::milestone_may_move(a, b) <==> !transitions::milestone_may_move(
            b,
            a,
        )),
{
}

/// A released milestone stays released, and every other milestone may be
/// released.
pub proof fn law_release_is_final(status: MilestoneStatus)
    ensures
        !transitions::milestone_may_move(MilestoneStatus::Released, status),
        transitions::milestone_may_move(status, MilestoneStatus::Released) <==> status
            != MilestoneStatus::Released,
{
}

/// No two errors share a code.
pub proof fn law_error_codes_are_distinct(a: Error, b: Error)
    ensures
        types::error_code(a) == types::error_code(b) <==> a == b,
{
}

} // verus!
