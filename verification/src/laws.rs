//! What holds of the operations whatever their inputs, stated over the
//! outcomes that the operations' own contracts promise.

use vstd::prelude::*;
use crate::instructions::burn::{
    burn_outcome, spec_stats_full, waste_outcome, ArtBurned, BurnError, BurnNft, BurnToWaste,
    BurnedToSacredWaste, TokenAccount,
};
use crate::instructions::mint::{mint_outcome, ArtMinted, MintAccounts, MintError};
use crate::instructions::pit::{
    deposit_outcome, spec_may_deposit, BurnDeposited, DepositBurn, PitError,
};
use crate::ledger::{Error, LedgerView};
use crate::pubkey::Pubkey;
use crate::service::{spec_settle, Receipt, ServiceFailed, ServiceReply};
use crate::state::{CollectionConfig, PitBurnRecord};
use crate::text::byte_len;
use crate::{burn_to_waste_result, deposit_burn_result, mint_result, spec_deposit_addresses};

verus! {

/// A run of mints against one registry: `states` are the registry before the
/// first mint, between the mints, and after the last; the mint number `i`
/// takes `states[i]` to `states[i + 1]` and hands back `results[i]`.
pub open spec fn is_mint_run(
    states: Seq<CollectionConfig>,
    accounts: Seq<MintAccounts>,
    uris: Seq<String>,
    premium: Seq<bool>,
    results: Seq<Result<Receipt<ArtMinted>, MintError>>,
) -> bool {
    &&& states.len() == results.len() + 1
    &&& accounts.len() == results.len()
    &&& uris.len() == results.len()
    &&& premium.len() == results.len()
    &&& forall|i: int|
        0 <= i < results.len() ==> #[trigger] mint_outcome(
            accounts[i],
            states[i],
            uris[i],
            premium[i],
            states[i + 1],
            results[i],
        )
}

proof fn lemma_mint_run_counts(
    states: Seq<CollectionConfig>,
    accounts: Seq<MintAccounts>,
    uris: Seq<String>,
    premium: Seq<bool>,
    results: Seq<Result<Receipt<ArtMinted>, MintError>>,
    upto: int,
)
    requires
        is_mint_run(states, accounts, uris, premium, results),
        forall|i: int| 0 <= i < results.len() ==> (#[trigger] results[i]) is Ok,
        0 <= upto <= results.len(),
    ensures
        states[upto].total_minted == states[0].total_minted + upto,
    decreases upto,
{
    if upto > 0 {
        lemma_mint_run_counts(states, accounts, uris, premium, results, upto - 1);
        let i = upto - 1;
        assert(results[i] is Ok);
        assert(mint_outcome(accounts[i], states[i], uris[i], premium[i], states[i + 1], results[i]));
    }
}

/// After any run of successful mints against one registry the counter of
/// issued tokens has gone up by the number of mints, and the mints were given
/// the sequence ids from the counter's first value on, one after another in
/// the order of the calls. For a registry that starts at zero: after N mints
/// the counter is N and the ids are 0 to N - 1.
pub proof fn lemma_mint_sequence(
    states: Seq<CollectionConfig>,
    accounts: Seq<MintAccounts>,
    uris: Seq<String>,
    premium: Seq<bool>,
    results: Seq<Result<Receipt<ArtMinted>, MintError>>,
)
    requires
        is_mint_run(states, accounts, uris, premium, results),
        forall|i: int| 0 <= i < results.len() ==> (#[trigger] results[i]) is Ok,
    ensures
        states.last().total_minted == states[0].total_minted + results.len(),
        forall|i: int|
            0 <= i < results.len() ==> (#[trigger] results[i])->Ok_0.event.token_id
                == states[0].total_minted + i,
{
    lemma_mint_run_counts(states, accounts, uris, premium, results, results.len() as int);
    assert forall|i: int| 0 <= i < results.len() implies (#[trigger] results[i])->Ok_0.event.token_id
        == states[0].total_minted + i by {
        lemma_mint_run_counts(states, accounts, uris, premium, results, i);
        assert(mint_outcome(accounts[i], states[i], uris[i], premium[i], states[i + 1], results[i]));
    }
}

/// A direct burn from the caller's token account for the token is refused as
/// `NotOwner`, and changes nothing, where the account holds no unit or more
/// than one; where it holds exactly one the burn succeeds and the counter of
/// destroyed tokens goes up by exactly one, unless that counter is at its
/// maximum.
pub proof fn lemma_burn_takes_exactly_one_unit(
    before: BurnNft,
    now: i64,
    after: BurnNft,
    result: Result<Receipt<ArtBurned>, BurnError>,
)
    requires
        burn_outcome(before, now, after, result),
        before.token_account.owner == before.burner,
        before.token_account.mint == before.mint,
    ensures
        before.token_account.amount != 1 ==> result == Err::<Receipt<ArtBurned>, BurnError>(
            BurnError::NotOwner,
        ) && after == before,
        before.token_account.amount == 1 && before.collection_config.total_burned < u64::MAX ==> {
            &&& result is Ok
            &&& after.collection_config.total_burned == before.collection_config.total_burned + 1
        },
{
}

/// A burn into the pit of a collection without a pit link is refused as
/// `PitNotConfigured`, and changes nothing, whatever the caller holds.
pub proof fn lemma_waste_needs_pit_link(
    before: BurnToWaste,
    now: i64,
    after: BurnToWaste,
    result: Result<Receipt<BurnedToSacredWaste>, BurnError>,
)
    requires
        waste_outcome(before, now, after, result),
        before.collection_config.sacred_waste_pit is None,
    ensures
        result == Err::<Receipt<BurnedToSacredWaste>, BurnError>(BurnError::PitNotConfigured),
        after == before,
{
}

/// On a ledger, too, a burn into the pit of a collection without a pit link
/// is refused as `PitNotConfigured`, and changes nothing, whatever the caller
/// holds.
pub proof fn lemma_ledger_waste_needs_pit_link(
    before: LedgerView,
    burner: Pubkey,
    mint: Pubkey,
    token_account: TokenAccount,
    now: i64,
    after: LedgerView,
    result: Result<Receipt<BurnedToSacredWaste>, Error>,
)
    requires
        burn_to_waste_result(before, burner, mint, token_account, now, after, result),
        before.collection_config matches Some((_, config)) && config.sacred_waste_pit is None,
    ensures
        result == Err::<Receipt<BurnedToSacredWaste>, Error>(
            Error::Burn(BurnError::PitNotConfigured),
        ),
        after == before,
{
}

/// A deposit from a caller without an allow-list entry, or with an entry
/// that is switched off, is refused as `Unauthorized`, and leaves the pit's
/// counter as it was.
pub proof fn lemma_deposit_needs_authorization(
    before: DepositBurn,
    burner: Pubkey,
    metadata: Seq<char>,
    now: i64,
    after: DepositBurn,
    result: Result<BurnDeposited, PitError>,
)
    requires
        deposit_outcome(before, burner, metadata, now, after, result),
        before.authorized_program matches Some(entry) ==> !entry.is_authorized,
    ensures
        result == Err::<BurnDeposited, PitError>(PitError::Unauthorized),
        after.sacred_waste_pit.total_burns == before.sacred_waste_pit.total_burns,
        after == before,
{
}

/// On a ledger with a pit, a deposit from a caller without an allow-list
/// entry, or with an entry that is switched off, is refused as
/// `Unauthorized`, and leaves the pit's counter as it was.
pub proof fn lemma_ledger_deposit_needs_authorization(
    before: LedgerView,
    caller: Pubkey,
    burner: Pubkey,
    metadata: Seq<char>,
    now: i64,
    after: LedgerView,
    result: Result<BurnDeposited, Error>,
)
    requires
        deposit_burn_result(before, caller, burner, metadata, now, after, result),
        before.sacred_waste_pit is Some,
        before.entry_of(caller) matches Some(entry) ==> !entry.is_authorized,
    ensures
        result == Err::<BurnDeposited, Error>(Error::Pit(PitError::Unauthorized)),
        after.total_burns() == before.total_burns(),
        after == before,
{
}

/// A deposit from an authorized caller, with metadata that fits and counters
/// that can take one more, succeeds: the pit's counter goes up by one, the
/// burner's count goes up by one, from zero where the burner had no
/// statistics, and the pit burn record carries the sequence number that the
/// pit had before the deposit.
pub proof fn lemma_deposit_by_authorized(
    before: DepositBurn,
    burner: Pubkey,
    metadata: Seq<char>,
    now: i64,
    after: DepositBurn,
    result: Result<BurnDeposited, PitError>,
)
    requires
        deposit_outcome(before, burner, metadata, now, after, result),
        spec_may_deposit(before.authorized_program, before.caller),
        byte_len(metadata) <= PitBurnRecord::MAX_METADATA_LEN,
        !spec_stats_full(before.burner_stats),
        before.sacred_waste_pit.total_burns < u64::MAX,
    ensures
        result is Ok,
        result->Ok_0.burn_id == before.sacred_waste_pit.total_burns,
        after.sacred_waste_pit.total_burns == before.sacred_waste_pit.total_burns + 1,
        after.burner_stats matches Some(stats) && stats.burn_count == (match before.burner_stats {
            Some(held) => held.burn_count + 1,
            None => 1,
        }),
        after.pit_burn_record matches Some(record) && record.burn_id
            == before.sacred_waste_pit.total_burns,
{
}

/// On a ledger, a deposit that is not refused leaves the pit's counter one
/// higher and the burner's count one higher, from zero where the burner had
/// no statistics; and the ledger then holds the new pit burn record under
/// the address derived from the sequence number that the pit had before the
/// deposit.
pub proof fn lemma_ledger_deposit(
    before: LedgerView,
    caller: Pubkey,
    burner: Pubkey,
    metadata: Seq<char>,
    now: i64,
    after: LedgerView,
    result: Result<BurnDeposited, Error>,
)
    requires
        deposit_burn_result(before, caller, burner, metadata, now, after, result),
        result is Ok,
    ensures
        spec_may_deposit(before.entry_of(caller), caller),
        result->Ok_0.burn_id == before.total_burns(),
        after.total_burns() == before.total_burns() + 1,
        after.stats_of(burner) matches Some(stats) && stats.burn_count == (match before.stats_of(
            burner,
        ) {
            Some(held) => held.burn_count + 1,
            None => 1,
        }),
        after.pit_burn_record(before.total_burns()) matches Some(record) && record.burn_id
            == before.total_burns() && record.burner == burner,
{
    let (record, stats) = spec_deposit_addresses(before, burner)->Some_0;
    assert(after.burner_stats.contains_key(stats.key));
    assert(after.pit_burn_records.contains_key(record.key));
}

/// A mint never lowers a counter of the registry, and changes nothing of the
/// registry but the counter of issued tokens.
pub proof fn lemma_mint_changes_one_counter(
    accounts: MintAccounts,
    before: CollectionConfig,
    uri: String,
    premium: bool,
    after: CollectionConfig,
    result: Result<Receipt<ArtMinted>, MintError>,
)
    requires
        mint_outcome(accounts, before, uri, premium, after, result),
    ensures
        after.total_minted >= before.total_minted,
        after == (CollectionConfig { total_minted: after.total_minted, ..before }),
{
}

/// A burn into the pit never lowers a counter: those of the registry, of the
/// pit and of the burner stay or go up by one, all three together.
pub proof fn lemma_waste_counts_together(
    before: BurnToWaste,
    now: i64,
    after: BurnToWaste,
    result: Result<Receipt<BurnedToSacredWaste>, BurnError>,
)
    requires
        waste_outcome(before, now, after, result),
    ensures
        result is Err ==> after == before,
        result is Ok ==> {
            &&& after.collection_config.total_burned == before.collection_config.total_burned + 1
            &&& after.sacred_waste_pit.total_burns == before.sacred_waste_pit.total_burns + 1
            &&& after.burner_stats matches Some(stats) && stats.burn_count == (
            match before.burner_stats {
                Some(held) => held.burn_count + 1,
                None => 1,
            })
            &&& after.pit_burn_record matches Some(record) && record.burn_id
                == before.sacred_waste_pit.total_burns
            &&& result->Ok_0.event.burn_id == before.sacred_waste_pit.total_burns
        },
{
}

/// A mint takes effect as a whole or not at all: where every request of its
/// receipt was carried out the registry counts one more token and the
/// notification carries the sequence id that the counter showed before;
/// where one was refused or left unanswered, the transfer of the premium fee
/// among them, the registry is as it was and nothing is emitted.
pub proof fn lemma_mint_is_atomic(
    accounts: MintAccounts,
    before: CollectionConfig,
    uri: String,
    premium: bool,
    after: CollectionConfig,
    receipt: Receipt<ArtMinted>,
    replies: Seq<ServiceReply>,
)
    requires
        mint_outcome(
            accounts,
            before,
            uri,
            premium,
            after,
            Ok::<Receipt<ArtMinted>, MintError>(receipt),
        ),
    ensures
        spec_settle(before, after, receipt, replies).0 == before || spec_settle(
            before,
            after,
            receipt,
            replies,
        ).0 == before.minted(),
        spec_settle(before, after, receipt, replies).1 is Ok <==> spec_settle(
            before,
            after,
            receipt,
            replies,
        ).0.total_minted == before.total_minted + 1,
        spec_settle(before, after, receipt, replies).1 matches Ok(event) ==> event.token_id
            == before.total_minted && event.premium == premium,
        replies.len() > 0 && replies[0] == ServiceReply::Failed ==> spec_settle(
            before,
            after,
            receipt,
            replies,
        ) == (before, Err::<ArtMinted, ServiceFailed>(ServiceFailed)),
{
}

/// A direct burn takes effect as a whole or not at all: where both requests
/// of its receipt were carried out the burn record stands and the registry
/// counts one more destroyed token; otherwise everything is as it was.
pub proof fn lemma_burn_is_atomic(
    before: BurnNft,
    now: i64,
    after: BurnNft,
    receipt: Receipt<ArtBurned>,
    replies: Seq<ServiceReply>,
)
    requires
        burn_outcome(before, now, after, Ok::<Receipt<ArtBurned>, BurnError>(receipt)),
    ensures
        spec_settle(before, after, receipt, replies).1 is Err ==> spec_settle(
            before,
            after,
            receipt,
            replies,
        ).0 == before,
        spec_settle(before, after, receipt, replies).1 is Ok ==> {
            let stands = spec_settle(before, after, receipt, replies).0;
            &&& stands.collection_config.total_burned == before.collection_config.total_burned + 1
            &&& stands.burned_art is Some
        },
{
}

/// On a ledger, a mint that is not refused gives the token the sequence id
/// that the registry's counter showed, and leaves the counter one higher.
pub proof fn lemma_ledger_mint_counts(
    before: LedgerView,
    accounts: MintAccounts,
    uri: String,
    premium: bool,
    after: LedgerView,
    result: Result<Receipt<ArtMinted>, Error>,
)
    requires
        mint_result(before, accounts, uri, premium, after, result),
        result is Ok,
    ensures
        before.collection_config matches Some((_, held)) && after.collection_config matches Some(
            (_, left),
        ) && left.total_minted == held.total_minted + 1 && result->Ok_0.event.token_id
            == held.total_minted,
{
}

} // verus!
