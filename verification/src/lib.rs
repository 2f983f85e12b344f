//! State-transition layer of a collectible-token collection: issuance,
//! destruction, archival of destroyed tokens in a shared waste pit, and the
//! administration of the collection registry.
//!
//! The operations of this file work on a [`ledger::Ledger`]: each finds the
//! records it needs under their derived addresses, hands them to the
//! operation's handler in [`instructions`], and puts the outcome back.
//!
//! A mint or a burn also needs outside services. It hands back a
//! [`service::Receipt`] with the requests to make, and what it did to the
//! ledger stands only once every one of them was carried out:
//! [`service::settle`] puts the ledger from before the operation back
//! otherwise, so that an operation takes effect as a whole or not at all.

pub mod address;
pub mod instructions;
pub mod laws;
pub mod ledger;
pub mod pubkey;
pub mod records;
pub mod service;
pub mod state;
pub mod text;

use vstd::prelude::*;
use crate::address::{
    authorized_program_seeds, burned_art_seeds, burner_stats_seeds, collection_config_seeds,
    find_record_address, pit_burn_seeds, sacred_waste_pit_seeds, spec_authorized_program_seeds,
    spec_burned_art_seeds, spec_burner_stats_seeds, spec_collection_config_seeds,
    spec_pit_burn_seeds, spec_record_address, spec_sacred_waste_pit_seeds, RecordAddress,
};
use crate::instructions::admin::{
    handler_set_pit, handler_set_premium_fee, handler_set_treasury, handler_transfer_authority,
    AdminError, AuthorityTransferred, PremiumFeeUpdated, SacredWastePitUpdated, SetPremiumFee,
    SetSacredWastePit, SetTreasury, TransferAuthority, TreasuryUpdated,
};
use crate::instructions::burn::{
    holds_one, is_burned_art, is_pit_burn_record, spec_burn_calls, spec_burned_uri,
    spec_holds_one, spec_stats_after, spec_stats_full, ArtBurned, BurnError, BurnNft,
    BurnNftBumps, BurnToWaste, BurnToWasteBumps, BurnedToSacredWaste, TokenAccount,
};
use crate::instructions::initialize::{spec_initialize_refusal, Initialize, InitializeBumps};
use crate::instructions::mint::{
    spec_mint_requests, ArtMinted, MintAccounts, MintError, MintNft, MintNftWithPremium,
};
use crate::instructions::pit::{
    handler_authorize, handler_deposit, handler_init, may_deposit, spec_may_deposit,
    AuthorizeProgram, AuthorizeProgramBumps, BurnDeposited, DepositBurn, DepositBurnBumps,
    InitializePit, InitializePitBumps, PitError,
};
use crate::ledger::{
    lemma_wf_after_deposit, lemma_wf_beside_pit, lookup, Error, Ledger, LedgerView,
};
use crate::pubkey::Pubkey;
use crate::service::{calls_view, Receipt};
use crate::state::{AuthorizedProgram, CollectionConfig, PitBurnRecord, SacredWastePit};
use crate::text::byte_len;

verus! {

/// Identity of this program, under which the addresses of its records are
/// derived.
pub open spec fn spec_id() -> Pubkey {
    Pubkey {
        bytes: [
            74u8, 184, 114, 177, 204, 170, 12, 35, 140, 182, 97, 85, 181, 121, 156, 68, 113, 223,
            125, 0, 68, 89, 74, 229, 24, 27, 194, 142, 12, 14, 117, 233,
        ],
    }
}

/// Identity of this program, under which the addresses of its records are
/// derived.
pub fn id() -> (key: Pubkey)
    ensures
        key == spec_id(),
{
    Pubkey {
        bytes: [
            74u8, 184, 114, 177, 204, 170, 12, 35, 140, 182, 97, 85, 181, 121, 156, 68, 113, 223,
            125, 0, 68, 89, 74, 229, 24, 27, 194, 142, 12, 14, 117, 233,
        ],
    }
}

/// The ledger with `config` in place of its collection registry, under the
/// same address.
pub open spec fn with_config(before: LedgerView, config: CollectionConfig) -> LedgerView {
    match before.collection_config {
        Some((key, _)) => LedgerView { collection_config: Some((key, config)), ..before },
        None => before,
    }
}

/// What the creation of the collection registry does to the ledger and hands
/// back: it needs an address for the registry, no registry yet, and strings
/// within their bounds, in this order.
pub open spec fn initialize_result(
    before: LedgerView,
    authority: Pubkey,
    name: String,
    symbol: String,
    uri: String,
    treasury: Pubkey,
    premium_fee: u64,
    after: LedgerView,
    result: Result<RecordAddress, Error>,
) -> bool {
    match spec_record_address(spec_collection_config_seeds(), before.program_id) {
        None => result == Err::<RecordAddress, Error>(Error::AddressNotFound) && after == before,
        Some(address) => if before.collection_config is Some {
            result == Err::<RecordAddress, Error>(Error::AlreadyInitialized) && after == before
        } else {
            match spec_initialize_refusal(name@, symbol@, uri@) {
                Some(error) => result == Err::<RecordAddress, Error>(Error::Initialize(error))
                    && after == before,
                None => {
                    &&& result == Ok::<RecordAddress, Error>(address)
                    &&& after == (LedgerView {
                        collection_config: Some(
                            (
                                address.key,
                                CollectionConfig {
                                    authority,
                                    name,
                                    symbol,
                                    uri,
                                    treasury,
                                    premium_fee,
                                    total_minted: 0,
                                    total_burned: 0,
                                    sacred_waste_pit: None,
                                    bump: address.bump,
                                },
                            ),
                        ),
                        ..before
                    })
                },
            }
        },
    }
}

/// Creates the collection registry, once: the caller becomes its authority.
/// Hands back the address of the registry.
pub fn initialize(
    ledger: &mut Ledger,
    authority: Pubkey,
    name: String,
    symbol: String,
    uri: String,
    treasury: Pubkey,
    premium_fee: u64,
) -> (result: Result<RecordAddress, Error>)
    requires
        old(ledger).wf(),
    ensures
        final(ledger).wf(),
        initialize_result(
            old(ledger)@,
            authority,
            name,
            symbol,
            uri,
            treasury,
            premium_fee,
            final(ledger)@,
            result,
        ),
{
    let address = match find_record_address(&collection_config_seeds(), &ledger.program_id) {
        Some(address) => address,
        None => {
            return Err(Error::AddressNotFound);
        },
    };
    if ledger.collection_config.is_some() {
        return Err(Error::AlreadyInitialized);
    }
    let mut ctx = Initialize {
        authority,
        collection_config: None,
        bumps: InitializeBumps { collection_config: address.bump },
    };
    match crate::instructions::initialize::handler(
        &mut ctx,
        name,
        symbol,
        uri,
        treasury,
        premium_fee,
    ) {
        Ok(()) => {},
        Err(error) => {
            return Err(Error::Initialize(error));
        },
    }
    match ctx.collection_config {
        Some(config) => {
            ledger.collection_config = Some((address.key, config));
            proof {
                lemma_wf_beside_pit(old(ledger)@, ledger@);
            }
            Ok(address)
        },
        None => Err(Error::NotInitialized),
    }
}

/// What the creation of the waste pit does to the ledger and hands back: it
/// needs an address for the pit and no pit yet, in this order.
pub open spec fn initialize_pit_result(
    before: LedgerView,
    authority: Pubkey,
    after: LedgerView,
    result: Result<RecordAddress, Error>,
) -> bool {
    match spec_record_address(spec_sacred_waste_pit_seeds(), before.program_id) {
        None => result == Err::<RecordAddress, Error>(Error::AddressNotFound) && after == before,
        Some(address) => if before.sacred_waste_pit is Some {
            result == Err::<RecordAddress, Error>(Error::AlreadyInitialized) && after == before
        } else {
            &&& result == Ok::<RecordAddress, Error>(address)
            &&& after == (LedgerView {
                sacred_waste_pit: Some(
                    (address.key, SacredWastePit { authority, total_burns: 0, bump: address.bump }),
                ),
                ..before
            })
        },
    }
}

/// Creates the waste pit, once: the caller becomes its authority. Hands back
/// the address of the pit.
pub fn initialize_pit(ledger: &mut Ledger, authority: Pubkey) -> (result: Result<
    RecordAddress,
    Error,
>)
    requires
        old(ledger).wf(),
    ensures
        final(ledger).wf(),
        initialize_pit_result(old(ledger)@, authority, final(ledger)@, result),
{
    let address = match find_record_address(&sacred_waste_pit_seeds(), &ledger.program_id) {
        Some(address) => address,
        None => {
            return Err(Error::AddressNotFound);
        },
    };
    if ledger.sacred_waste_pit.is_some() {
        return Err(Error::AlreadyInitialized);
    }
    let mut ctx = InitializePit {
        authority,
        sacred_waste_pit: None,
        bumps: InitializePitBumps { sacred_waste_pit: address.bump },
    };
    handler_init(&mut ctx);
    match ctx.sacred_waste_pit {
        Some(pit) => {
            ledger.sacred_waste_pit = Some((address.key, pit));
            Ok(address)
        },
        None => Err(Error::NotInitialized),
    }
}

/// What a change of the collection registry does to the ledger and hands
/// back, where `changed` is the registry after the change and `event` the
/// notification of it: the ledger must hold a registry, and the caller must
/// be its authority.
pub open spec fn admin_result<E>(
    before: LedgerView,
    authority: Pubkey,
    changed: spec_fn(CollectionConfig) -> CollectionConfig,
    event: spec_fn(CollectionConfig) -> E,
    after: LedgerView,
    result: Result<E, Error>,
) -> bool {
    match before.collection_config {
        None => result == Err::<E, Error>(Error::NotInitialized) && after == before,
        Some((_, config)) => if authority != config.authority {
            result == Err::<E, Error>(Error::Admin(AdminError::Unauthorized)) && after == before
        } else {
            result == Ok::<E, Error>(event(config)) && after == with_config(before, changed(config))
        },
    }
}

/// Links the waste pit `pit` to the collection. Only the registry's
/// authority may do so.
pub fn set_sacred_waste_pit(ledger: &mut Ledger, authority: Pubkey, pit: Pubkey) -> (result: Result<
    SacredWastePitUpdated,
    Error,
>)
    requires
        old(ledger).wf(),
    ensures
        final(ledger).wf(),
        admin_result(
            old(ledger)@,
            authority,
            |c: CollectionConfig| CollectionConfig { sacred_waste_pit: Some(pit), ..c },
            |c: CollectionConfig|
                SacredWastePitUpdated { old_pit: c.sacred_waste_pit, new_pit: Some(pit) },
            final(ledger)@,
            result,
        ),
{
    let (key, config) = match ledger.collection_config.take() {
        Some(held) => held,
        None => {
            return Err(Error::NotInitialized);
        },
    };
    let mut ctx = SetSacredWastePit { authority, collection_config: config };
    let outcome = handler_set_pit(&mut ctx, pit);
    ledger.collection_config = Some((key, ctx.collection_config));
    proof {
        lemma_wf_beside_pit(old(ledger)@, ledger@);
    }
    match outcome {
        Ok(event) => Ok(event),
        Err(error) => Err(Error::Admin(error)),
    }
}

/// Makes `treasury` the identity that receives premium fees. Only the
/// registry's authority may do so.
pub fn set_treasury(ledger: &mut Ledger, authority: Pubkey, treasury: Pubkey) -> (result: Result<
    TreasuryUpdated,
    Error,
>)
    requires
        old(ledger).wf(),
    ensures
        final(ledger).wf(),
        admin_result(
            old(ledger)@,
            authority,
            |c: CollectionConfig| CollectionConfig { treasury, ..c },
            |c: CollectionConfig| TreasuryUpdated { old_treasury: c.treasury, new_treasury: treasury },
            final(ledger)@,
            result,
        ),
{
    let (key, config) = match ledger.collection_config.take() {
        Some(held) => held,
        None => {
            return Err(Error::NotInitialized);
        },
    };
    let mut ctx = SetTreasury { authority, collection_config: config };
    let outcome = handler_set_treasury(&mut ctx, treasury);
    ledger.collection_config = Some((key, ctx.collection_config));
    proof {
        lemma_wf_beside_pit(old(ledger)@, ledger@);
    }
    match outcome {
        Ok(event) => Ok(event),
        Err(error) => Err(Error::Admin(error)),
    }
}

/// Makes `fee` the premium fee. Only the registry's authority may do so.
pub fn set_premium_fee(ledger: &mut Ledger, authority: Pubkey, fee: u64) -> (result: Result<
    PremiumFeeUpdated,
    Error,
>)
    requires
        old(ledger).wf(),
    ensures
        final(ledger).wf(),
        admin_result(
            old(ledger)@,
            authority,
            |c: CollectionConfig| CollectionConfig { premium_fee: fee, ..c },
            |c: CollectionConfig| PremiumFeeUpdated { old_fee: c.premium_fee, new_fee: fee },
            final(ledger)@,
            result,
        ),
{
    let (key, config) = match ledger.collection_config.take() {
        Some(held) => held,
        None => {
            return Err(Error::NotInitialized);
        },
    };
    let mut ctx = SetPremiumFee { authority, collection_config: config };
    let outcome = handler_set_premium_fee(&mut ctx, fee);
    ledger.collection_config = Some((key, ctx.collection_config));
    proof {
        lemma_wf_beside_pit(old(ledger)@, ledger@);
    }
    match outcome {
        Ok(event) => Ok(event),
        Err(error) => Err(Error::Admin(error)),
    }
}

/// Hands the registry over to `new_authority`. Only the registry's authority
/// may do so, and may change the registry no more afterwards.
pub fn transfer_authority(ledger: &mut Ledger, authority: Pubkey, new_authority: Pubkey) -> (result:
    Result<AuthorityTransferred, Error>)
    requires
        old(ledger).wf(),
    ensures
        final(ledger).wf(),
        admin_result(
            old(ledger)@,
            authority,
            |c: CollectionConfig| CollectionConfig { authority: new_authority, ..c },
            |c: CollectionConfig|
                AuthorityTransferred { old_authority: c.authority, new_authority },
            final(ledger)@,
            result,
        ),
{
    let (key, config) = match ledger.collection_config.take() {
        Some(held) => held,
        None => {
            return Err(Error::NotInitialized);
        },
    };
    let mut ctx = TransferAuthority { authority, collection_config: config, new_authority };
    let outcome = handler_transfer_authority(&mut ctx);
    ledger.collection_config = Some((key, ctx.collection_config));
    proof {
        lemma_wf_beside_pit(old(ledger)@, ledger@);
    }
    match outcome {
        Ok(event) => Ok(event),
        Err(error) => Err(Error::Admin(error)),
    }
}

/// What a mint does to the ledger and hands back: the ledger must hold a
/// registry, the registry must be named by its own address, and its counter
/// must be able to take one more.
pub open spec fn mint_result(
    before: LedgerView,
    accounts: MintAccounts,
    uri: String,
    premium: bool,
    after: LedgerView,
    result: Result<Receipt<ArtMinted>, Error>,
) -> bool {
    match before.collection_config {
        None => result == Err::<Receipt<ArtMinted>, Error>(Error::NotInitialized) && after
            == before,
        Some((key, config)) => if accounts.collection_config != key {
            result == Err::<Receipt<ArtMinted>, Error>(Error::AddressMismatch) && after == before
        } else if config.total_minted == u64::MAX {
            result == Err::<Receipt<ArtMinted>, Error>(Error::Mint(MintError::MathOverflow))
                && after == before
        } else {
            &&& result matches Ok(receipt)
            &&& after == with_config(before, config.minted())
            &&& receipt.event == (ArtMinted {
                token_id: config.total_minted,
                artist: accounts.minter,
                token_uri: uri,
                premium,
            })
            &&& calls_view(receipt.calls@) == spec_mint_requests(accounts, config, uri@, premium)
        },
    }
}

/// Plain mint: issues the next token of the collection to the caller. The
/// receipt lists the requests to the outside services.
pub fn mint(ledger: &mut Ledger, accounts: MintAccounts, uri: String) -> (result: Result<
    Receipt<ArtMinted>,
    Error,
>)
    requires
        old(ledger).wf(),
        byte_len(uri@) <= u32::MAX,
    ensures
        final(ledger).wf(),
        mint_result(old(ledger)@, accounts, uri, false, final(ledger)@, result),
{
    match &ledger.collection_config {
        None => {
            return Err(Error::NotInitialized);
        },
        Some((key, _)) => {
            if accounts.collection_config != *key {
                return Err(Error::AddressMismatch);
            }
        },
    }
    let (key, config) = ledger.collection_config.take().unwrap();
    let mut ctx = MintNft { accounts, collection_config: config };
    let outcome = crate::instructions::mint::handler(&mut ctx, uri);
    ledger.collection_config = Some((key, ctx.collection_config));
    proof {
        lemma_wf_beside_pit(old(ledger)@, ledger@);
    }
    match outcome {
        Ok(receipt) => Ok(receipt),
        Err(error) => Err(Error::Mint(error)),
    }
}

/// Premium mint: as the plain mint, with the transfer of the configured fee
/// to the treasury as the first request of the receipt.
pub fn mint_with_premium(ledger: &mut Ledger, accounts: MintAccounts, uri: String) -> (result:
    Result<Receipt<ArtMinted>, Error>)
    requires
        old(ledger).wf(),
        byte_len(uri@) <= u32::MAX,
    ensures
        final(ledger).wf(),
        mint_result(old(ledger)@, accounts, uri, true, final(ledger)@, result),
{
    match &ledger.collection_config {
        None => {
            return Err(Error::NotInitialized);
        },
        Some((key, _)) => {
            if accounts.collection_config != *key {
                return Err(Error::AddressMismatch);
            }
        },
    }
    let (key, config) = ledger.collection_config.take().unwrap();
    let mut ctx = MintNftWithPremium { accounts, collection_config: config };
    let outcome = crate::instructions::mint::handler_with_premium(&mut ctx, uri);
    ledger.collection_config = Some((key, ctx.collection_config));
    proof {
        lemma_wf_beside_pit(old(ledger)@, ledger@);
    }
    match outcome {
        Ok(receipt) => Ok(receipt),
        Err(error) => Err(Error::Mint(error)),
    }
}

/// Why a direct burn is refused, if it is: the first of the conditions that
/// fails, in the order registry, ownership, address of the burn record, no
/// burn record of the token yet, counter.
pub open spec fn spec_burn_refusal(
    before: LedgerView,
    burner: Pubkey,
    mint: Pubkey,
    token_account: TokenAccount,
) -> Option<Error> {
    match before.collection_config {
        None => Some(Error::NotInitialized),
        Some((_, config)) => if !spec_holds_one(token_account, burner, mint) {
            Some(Error::Burn(BurnError::NotOwner))
        } else {
            match spec_record_address(spec_burned_art_seeds(mint@), before.program_id) {
                None => Some(Error::AddressNotFound),
                Some(address) => if before.burned_art.contains_key(address.key) {
                    Some(Error::AlreadyInitialized)
                } else if config.total_burned == u64::MAX {
                    Some(Error::Burn(BurnError::MathOverflow))
                } else {
                    None
                },
            }
        },
    }
}

/// What a direct burn does to the ledger and hands back.
pub open spec fn burn_result(
    before: LedgerView,
    burner: Pubkey,
    mint: Pubkey,
    token_account: TokenAccount,
    now: i64,
    after: LedgerView,
    result: Result<Receipt<ArtBurned>, Error>,
) -> bool {
    match spec_burn_refusal(before, burner, mint, token_account) {
        Some(error) => result == Err::<Receipt<ArtBurned>, Error>(error) && after == before,
        None => {
            let address = spec_record_address(
                spec_burned_art_seeds(mint@),
                before.program_id,
            )->Some_0;
            &&& result matches Ok(receipt)
            &&& after.burned_art.contains_key(address.key)
            &&& is_burned_art(after.burned_art[address.key], burner, mint, now, address.bump)
            &&& after == (LedgerView {
                collection_config: Some(
                    (before.collection_config->Some_0.0, before.collection_config->Some_0.1.burned()),
                ),
                burned_art: before.burned_art.insert(address.key, after.burned_art[address.key]),
                ..before
            })
            &&& receipt.event.artist == burner
            &&& receipt.event.token_uri@ == spec_burned_uri()
            &&& receipt.event.mint == mint
            &&& calls_view(receipt.calls@) == spec_burn_calls(burner, mint, token_account)
        },
    }
}

/// Direct burn: destroys the caller's unit of the token `mint` and puts the
/// burn record under the address of the token. The receipt lists the
/// requests to the token-balance service.
pub fn burn(
    ledger: &mut Ledger,
    burner: Pubkey,
    mint: Pubkey,
    token_account: TokenAccount,
    now: i64,
) -> (result: Result<Receipt<ArtBurned>, Error>)
    requires
        old(ledger).wf(),
    ensures
        final(ledger).wf(),
        burn_result(old(ledger)@, burner, mint, token_account, now, final(ledger)@, result),
{
    if ledger.collection_config.is_none() {
        return Err(Error::NotInitialized);
    }
    if !holds_one(&token_account, &burner, &mint) {
        return Err(Error::Burn(BurnError::NotOwner));
    }
    let address = match find_record_address(&burned_art_seeds(&mint), &ledger.program_id) {
        Some(address) => address,
        None => {
            return Err(Error::AddressNotFound);
        },
    };
    if ledger.burned_art.contains(&address.key) {
        return Err(Error::AlreadyInitialized);
    }
    let (key, config) = ledger.collection_config.take().unwrap();
    let mut ctx = BurnNft {
        burner,
        collection_config: config,
        mint,
        token_account,
        burned_art: None,
        bumps: BurnNftBumps { burned_art: address.bump },
    };
    let outcome = crate::instructions::burn::handler(&mut ctx, now);
    ledger.collection_config = Some((key, ctx.collection_config));
    match outcome {
        Ok(receipt) => {
            match ctx.burned_art {
                Some(record) => {
                    ledger.burned_art.insert(address.key, record);
                },
                None => {},
            }
            proof {
                lemma_wf_beside_pit(old(ledger)@, ledger@);
            }
            Ok(receipt)
        },
        Err(error) => {
            proof {
                lemma_wf_beside_pit(old(ledger)@, ledger@);
            }
            Err(Error::Burn(error))
        },
    }
}

/// The addresses that a burn into the pit or a deposit needs: that of the
/// pit burn record with the pit's next sequence number, and that of the
/// burner's statistics.
pub open spec fn spec_deposit_addresses(before: LedgerView, burner: Pubkey) -> Option<
    (RecordAddress, RecordAddress),
> {
    match (
        spec_record_address(spec_pit_burn_seeds(before.total_burns()), before.program_id),
        spec_record_address(spec_burner_stats_seeds(burner@), before.program_id),
    ) {
        (Some(record), Some(stats)) => Some((record, stats)),
        _ => None,
    }
}

/// Why a burn into the pit is refused, if it is: the first of the
/// conditions that fails, in the order registry, pit link, pit, ownership,
/// addresses of the records, no such records yet, counters.
pub open spec fn spec_burn_to_waste_refusal(
    before: LedgerView,
    burner: Pubkey,
    mint: Pubkey,
    token_account: TokenAccount,
) -> Option<Error> {
    match before.collection_config {
        None => Some(Error::NotInitialized),
        Some((_, config)) => if config.sacred_waste_pit is None {
            Some(Error::Burn(BurnError::PitNotConfigured))
        } else if before.sacred_waste_pit is None {
            Some(Error::NotInitialized)
        } else if !spec_holds_one(token_account, burner, mint) {
            Some(Error::Burn(BurnError::NotOwner))
        } else {
            match (
                spec_record_address(spec_burned_art_seeds(mint@), before.program_id),
                spec_deposit_addresses(before, burner),
            ) {
                (Some(art), Some((record, stats))) => if before.burned_art.contains_key(art.key)
                    || before.pit_burn_records.contains_key(record.key) {
                    Some(Error::AlreadyInitialized)
                } else if spec_stats_full(lookup(before.burner_stats, stats.key))
                    || config.total_burned == u64::MAX || before.total_burns() == u64::MAX {
                    Some(Error::Burn(BurnError::MathOverflow))
                } else {
                    None
                },
                _ => Some(Error::AddressNotFound),
            }
        },
    }
}

/// What a burn into the pit does to the ledger and hands back.
pub open spec fn burn_to_waste_result(
    before: LedgerView,
    burner: Pubkey,
    mint: Pubkey,
    token_account: TokenAccount,
    now: i64,
    after: LedgerView,
    result: Result<Receipt<BurnedToSacredWaste>, Error>,
) -> bool {
    match spec_burn_to_waste_refusal(before, burner, mint, token_account) {
        Some(error) => result == Err::<Receipt<BurnedToSacredWaste>, Error>(error) && after
            == before,
        None => {
            let art = spec_record_address(spec_burned_art_seeds(mint@), before.program_id)->Some_0;
            let (record, stats) = spec_deposit_addresses(before, burner)->Some_0;
            &&& result matches Ok(receipt)
            &&& after.burned_art.contains_key(art.key)
            &&& is_burned_art(after.burned_art[art.key], burner, mint, now, art.bump)
            &&& after.pit_burn_records.contains_key(record.key)
            &&& is_pit_burn_record(
                after.pit_burn_records[record.key],
                burner,
                spec_burned_uri(),
                now,
                before.total_burns(),
                record.bump,
            )
            &&& after == (LedgerView {
                collection_config: Some(
                    (before.collection_config->Some_0.0, before.collection_config->Some_0.1.burned()),
                ),
                sacred_waste_pit: Some(
                    (
                        before.sacred_waste_pit->Some_0.0,
                        before.sacred_waste_pit->Some_0.1.deposited(),
                    ),
                ),
                burned_art: before.burned_art.insert(art.key, after.burned_art[art.key]),
                pit_burn_records: before.pit_burn_records.insert(
                    record.key,
                    after.pit_burn_records[record.key],
                ),
                burner_stats: before.burner_stats.insert(
                    stats.key,
                    spec_stats_after(lookup(before.burner_stats, stats.key), burner, stats.bump),
                ),
                ..before
            })
            &&& receipt.event == (BurnedToSacredWaste {
                artist: burner,
                burn_id: before.total_burns(),
                mint,
            })
            &&& calls_view(receipt.calls@) == spec_burn_calls(burner, mint, token_account)
        },
    }
}

/// Burn into the waste pit: destroys the caller's unit of the token `mint`,
/// puts the burn record under the address of the token and the pit burn
/// record under the address of the pit's next sequence number, and counts
/// the burn for the caller. The receipt lists the requests to the
/// token-balance service.
pub fn burn_to_waste(
    ledger: &mut Ledger,
    burner: Pubkey,
    mint: Pubkey,
    token_account: TokenAccount,
    now: i64,
) -> (result: Result<Receipt<BurnedToSacredWaste>, Error>)
    requires
        old(ledger).wf(),
    ensures
        final(ledger).wf(),
        burn_to_waste_result(
            old(ledger)@,
            burner,
            mint,
            token_account,
            now,
            final(ledger)@,
            result,
        ),
{
    match &ledger.collection_config {
        None => {
            return Err(Error::NotInitialized);
        },
        Some((_, config)) => {
            if config.sacred_waste_pit.is_none() {
                return Err(Error::Burn(BurnError::PitNotConfigured));
            }
        },
    }
    let (pit_key, pit) = match ledger.sacred_waste_pit {
        Some(held) => held,
        None => {
            return Err(Error::NotInitialized);
        },
    };
    if !holds_one(&token_account, &burner, &mint) {
        return Err(Error::Burn(BurnError::NotOwner));
    }
    let art = find_record_address(&burned_art_seeds(&mint), &ledger.program_id);
    let record = find_record_address(&pit_burn_seeds(pit.total_burns), &ledger.program_id);
    let stats = find_record_address(&burner_stats_seeds(&burner), &ledger.program_id);
    let (art, record, stats) = match (art, record, stats) {
        (Some(art), Some(record), Some(stats)) => (art, record, stats),
        _ => {
            return Err(Error::AddressNotFound);
        },
    };
    if ledger.burned_art.contains(&art.key) || ledger.pit_burn_records.contains(&record.key) {
        return Err(Error::AlreadyInitialized);
    }
    let burner_stats = match ledger.burner_stats.get(&stats.key) {
        Some(held) => Some(*held),
        None => None,
    };
    let (key, config) = ledger.collection_config.take().unwrap();
    let mut ctx = BurnToWaste {
        burner,
        collection_config: config,
        sacred_waste_pit: pit,
        mint,
        token_account,
        burned_art: None,
        pit_burn_record: None,
        burner_stats,
        bumps: BurnToWasteBumps {
            burned_art: art.bump,
            pit_burn_record: record.bump,
            burner_stats: stats.bump,
        },
    };
    let outcome = crate::instructions::burn::handler_to_waste(&mut ctx, now);
    ledger.collection_config = Some((key, ctx.collection_config));
    match outcome {
        Ok(receipt) => {
            ledger.sacred_waste_pit = Some((pit_key, ctx.sacred_waste_pit));
            match (ctx.burned_art, ctx.pit_burn_record, ctx.burner_stats) {
                (Some(burned), Some(deposited), Some(counted)) => {
                    let ghost kept = deposited;
                    ledger.burned_art.insert(art.key, burned);
                    ledger.pit_burn_records.insert(record.key, deposited);
                    ledger.burner_stats.insert(stats.key, counted);
                    proof {
                        lemma_wf_after_deposit(old(ledger)@, ledger@, record, kept);
                    }
                },
                _ => {},
            }
            Ok(receipt)
        },
        Err(error) => {
            proof {
                lemma_wf_beside_pit(old(ledger)@, ledger@);
            }
            Err(Error::Burn(error))
        },
    }
}

/// Why a deposit is refused, if it is: the first of the conditions that
/// fails, in the order pit, allow-list, addresses of the records, no such
/// pit burn record yet, length of the metadata, counters.
pub open spec fn spec_deposit_burn_refusal(
    before: LedgerView,
    caller: Pubkey,
    burner: Pubkey,
    metadata: Seq<char>,
) -> Option<Error> {
    if before.sacred_waste_pit is None {
        Some(Error::NotInitialized)
    } else if !spec_may_deposit(before.entry_of(caller), caller) {
        Some(Error::Pit(PitError::Unauthorized))
    } else {
        match spec_deposit_addresses(before, burner) {
            None => Some(Error::AddressNotFound),
            Some((record, stats)) => if before.pit_burn_records.contains_key(record.key) {
                Some(Error::AlreadyInitialized)
            } else if byte_len(metadata) > PitBurnRecord::MAX_METADATA_LEN {
                Some(Error::Pit(PitError::MetadataTooLong))
            } else if spec_stats_full(lookup(before.burner_stats, stats.key))
                || before.total_burns() == u64::MAX {
                Some(Error::Pit(PitError::MathOverflow))
            } else {
                None
            },
        }
    }
}

/// What a deposit does to the ledger and hands back.
pub open spec fn deposit_burn_result(
    before: LedgerView,
    caller: Pubkey,
    burner: Pubkey,
    metadata: Seq<char>,
    now: i64,
    after: LedgerView,
    result: Result<BurnDeposited, Error>,
) -> bool {
    match spec_deposit_burn_refusal(before, caller, burner, metadata) {
        Some(error) => result == Err::<BurnDeposited, Error>(error) && after == before,
        None => {
            let (record, stats) = spec_deposit_addresses(before, burner)->Some_0;
            &&& result == Ok::<BurnDeposited, Error>(
                BurnDeposited { burn_id: before.total_burns(), burner, timestamp: now },
            )
            &&& after.pit_burn_records.contains_key(record.key)
            &&& is_pit_burn_record(
                after.pit_burn_records[record.key],
                burner,
                metadata,
                now,
                before.total_burns(),
                record.bump,
            )
            &&& after == (LedgerView {
                sacred_waste_pit: Some(
                    (
                        before.sacred_waste_pit->Some_0.0,
                        before.sacred_waste_pit->Some_0.1.deposited(),
                    ),
                ),
                pit_burn_records: before.pit_burn_records.insert(
                    record.key,
                    after.pit_burn_records[record.key],
                ),
                burner_stats: before.burner_stats.insert(
                    stats.key,
                    spec_stats_after(lookup(before.burner_stats, stats.key), burner, stats.bump),
                ),
                ..before
            })
        },
    }
}

/// Deposit: records in the pit a burn that the caller performed elsewhere,
/// to the credit of `burner`. The caller must be on the pit's allow-list.
/// The pit burn record goes under the address of the pit's next sequence
/// number.
pub fn deposit_burn(
    ledger: &mut Ledger,
    caller: Pubkey,
    burner: Pubkey,
    metadata: String,
    now: i64,
) -> (result: Result<BurnDeposited, Error>)
    requires
        old(ledger).wf(),
    ensures
        final(ledger).wf(),
        deposit_burn_result(old(ledger)@, caller, burner, metadata@, now, final(ledger)@, result),
{
    let (pit_key, pit) = match ledger.sacred_waste_pit {
        Some(held) => held,
        None => {
            return Err(Error::NotInitialized);
        },
    };
    let entry = ledger.entry_of(&caller);
    if !may_deposit(&entry, &caller) {
        return Err(Error::Pit(PitError::Unauthorized));
    }
    let record = find_record_address(&pit_burn_seeds(pit.total_burns), &ledger.program_id);
    let stats = find_record_address(&burner_stats_seeds(&burner), &ledger.program_id);
    let (record, stats) = match (record, stats) {
        (Some(record), Some(stats)) => (record, stats),
        _ => {
            return Err(Error::AddressNotFound);
        },
    };
    if ledger.pit_burn_records.contains(&record.key) {
        return Err(Error::AlreadyInitialized);
    }
    let burner_stats = match ledger.burner_stats.get(&stats.key) {
        Some(held) => Some(*held),
        None => None,
    };
    let mut ctx = DepositBurn {
        caller,
        sacred_waste_pit: pit,
        authorized_program: entry,
        pit_burn_record: None,
        burner_stats,
        bumps: DepositBurnBumps { pit_burn_record: record.bump, burner_stats: stats.bump },
    };
    match handler_deposit(&mut ctx, burner, metadata, now) {
        Ok(event) => {
            ledger.sacred_waste_pit = Some((pit_key, ctx.sacred_waste_pit));
            match (ctx.pit_burn_record, ctx.burner_stats) {
                (Some(deposited), Some(counted)) => {
                    let ghost kept = deposited;
                    ledger.pit_burn_records.insert(record.key, deposited);
                    ledger.burner_stats.insert(stats.key, counted);
                    proof {
                        lemma_wf_after_deposit(old(ledger)@, ledger@, record, kept);
                    }
                },
                _ => {},
            }
            Ok(event)
        },
        Err(error) => Err(Error::Pit(error)),
    }
}

/// What an authorization does to the ledger and hands back: the ledger must
/// hold a pit, the caller must be the pit's authority, and the entry needs
/// an address, in this order. The entry is created, or replaced where there
/// is one already.
pub open spec fn authorize_program_result(
    before: LedgerView,
    authority: Pubkey,
    program_to_authorize: Pubkey,
    is_authorized: bool,
    after: LedgerView,
    result: Result<(), Error>,
) -> bool {
    match before.sacred_waste_pit {
        None => result == Err::<(), Error>(Error::NotInitialized) && after == before,
        Some((_, pit)) => if authority != pit.authority {
            result == Err::<(), Error>(Error::Pit(PitError::Unauthorized)) && after == before
        } else {
            match spec_record_address(
                spec_authorized_program_seeds(program_to_authorize@),
                before.program_id,
            ) {
                None => result == Err::<(), Error>(Error::AddressNotFound) && after == before,
                Some(address) => {
                    &&& result == Ok::<(), Error>(())
                    &&& after == (LedgerView {
                        authorized_programs: before.authorized_programs.insert(
                            address.key,
                            AuthorizedProgram {
                                program_id: program_to_authorize,
                                is_authorized,
                                bump: address.bump,
                            },
                        ),
                        ..before
                    })
                },
            }
        },
    }
}

/// Authorization: puts a caller on the pit's allow-list, or switches its
/// entry on or off. Only the pit's authority may do so.
pub fn authorize_program(
    ledger: &mut Ledger,
    authority: Pubkey,
    program_to_authorize: Pubkey,
    is_authorized: bool,
) -> (result: Result<(), Error>)
    requires
        old(ledger).wf(),
    ensures
        final(ledger).wf(),
        authorize_program_result(
            old(ledger)@,
            authority,
            program_to_authorize,
            is_authorized,
            final(ledger)@,
            result,
        ),
{
    let (_, pit) = match ledger.sacred_waste_pit {
        Some(held) => held,
        None => {
            return Err(Error::NotInitialized);
        },
    };
    if authority != pit.authority {
        return Err(Error::Pit(PitError::Unauthorized));
    }
    let address = match find_record_address(
        &authorized_program_seeds(&program_to_authorize),
        &ledger.program_id,
    ) {
        Some(address) => address,
        None => {
            return Err(Error::AddressNotFound);
        },
    };
    let mut ctx = AuthorizeProgram {
        authority,
        sacred_waste_pit: pit,
        program_to_authorize,
        authorized_program: None,
        bumps: AuthorizeProgramBumps { authorized_program: address.bump },
    };
    match handler_authorize(&mut ctx, is_authorized) {
        Ok(()) => {
            match ctx.authorized_program {
                Some(entry) => {
                    ledger.authorized_programs.insert(address.key, entry);
                },
                None => {},
            }
            proof {
                lemma_wf_beside_pit(old(ledger)@, ledger@);
            }
            Ok(())
        },
        Err(error) => Err(Error::Pit(error)),
    }
}

} // verus!
