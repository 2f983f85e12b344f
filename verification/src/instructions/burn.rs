//! Destruction: the direct burn, and the burn into the waste pit.

use vstd::prelude::*;
use vstd::string::StringExecFns;
use crate::pubkey::Pubkey;
use crate::service::{calls_view, Receipt, ServiceCall, ServiceCallView};
use crate::state::{BurnedArt, BurnerStats, CollectionConfig, PitBurnRecord, SacredWastePit};

verus! {

/// What this library reads of a token account of the token-balance service.
#[derive(Clone, Copy, Debug, PartialEq, Eq)]
pub struct TokenAccount {
    /// Address of the token account.
    pub key: Pubkey,
    /// The token that it holds units of.
    pub mint: Pubkey,
    /// The identity that it belongs to.
    pub owner: Pubkey,
    /// Units that it holds.
    pub amount: u64,
}

/// Disambiguation bytes of the records that a direct burn creates.
#[derive(Clone, Copy, Debug, PartialEq, Eq)]
pub struct BurnNftBumps {
    pub burned_art: u8,
}

/// What a direct burn works on.
#[derive(Clone, Debug)]
pub struct BurnNft {
    /// The caller.
    pub burner: Pubkey,
    pub collection_config: CollectionConfig,
    /// The token to burn.
    pub mint: Pubkey,
    /// The token account that the unit is burned from.
    pub token_account: TokenAccount,
    /// Where the burn record is put; what was there is not read.
    pub burned_art: Option<BurnedArt>,
    pub bumps: BurnNftBumps,
}

/// Disambiguation bytes of the records that a burn into the pit creates.
#[derive(Clone, Copy, Debug, PartialEq, Eq)]
pub struct BurnToWasteBumps {
    pub burned_art: u8,
    pub pit_burn_record: u8,
    pub burner_stats: u8,
}

/// What a burn into the waste pit works on.
#[derive(Clone, Debug)]
pub struct BurnToWaste {
    /// The caller.
    pub burner: Pubkey,
    pub collection_config: CollectionConfig,
    pub sacred_waste_pit: SacredWastePit,
    /// The token to burn.
    pub mint: Pubkey,
    /// The token account that the unit is burned from.
    pub token_account: TokenAccount,
    /// Where the burn record is put; what was there is not read.
    pub burned_art: Option<BurnedArt>,
    /// Where the pit burn record is put; what was there is not read.
    pub pit_burn_record: Option<PitBurnRecord>,
    /// The caller's statistics, if the caller has burned into the pit before.
    pub burner_stats: Option<BurnerStats>,
    pub bumps: BurnToWasteBumps,
}

/// Notification of a direct burn.
#[derive(Clone, Debug, PartialEq, Eq)]
pub struct ArtBurned {
    pub artist: Pubkey,
    pub token_uri: String,
    pub mint: Pubkey,
}

/// Notification of a burn into the waste pit.
#[derive(Clone, Copy, Debug, PartialEq, Eq)]
pub struct BurnedToSacredWaste {
    pub artist: Pubkey,
    /// Sequence number of the burn in the pit.
    pub burn_id: u64,
    pub mint: Pubkey,
}

/// Why a burn was refused.
#[derive(Clone, Copy, Debug, PartialEq, Eq, Structural)]
pub enum BurnError {
    /// The caller does not hold exactly one unit of the token.
    NotOwner,
    /// The collection has no waste pit linked.
    PitNotConfigured,
    /// A counter cannot take one more.
    MathOverflow,
}

/// The URI that burn records carry.
pub open spec fn spec_burned_uri() -> Seq<char> {
    "ipfs://burned"@
}

/// The URI that burn records carry.
pub fn burned_uri() -> (uri: String)
    ensures
        uri@ == spec_burned_uri(),
{
    String::from_str("ipfs://burned")
}

/// Whether the token account is the caller's account for the token and holds
/// exactly one unit of it.
pub open spec fn spec_holds_one(account: TokenAccount, owner: Pubkey, mint: Pubkey) -> bool {
    &&& account.owner == owner
    &&& account.mint == mint
    &&& account.amount == 1
}

/// Whether the token account is the caller's account for the token and holds
/// exactly one unit of it.
pub fn holds_one(account: &TokenAccount, owner: &Pubkey, mint: &Pubkey) -> (held: bool)
    ensures
        held == spec_holds_one(*account, *owner, *mint),
{
    account.owner == *owner && account.mint == *mint && account.amount == 1
}

/// The requests that destroy the caller's unit: burn it, then close the
/// emptied token account, whose storage deposit goes back to the caller.
pub open spec fn spec_burn_calls(burner: Pubkey, mint: Pubkey, account: TokenAccount) -> Seq<
    ServiceCallView,
> {
    seq![
        ServiceCallView::Burn { mint, from: account.key, authority: burner, amount: 1 },
        ServiceCallView::CloseAccount {
            account: account.key,
            destination: burner,
            authority: burner,
        },
    ]
}

fn burn_calls(burner: &Pubkey, mint: &Pubkey, account: &TokenAccount) -> (calls: Vec<ServiceCall>)
    ensures
        calls_view(calls@) == spec_burn_calls(*burner, *mint, *account),
{
    let mut calls: Vec<ServiceCall> = Vec::new();
    calls.push(ServiceCall::Burn { mint: *mint, from: account.key, authority: *burner, amount: 1 });
    calls.push(
        ServiceCall::CloseAccount {
            account: account.key,
            destination: *burner,
            authority: *burner,
        },
    );
    assert(calls_view(calls@) =~= spec_burn_calls(*burner, *mint, *account));
    calls
}

/// The burn record of a token burned by `burner` at the time `now`.
pub open spec fn is_burned_art(record: BurnedArt, burner: Pubkey, mint: Pubkey, now: i64, bump: u8) -> bool {
    &&& record.artist == burner
    &&& record.token_uri@ == spec_burned_uri()
    &&& record.burned_at == now
    &&& record.original_mint == mint
    &&& record.bump == bump
}

/// The statistics of a burner after one more burn: a count of one where there
/// were none, the count before plus one otherwise.
pub open spec fn spec_stats_after(before: Option<BurnerStats>, burner: Pubkey, bump: u8) -> BurnerStats {
    match before {
        Some(stats) => BurnerStats { burn_count: (stats.burn_count + 1) as u64, ..stats },
        None => BurnerStats { burner, burn_count: 1, bump },
    }
}

/// Whether the statistics of a burner can take one more burn.
pub open spec fn spec_stats_full(before: Option<BurnerStats>) -> bool {
    before matches Some(stats) && stats.burn_count == u64::MAX
}

/// Counts one more burn in the statistics of `burner`, which are created on
/// the first burn.
pub fn count_burn(before: &Option<BurnerStats>, burner: &Pubkey, bump: u8) -> (after: Option<
    BurnerStats,
>)
    ensures
        spec_stats_full(*before) ==> after is None,
        !spec_stats_full(*before) ==> after == Some(spec_stats_after(*before, *burner, bump)),
{
    match before {
        Some(stats) => match stats.burn_count.checked_add(1) {
            Some(count) => Some(
                BurnerStats { burner: stats.burner, burn_count: count, bump: stats.bump },
            ),
            None => None,
        },
        None => Some(BurnerStats { burner: *burner, burn_count: 1, bump }),
    }
}

/// What a direct burn does and hands back.
pub open spec fn burn_outcome(
    before: BurnNft,
    now: i64,
    after: BurnNft,
    result: Result<Receipt<ArtBurned>, BurnError>,
) -> bool {
    if !spec_holds_one(before.token_account, before.burner, before.mint) {
        &&& result == Err::<Receipt<ArtBurned>, BurnError>(BurnError::NotOwner)
        &&& after == before
    } else if before.collection_config.total_burned == u64::MAX {
        &&& result == Err::<Receipt<ArtBurned>, BurnError>(BurnError::MathOverflow)
        &&& after == before
    } else {
        &&& result matches Ok(receipt)
        &&& after.burner == before.burner
        &&& after.mint == before.mint
        &&& after.token_account == before.token_account
        &&& after.bumps == before.bumps
        &&& after.collection_config == before.collection_config.burned()
        &&& after.burned_art matches Some(record)
        &&& is_burned_art(record, before.burner, before.mint, now, before.bumps.burned_art)
        &&& receipt.event.artist == before.burner
        &&& receipt.event.token_uri@ == spec_burned_uri()
        &&& receipt.event.mint == before.mint
        &&& calls_view(receipt.calls@) == spec_burn_calls(
            before.burner,
            before.mint,
            before.token_account,
        )
    }
}

/// Direct burn: destroys the caller's unit of a token and records the burn.
///
/// The caller must hold exactly one unit of the token. The burn record names
/// the caller, the token and the time `now`, and the counter of destroyed
/// tokens goes up by one. The receipt lists the requests to the token-balance
/// service; the burn stands once both were carried out, see
/// [`crate::service::settle`]. Where the burn is refused nothing changes.
pub fn handler(ctx: &mut BurnNft, now: i64) -> (result: Result<Receipt<ArtBurned>, BurnError>)
    ensures
        burn_outcome(*old(ctx), now, *final(ctx), result),
{
    if !holds_one(&ctx.token_account, &ctx.burner, &ctx.mint) {
        return Err(BurnError::NotOwner);
    }
    let total_burned = match ctx.collection_config.total_burned.checked_add(1) {
        Some(total) => total,
        None => {
            return Err(BurnError::MathOverflow);
        },
    };
    ctx.burned_art = Some(
        BurnedArt {
            artist: ctx.burner,
            token_uri: burned_uri(),
            burned_at: now,
            original_mint: ctx.mint,
            bump: ctx.bumps.burned_art,
        },
    );
    ctx.collection_config.total_burned = total_burned;
    Ok(
        Receipt {
            calls: burn_calls(&ctx.burner, &ctx.mint, &ctx.token_account),
            event: ArtBurned { artist: ctx.burner, token_uri: burned_uri(), mint: ctx.mint },
        },
    )
}

/// The pit burn record of a burn with sequence number `burn_id`.
pub open spec fn is_pit_burn_record(
    record: PitBurnRecord,
    burner: Pubkey,
    metadata: Seq<char>,
    now: i64,
    burn_id: u64,
    bump: u8,
) -> bool {
    &&& record.burner == burner
    &&& record.metadata@ == metadata
    &&& record.timestamp == now
    &&& record.burn_id == burn_id
    &&& record.bump == bump
}

/// Why a burn into the pit is refused, if it is: the first of the conditions
/// that fails, in the order pit link, ownership, the three counters.
pub open spec fn spec_waste_refusal(before: BurnToWaste) -> Option<BurnError> {
    if before.collection_config.sacred_waste_pit is None {
        Some(BurnError::PitNotConfigured)
    } else if !spec_holds_one(before.token_account, before.burner, before.mint) {
        Some(BurnError::NotOwner)
    } else if spec_stats_full(before.burner_stats) || before.collection_config.total_burned
        == u64::MAX || before.sacred_waste_pit.total_burns == u64::MAX {
        Some(BurnError::MathOverflow)
    } else {
        None
    }
}

/// What a burn into the pit does and hands back.
pub open spec fn waste_outcome(
    before: BurnToWaste,
    now: i64,
    after: BurnToWaste,
    result: Result<Receipt<BurnedToSacredWaste>, BurnError>,
) -> bool {
    match spec_waste_refusal(before) {
        Some(error) => {
            &&& result == Err::<Receipt<BurnedToSacredWaste>, BurnError>(error)
            &&& after == before
        },
        None => {
            &&& result matches Ok(receipt)
            &&& after.burner == before.burner
            &&& after.mint == before.mint
            &&& after.token_account == before.token_account
            &&& after.bumps == before.bumps
            &&& after.collection_config == before.collection_config.burned()
            &&& after.sacred_waste_pit == before.sacred_waste_pit.deposited()
            &&& after.burned_art matches Some(art)
            &&& is_burned_art(art, before.burner, before.mint, now, before.bumps.burned_art)
            &&& after.pit_burn_record matches Some(record)
            &&& is_pit_burn_record(
                record,
                before.burner,
                spec_burned_uri(),
                now,
                before.sacred_waste_pit.total_burns,
                before.bumps.pit_burn_record,
            )
            &&& after.burner_stats == Some(
                spec_stats_after(before.burner_stats, before.burner, before.bumps.burner_stats),
            )
            &&& receipt.event == (BurnedToSacredWaste {
                artist: before.burner,
                burn_id: before.sacred_waste_pit.total_burns,
                mint: before.mint,
            })
            &&& calls_view(receipt.calls@) == spec_burn_calls(
                before.burner,
                before.mint,
                before.token_account,
            )
        },
    }
}

/// Burn into the waste pit: destroys the caller's unit of a token, records
/// the burn, and archives it in the pit.
///
/// The collection must have a pit linked, whatever the caller holds, and the
/// caller must hold exactly one unit of the token. The pit burn record takes
/// the sequence number that the pit had before this burn; the caller's
/// statistics, the counter of destroyed tokens and the pit's counter each go
/// up by one. The receipt lists the requests to the token-balance service;
/// the burn stands once both were carried out, see
/// [`crate::service::settle`]. Where the burn is refused nothing changes.
pub fn handler_to_waste(ctx: &mut BurnToWaste, now: i64) -> (result: Result<
    Receipt<BurnedToSacredWaste>,
    BurnError,
>)
    ensures
        waste_outcome(*old(ctx), now, *final(ctx), result),
{
    if ctx.collection_config.sacred_waste_pit.is_none() {
        return Err(BurnError::PitNotConfigured);
    }
    if !holds_one(&ctx.token_account, &ctx.burner, &ctx.mint) {
        return Err(BurnError::NotOwner);
    }
    let burn_id = ctx.sacred_waste_pit.total_burns;
    let stats = match count_burn(&ctx.burner_stats, &ctx.burner, ctx.bumps.burner_stats) {
        Some(stats) => stats,
        None => {
            return Err(BurnError::MathOverflow);
        },
    };
    let total_burned = match ctx.collection_config.total_burned.checked_add(1) {
        Some(total) => total,
        None => {
            return Err(BurnError::MathOverflow);
        },
    };
    let total_burns = match burn_id.checked_add(1) {
        Some(total) => total,
        None => {
            return Err(BurnError::MathOverflow);
        },
    };
    ctx.burned_art = Some(
        BurnedArt {
            artist: ctx.burner,
            token_uri: burned_uri(),
            burned_at: now,
            original_mint: ctx.mint,
            bump: ctx.bumps.burned_art,
        },
    );
    ctx.pit_burn_record = Some(
        PitBurnRecord {
            burner: ctx.burner,
            metadata: burned_uri(),
            timestamp: now,
            burn_id,
            bump: ctx.bumps.pit_burn_record,
        },
    );
    ctx.burner_stats = Some(stats);
    ctx.collection_config.total_burned = total_burned;
    ctx.sacred_waste_pit.total_burns = total_burns;
    Ok(
        Receipt {
            calls: burn_calls(&ctx.burner, &ctx.mint, &ctx.token_account),
            event: BurnedToSacredWaste { artist: ctx.burner, burn_id, mint: ctx.mint },
        },
    )
}

} // verus!
