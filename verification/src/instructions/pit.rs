//! The waste pit: its creation, the deposits of authorized callers, and its
//! allow-list.

use vstd::prelude::*;
use crate::instructions::burn::{count_burn, is_pit_burn_record, spec_stats_after, spec_stats_full};
use crate::pubkey::Pubkey;
use crate::state::{AuthorizedProgram, BurnerStats, PitBurnRecord, SacredWastePit};
use crate::text::{byte_len, byte_length};

verus! {

/// Disambiguation bytes of the records that the creation of the pit creates.
#[derive(Clone, Copy, Debug, PartialEq, Eq)]
pub struct InitializePitBumps {
    pub sacred_waste_pit: u8,
}

/// What the creation of the pit works on.
#[derive(Clone, Debug)]
pub struct InitializePit {
    /// The caller, who becomes the pit's authority.
    pub authority: Pubkey,
    /// Where the pit is put; what was there is not read.
    pub sacred_waste_pit: Option<SacredWastePit>,
    pub bumps: InitializePitBumps,
}

/// Disambiguation bytes of the records that a deposit creates.
#[derive(Clone, Copy, Debug, PartialEq, Eq)]
pub struct DepositBurnBumps {
    pub pit_burn_record: u8,
    pub burner_stats: u8,
}

/// What a deposit works on.
#[derive(Clone, Debug)]
pub struct DepositBurn {
    /// The caller.
    pub caller: Pubkey,
    pub sacred_waste_pit: SacredWastePit,
    /// The caller's allow-list entry, if there is one.
    pub authorized_program: Option<AuthorizedProgram>,
    /// Where the pit burn record is put; what was there is not read.
    pub pit_burn_record: Option<PitBurnRecord>,
    /// The burner's statistics, if the burner was credited with a burn before.
    pub burner_stats: Option<BurnerStats>,
    pub bumps: DepositBurnBumps,
}

/// Disambiguation bytes of the records that an authorization creates.
#[derive(Clone, Copy, Debug, PartialEq, Eq)]
pub struct AuthorizeProgramBumps {
    pub authorized_program: u8,
}

/// What an authorization works on.
#[derive(Clone, Debug)]
pub struct AuthorizeProgram {
    /// The caller.
    pub authority: Pubkey,
    pub sacred_waste_pit: SacredWastePit,
    /// The caller that the entry is about.
    pub program_to_authorize: Pubkey,
    /// Where the entry is put; what was there is not read.
    pub authorized_program: Option<AuthorizedProgram>,
    pub bumps: AuthorizeProgramBumps,
}

/// Notification of a deposit.
#[derive(Clone, Copy, Debug, PartialEq, Eq)]
pub struct BurnDeposited {
    /// Sequence number of the burn in the pit.
    pub burn_id: u64,
    pub burner: Pubkey,
    pub timestamp: i64,
}

/// Why an operation on the pit was refused.
#[derive(Clone, Copy, Debug, PartialEq, Eq, Structural)]
pub enum PitError {
    /// The caller is not the pit's authority, or is not on the allow-list.
    Unauthorized,
    /// The metadata of a deposit is longer than a pit burn record takes.
    MetadataTooLong,
    /// A counter cannot take one more.
    MathOverflow,
}

/// Creates the waste pit, with the caller as its authority and no burns.
pub fn handler_init(ctx: &mut InitializePit)
    ensures
        final(ctx).authority == old(ctx).authority,
        final(ctx).bumps == old(ctx).bumps,
        final(ctx).sacred_waste_pit == Some(
            SacredWastePit {
                authority: old(ctx).authority,
                total_burns: 0,
                bump: old(ctx).bumps.sacred_waste_pit,
            },
        ),
{
    ctx.sacred_waste_pit = Some(
        SacredWastePit {
            authority: ctx.authority,
            total_burns: 0,
            bump: ctx.bumps.sacred_waste_pit,
        },
    );
}

/// Whether the entry lets `caller` deposit: there is an entry, it is about
/// this caller, and it is switched on.
pub open spec fn spec_may_deposit(entry: Option<AuthorizedProgram>, caller: Pubkey) -> bool {
    entry matches Some(e) && e.program_id == caller && e.is_authorized
}

/// Whether the entry lets `caller` deposit.
pub fn may_deposit(entry: &Option<AuthorizedProgram>, caller: &Pubkey) -> (allowed: bool)
    ensures
        allowed == spec_may_deposit(*entry, *caller),
{
    match entry {
        Some(e) => e.program_id == *caller && e.is_authorized,
        None => false,
    }
}

/// Why a deposit is refused, if it is: the first of the conditions that
/// fails, in the order allow-list, length of the metadata, the two counters.
pub open spec fn spec_deposit_refusal(before: DepositBurn, metadata: Seq<char>) -> Option<PitError> {
    if !spec_may_deposit(before.authorized_program, before.caller) {
        Some(PitError::Unauthorized)
    } else if byte_len(metadata) > PitBurnRecord::MAX_METADATA_LEN {
        Some(PitError::MetadataTooLong)
    } else if spec_stats_full(before.burner_stats) || before.sacred_waste_pit.total_burns
        == u64::MAX {
        Some(PitError::MathOverflow)
    } else {
        None
    }
}

/// What a deposit does and hands back.
pub open spec fn deposit_outcome(
    before: DepositBurn,
    burner: Pubkey,
    metadata: Seq<char>,
    now: i64,
    after: DepositBurn,
    result: Result<BurnDeposited, PitError>,
) -> bool {
    match spec_deposit_refusal(before, metadata) {
        Some(error) => {
            &&& result == Err::<BurnDeposited, PitError>(error)
            &&& after == before
        },
        None => {
            &&& result == Ok::<BurnDeposited, PitError>(
                BurnDeposited {
                    burn_id: before.sacred_waste_pit.total_burns,
                    burner,
                    timestamp: now,
                },
            )
            &&& after.caller == before.caller
            &&& after.authorized_program == before.authorized_program
            &&& after.bumps == before.bumps
            &&& after.sacred_waste_pit == before.sacred_waste_pit.deposited()
            &&& after.pit_burn_record matches Some(record)
            &&& record.wf()
            &&& is_pit_burn_record(
                record,
                burner,
                metadata,
                now,
                before.sacred_waste_pit.total_burns,
                before.bumps.pit_burn_record,
            )
            &&& after.burner_stats == Some(
                spec_stats_after(before.burner_stats, burner, before.bumps.burner_stats),
            )
        },
    }
}

/// Deposit: records in the pit a burn that the caller performed elsewhere, to
/// the credit of `burner`.
///
/// The caller must be on the pit's allow-list, and the metadata must fit a
/// pit burn record. The record takes the sequence number that the pit had
/// before this deposit; the burner's statistics and the pit's counter each go
/// up by one. Where the deposit is refused nothing changes.
pub fn handler_deposit(ctx: &mut DepositBurn, burner: Pubkey, metadata: String, now: i64) -> (result:
    Result<BurnDeposited, PitError>)
    ensures
        deposit_outcome(*old(ctx), burner, metadata@, now, *final(ctx), result),
{
    if !may_deposit(&ctx.authorized_program, &ctx.caller) {
        return Err(PitError::Unauthorized);
    }
    if byte_length(&metadata) > PitBurnRecord::MAX_METADATA_LEN {
        return Err(PitError::MetadataTooLong);
    }
    let burn_id = ctx.sacred_waste_pit.total_burns;
    let stats = match count_burn(&ctx.burner_stats, &burner, ctx.bumps.burner_stats) {
        Some(stats) => stats,
        None => {
            return Err(PitError::MathOverflow);
        },
    };
    let total_burns = match burn_id.checked_add(1) {
        Some(total) => total,
        None => {
            return Err(PitError::MathOverflow);
        },
    };
    ctx.pit_burn_record = Some(
        PitBurnRecord { burner, metadata, timestamp: now, burn_id, bump: ctx.bumps.pit_burn_record },
    );
    ctx.burner_stats = Some(stats);
    ctx.sacred_waste_pit.total_burns = total_burns;
    Ok(BurnDeposited { burn_id, burner, timestamp: now })
}

/// What an authorization does and hands back.
pub open spec fn authorize_outcome(
    before: AuthorizeProgram,
    is_authorized: bool,
    after: AuthorizeProgram,
    result: Result<(), PitError>,
) -> bool {
    if before.authority != before.sacred_waste_pit.authority {
        &&& result == Err::<(), PitError>(PitError::Unauthorized)
        &&& after == before
    } else {
        &&& result == Ok::<(), PitError>(())
        &&& after == (AuthorizeProgram {
            authorized_program: Some(
                AuthorizedProgram {
                    program_id: before.program_to_authorize,
                    is_authorized,
                    bump: before.bumps.authorized_program,
                },
            ),
            ..before
        })
    }
}

/// Authorization: puts a caller on the pit's allow-list, or switches its
/// entry on or off. Only the pit's authority may do so.
pub fn handler_authorize(ctx: &mut AuthorizeProgram, is_authorized: bool) -> (result: Result<
    (),
    PitError,
>)
    ensures
        authorize_outcome(*old(ctx), is_authorized, *final(ctx), result),
{
    if ctx.authority != ctx.sacred_waste_pit.authority {
        return Err(PitError::Unauthorized);
    }
    ctx.authorized_program = Some(
        AuthorizedProgram {
            program_id: ctx.program_to_authorize,
            is_authorized,
            bump: ctx.bumps.authorized_program,
        },
    );
    Ok(())
}

} // verus!
