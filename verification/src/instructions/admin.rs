//! Administration of the collection registry: each setter replaces one field,
//! and only the registry's authority may call it.

use vstd::prelude::*;
use crate::pubkey::Pubkey;
use crate::state::CollectionConfig;

verus! {

/// What the change of the waste pit link works on.
#[derive(Clone, Debug)]
pub struct SetSacredWastePit {
    /// The caller.
    pub authority: Pubkey,
    pub collection_config: CollectionConfig,
}

/// What the change of the treasury works on.
#[derive(Clone, Debug)]
pub struct SetTreasury {
    /// The caller.
    pub authority: Pubkey,
    pub collection_config: CollectionConfig,
}

/// What the change of the premium fee works on.
#[derive(Clone, Debug)]
pub struct SetPremiumFee {
    /// The caller.
    pub authority: Pubkey,
    pub collection_config: CollectionConfig,
}

/// What the transfer of the authority works on.
#[derive(Clone, Debug)]
pub struct TransferAuthority {
    /// The caller.
    pub authority: Pubkey,
    pub collection_config: CollectionConfig,
    /// The identity that becomes the authority.
    pub new_authority: Pubkey,
}

/// Notification of a change of the waste pit link.
#[derive(Clone, Copy, Debug, PartialEq, Eq)]
pub struct SacredWastePitUpdated {
    pub old_pit: Option<Pubkey>,
    pub new_pit: Option<Pubkey>,
}

/// Notification of a change of the treasury.
#[derive(Clone, Copy, Debug, PartialEq, Eq)]
pub struct TreasuryUpdated {
    pub old_treasury: Pubkey,
    pub new_treasury: Pubkey,
}

/// Notification of a change of the premium fee.
#[derive(Clone, Copy, Debug, PartialEq, Eq)]
pub struct PremiumFeeUpdated {
    pub old_fee: u64,
    pub new_fee: u64,
}

/// Notification of a transfer of the authority.
#[derive(Clone, Copy, Debug, PartialEq, Eq)]
pub struct AuthorityTransferred {
    pub old_authority: Pubkey,
    pub new_authority: Pubkey,
}

/// Why a change of the registry was refused.
#[derive(Clone, Copy, Debug, PartialEq, Eq, Structural)]
pub enum AdminError {
    /// The caller is not the registry's authority.
    Unauthorized,
}

/// Links the waste pit `pit` to the collection.
///
/// Only the registry's authority may do so; for any other caller nothing
/// changes. The notification carries the link as it was before the call.
pub fn handler_set_pit(ctx: &mut SetSacredWastePit, pit: Pubkey) -> (result: Result<
    SacredWastePitUpdated,
    AdminError,
>)
    ensures
        old(ctx).authority != old(ctx).collection_config.authority ==> {
            &&& result == Err::<SacredWastePitUpdated, AdminError>(AdminError::Unauthorized)
            &&& *final(ctx) == *old(ctx)
        },
        old(ctx).authority == old(ctx).collection_config.authority ==> {
            &&& result == Ok::<SacredWastePitUpdated, AdminError>(
                SacredWastePitUpdated {
                    old_pit: old(ctx).collection_config.sacred_waste_pit,
                    new_pit: Some(pit),
                },
            )
            &&& final(ctx).authority == old(ctx).authority
            &&& final(ctx).collection_config == (CollectionConfig {
                sacred_waste_pit: Some(pit),
                ..old(ctx).collection_config
            })
        },
{
    if ctx.authority != ctx.collection_config.authority {
        return Err(AdminError::Unauthorized);
    }
    let old_pit = ctx.collection_config.sacred_waste_pit;
    ctx.collection_config.sacred_waste_pit = Some(pit);
    Ok(SacredWastePitUpdated { old_pit, new_pit: Some(pit) })
}

/// Makes `treasury` the identity that receives premium fees.
///
/// Only the registry's authority may do so; for any other caller nothing
/// changes. The notification carries the treasury as it was before the call.
pub fn handler_set_treasury(ctx: &mut SetTreasury, treasury: Pubkey) -> (result: Result<
    TreasuryUpdated,
    AdminError,
>)
    ensures
        old(ctx).authority != old(ctx).collection_config.authority ==> {
            &&& result == Err::<TreasuryUpdated, AdminError>(AdminError::Unauthorized)
            &&& *final(ctx) == *old(ctx)
        },
        old(ctx).authority == old(ctx).collection_config.authority ==> {
            &&& result == Ok::<TreasuryUpdated, AdminError>(
                TreasuryUpdated {
                    old_treasury: old(ctx).collection_config.treasury,
                    new_treasury: treasury,
                },
            )
            &&& final(ctx).authority == old(ctx).authority
            &&& final(ctx).collection_config == (CollectionConfig {
                treasury,
                ..old(ctx).collection_config
            })
        },
{
    if ctx.authority != ctx.collection_config.authority {
        return Err(AdminError::Unauthorized);
    }
    let old_treasury = ctx.collection_config.treasury;
    ctx.collection_config.treasury = treasury;
    Ok(TreasuryUpdated { old_treasury, new_treasury: treasury })
}

/// Makes `fee` the premium fee.
///
/// Only the registry's authority may do so; for any other caller nothing
/// changes. The notification carries the fee as it was before the call.
pub fn handler_set_premium_fee(ctx: &mut SetPremiumFee, fee: u64) -> (result: Result<
    PremiumFeeUpdated,
    AdminError,
>)
    ensures
        old(ctx).authority != old(ctx).collection_config.authority ==> {
            &&& result == Err::<PremiumFeeUpdated, AdminError>(AdminError::Unauthorized)
            &&& *final(ctx) == *old(ctx)
        },
        old(ctx).authority == old(ctx).collection_config.authority ==> {
            &&& result == Ok::<PremiumFeeUpdated, AdminError>(
                PremiumFeeUpdated { old_fee: old(ctx).collection_config.premium_fee, new_fee: fee },
            )
            &&& final(ctx).authority == old(ctx).authority
            &&& final(ctx).collection_config == (CollectionConfig {
                premium_fee: fee,
                ..old(ctx).collection_config
            })
        },
{
    if ctx.authority != ctx.collection_config.authority {
        return Err(AdminError::Unauthorized);
    }
    let old_fee = ctx.collection_config.premium_fee;
    ctx.collection_config.premium_fee = fee;
    Ok(PremiumFeeUpdated { old_fee, new_fee: fee })
}

/// Hands the registry over to the new authority, after which the caller may
/// change it no more.
///
/// Only the registry's authority may do so; for any other caller nothing
/// changes. The notification carries the authority as it was before the call.
pub fn handler_transfer_authority(ctx: &mut TransferAuthority) -> (result: Result<
    AuthorityTransferred,
    AdminError,
>)
    ensures
        old(ctx).authority != old(ctx).collection_config.authority ==> {
            &&& result == Err::<AuthorityTransferred, AdminError>(AdminError::Unauthorized)
            &&& *final(ctx) == *old(ctx)
        },
        old(ctx).authority == old(ctx).collection_config.authority ==> {
            &&& result == Ok::<AuthorityTransferred, AdminError>(
                AuthorityTransferred {
                    old_authority: old(ctx).collection_config.authority,
                    new_authority: old(ctx).new_authority,
                },
            )
            &&& final(ctx).authority == old(ctx).authority
            &&& final(ctx).new_authority == old(ctx).new_authority
            &&& final(ctx).collection_config == (CollectionConfig {
                authority: old(ctx).new_authority,
                ..old(ctx).collection_config
            })
        },
{
    if ctx.authority != ctx.collection_config.authority {
        return Err(AdminError::Unauthorized);
    }
    let old_authority = ctx.collection_config.authority;
    ctx.collection_config.authority = ctx.new_authority;
    Ok(AuthorityTransferred { old_authority, new_authority: ctx.new_authority })
}

} // verus!
