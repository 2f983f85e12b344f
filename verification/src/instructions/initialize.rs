//! Creation of the collection registry.

use vstd::prelude::*;
use crate::pubkey::Pubkey;
use crate::state::CollectionConfig;
use crate::text::{byte_len, byte_length};

verus! {

/// Disambiguation bytes of the records that the creation of the registry
/// creates.
#[derive(Clone, Copy, Debug, PartialEq, Eq)]
pub struct InitializeBumps {
    pub collection_config: u8,
}

/// What the creation of the registry works on.
#[derive(Clone, Debug)]
pub struct Initialize {
    /// The caller, who becomes the registry's authority.
    pub authority: Pubkey,
    /// Where the registry is put; what was there is not read.
    pub collection_config: Option<CollectionConfig>,
    pub bumps: InitializeBumps,
}

/// Why the creation of the registry was refused.
#[derive(Clone, Copy, Debug, PartialEq, Eq, Structural)]
pub enum ErrorCode {
    /// The collection's name is longer than the registry takes.
    NameTooLong,
    /// The collection's symbol is longer than the registry takes.
    SymbolTooLong,
    /// The collection's URI is longer than the registry takes.
    UriTooLong,
}

/// Why the creation of a registry with these strings is refused, if it is:
/// the first string that is too long, in the order name, symbol, URI.
pub open spec fn spec_initialize_refusal(name: Seq<char>, symbol: Seq<char>, uri: Seq<char>) -> Option<
    ErrorCode,
> {
    if byte_len(name) > CollectionConfig::MAX_NAME_LEN {
        Some(ErrorCode::NameTooLong)
    } else if byte_len(symbol) > CollectionConfig::MAX_SYMBOL_LEN {
        Some(ErrorCode::SymbolTooLong)
    } else if byte_len(uri) > CollectionConfig::MAX_URI_LEN {
        Some(ErrorCode::UriTooLong)
    } else {
        None
    }
}

/// What the creation of the registry does and hands back.
pub open spec fn initialize_outcome(
    before: Initialize,
    name: String,
    symbol: String,
    uri: String,
    treasury: Pubkey,
    premium_fee: u64,
    after: Initialize,
    result: Result<(), ErrorCode>,
) -> bool {
    match spec_initialize_refusal(name@, symbol@, uri@) {
        Some(error) => {
            &&& result == Err::<(), ErrorCode>(error)
            &&& after == before
        },
        None => {
            &&& result == Ok::<(), ErrorCode>(())
            &&& after.authority == before.authority
            &&& after.bumps == before.bumps
            &&& after.collection_config matches Some(config)
            &&& config.wf()
            &&& config == (CollectionConfig {
                authority: before.authority,
                name,
                symbol,
                uri,
                treasury,
                premium_fee,
                total_minted: 0,
                total_burned: 0,
                sacred_waste_pit: None,
                bump: before.bumps.collection_config,
            })
        },
    }
}

/// Creates the collection registry: the caller is its authority, the
/// counters are at zero, and no waste pit is linked.
///
/// Each string must be within its bound. Where the creation is refused
/// nothing changes.
pub fn handler(
    ctx: &mut Initialize,
    name: String,
    symbol: String,
    uri: String,
    treasury: Pubkey,
    premium_fee: u64,
) -> (result: Result<(), ErrorCode>)
    ensures
        initialize_outcome(
            *old(ctx),
            name,
            symbol,
            uri,
            treasury,
            premium_fee,
            *final(ctx),
            result,
        ),
{
    if byte_length(&name) > CollectionConfig::MAX_NAME_LEN {
        return Err(ErrorCode::NameTooLong);
    }
    if byte_length(&symbol) > CollectionConfig::MAX_SYMBOL_LEN {
        return Err(ErrorCode::SymbolTooLong);
    }
    if byte_length(&uri) > CollectionConfig::MAX_URI_LEN {
        return Err(ErrorCode::UriTooLong);
    }
    ctx.collection_config = Some(
        CollectionConfig {
            authority: ctx.authority,
            name,
            symbol,
            uri,
            treasury,
            premium_fee,
            total_minted: 0,
            total_burned: 0,
            sacred_waste_pit: None,
            bump: ctx.bumps.collection_config,
        },
    );
    Ok(())
}

} // verus!
