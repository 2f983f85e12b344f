//! The persisted records: the collection registry, the waste pit registry,
//! burn records, per-burner statistics and the pit's allow-list entries.

use vstd::prelude::*;
use crate::pubkey::Pubkey;
use crate::text::{byte_len, byte_length};

verus! {

/// The collection registry: one per collection.
#[derive(Clone, Debug, PartialEq, Eq)]
pub struct CollectionConfig {
    /// Identity that may reconfigure the collection.
    pub authority: Pubkey,
    /// Collection name.
    pub name: String,
    /// Collection symbol.
    pub symbol: String,
    /// Base URI of the collection's metadata.
    pub uri: String,
    /// Identity that receives premium fees.
    pub treasury: Pubkey,
    /// Premium fee, in the smallest unit of the native currency.
    pub premium_fee: u64,
    /// Tokens issued so far; also the sequence id of the next token.
    pub total_minted: u64,
    /// Tokens destroyed so far.
    pub total_burned: u64,
    /// Address of the waste pit, once one is linked.
    pub sacred_waste_pit: Option<Pubkey>,
    /// Disambiguation byte of the registry's own address.
    pub bump: u8,
}

impl CollectionConfig {
    /// Most bytes that the name may have.
    pub const MAX_NAME_LEN: usize = 32;

    /// Most bytes that the symbol may have.
    pub const MAX_SYMBOL_LEN: usize = 10;

    /// Most bytes that the URI may have.
    pub const MAX_URI_LEN: usize = 200;

    /// Upper bound of the persisted length: discriminator, authority, the three
    /// length-prefixed strings, treasury, fee, two counters, the optional pit
    /// link and the disambiguation byte.
    pub const LEN: usize = 8 + 32 + 4 + Self::MAX_NAME_LEN + 4 + Self::MAX_SYMBOL_LEN + 4
        + Self::MAX_URI_LEN + 32 + 8 + 8 + 8 + 1 + 32 + 1;

    /// The strings are within their bounds.
    pub open spec fn wf(&self) -> bool {
        &&& byte_len(self.name@) <= Self::MAX_NAME_LEN
        &&& byte_len(self.symbol@) <= Self::MAX_SYMBOL_LEN
        &&& byte_len(self.uri@) <= Self::MAX_URI_LEN
    }

    /// This registry after one more token was issued.
    pub open spec fn minted(self) -> CollectionConfig {
        CollectionConfig { total_minted: (self.total_minted + 1) as u64, ..self }
    }

    /// This registry after one more token was destroyed.
    pub open spec fn burned(self) -> CollectionConfig {
        CollectionConfig { total_burned: (self.total_burned + 1) as u64, ..self }
    }

    /// Persisted length of this registry.
    pub open spec fn spec_packed_len(&self) -> nat {
        (8 + 32 + 4 + byte_len(self.name@) + 4 + byte_len(self.symbol@) + 4 + byte_len(self.uri@)
            + 32 + 8 + 8 + 8 + 1 + (if self.sacred_waste_pit is Some {
            32nat
        } else {
            0nat
        }) + 1) as nat
    }

    /// Persisted length of this registry, which never exceeds [`Self::LEN`].
    pub fn packed_len(&self) -> (len: usize)
        requires
            self.wf(),
        ensures
            len == self.spec_packed_len(),
            len <= Self::LEN,
    {
        let link: usize = if self.sacred_waste_pit.is_some() {
            32
        } else {
            0
        };
        8 + 32 + 4 + byte_length(&self.name) + 4 + byte_length(&self.symbol) + 4
            + byte_length(&self.uri) + 32 + 8 + 8 + 8 + 1 + link + 1
    }
}

/// Record of a token destroyed by a direct burn.
#[derive(Clone, Debug, PartialEq, Eq)]
pub struct BurnedArt {
    /// The identity that burned the token.
    pub artist: Pubkey,
    /// URI of the token's metadata.
    pub token_uri: String,
    /// Time of the burn.
    pub burned_at: i64,
    /// The token that was burned.
    pub original_mint: Pubkey,
    /// Disambiguation byte of the record's address.
    pub bump: u8,
}

impl BurnedArt {
    /// Most bytes that the URI may have.
    pub const MAX_URI_LEN: usize = 200;

    /// Upper bound of the persisted length: discriminator, artist, the
    /// length-prefixed URI, time, token and the disambiguation byte.
    pub const LEN: usize = 8 + 32 + 4 + Self::MAX_URI_LEN + 8 + 32 + 1;

    /// The URI is within its bound.
    pub open spec fn wf(&self) -> bool {
        byte_len(self.token_uri@) <= Self::MAX_URI_LEN
    }

    /// Persisted length of this record.
    pub open spec fn spec_packed_len(&self) -> nat {
        (8 + 32 + 4 + byte_len(self.token_uri@) + 8 + 32 + 1) as nat
    }

    /// Persisted length of this record, which never exceeds [`Self::LEN`].
    pub fn packed_len(&self) -> (len: usize)
        requires
            self.wf(),
        ensures
            len == self.spec_packed_len(),
            len <= Self::LEN,
    {
        8 + 32 + 4 + byte_length(&self.token_uri) + 8 + 32 + 1
    }
}

/// The waste pit registry: one for all the callers that deposit into it.
#[derive(Clone, Copy, Debug, PartialEq, Eq)]
pub struct SacredWastePit {
    /// Identity that manages the pit's allow-list.
    pub authority: Pubkey,
    /// Burns deposited so far; also the sequence number of the next burn.
    pub total_burns: u64,
    /// Disambiguation byte of the pit's own address.
    pub bump: u8,
}

impl SacredWastePit {
    /// Persisted length: discriminator, authority, counter and the
    /// disambiguation byte.
    pub const LEN: usize = 8 + 32 + 8 + 1;

    /// This pit after one more burn was deposited.
    pub open spec fn deposited(self) -> SacredWastePit {
        SacredWastePit { total_burns: (self.total_burns + 1) as u64, ..self }
    }
}

/// Record of one burn deposited into the waste pit.
#[derive(Clone, Debug, PartialEq, Eq)]
pub struct PitBurnRecord {
    /// The identity credited with the burn.
    pub burner: Pubkey,
    /// Free text about the burn.
    pub metadata: String,
    /// Time of the burn.
    pub timestamp: i64,
    /// Sequence number of the burn in the pit.
    pub burn_id: u64,
    /// Disambiguation byte of the record's address.
    pub bump: u8,
}

impl PitBurnRecord {
    /// Most bytes that the metadata may have.
    pub const MAX_METADATA_LEN: usize = 200;

    /// Upper bound of the persisted length: discriminator, burner, the
    /// length-prefixed metadata, time, sequence number and the
    /// disambiguation byte.
    pub const LEN: usize = 8 + 32 + 4 + Self::MAX_METADATA_LEN + 8 + 8 + 1;

    /// The metadata is within its bound.
    pub open spec fn wf(&self) -> bool {
        byte_len(self.metadata@) <= Self::MAX_METADATA_LEN
    }

    /// Persisted length of this record.
    pub open spec fn spec_packed_len(&self) -> nat {
        (8 + 32 + 4 + byte_len(self.metadata@) + 8 + 8 + 1) as nat
    }

    /// Persisted length of this record, which never exceeds [`Self::LEN`].
    pub fn packed_len(&self) -> (len: usize)
        requires
            self.wf(),
        ensures
            len == self.spec_packed_len(),
            len <= Self::LEN,
    {
        8 + 32 + 4 + byte_length(&self.metadata) + 8 + 8 + 1
    }
}

/// How many burns one identity has deposited into the pit.
#[derive(Clone, Copy, Debug, PartialEq, Eq)]
pub struct BurnerStats {
    /// The identity the count belongs to.
    pub burner: Pubkey,
    /// Burns deposited by that identity.
    pub burn_count: u64,
    /// Disambiguation byte of the record's address.
    pub bump: u8,
}

impl BurnerStats {
    /// Persisted length: discriminator, burner, count and the disambiguation
    /// byte.
    pub const LEN: usize = 8 + 32 + 8 + 1;
}

/// Allow-list entry of the waste pit for one caller.
#[derive(Clone, Copy, Debug, PartialEq, Eq)]
pub struct AuthorizedProgram {
    /// The caller the entry is about.
    pub program_id: Pubkey,
    /// Whether that caller may deposit at present.
    pub is_authorized: bool,
    /// Disambiguation byte of the entry's address.
    pub bump: u8,
}

impl AuthorizedProgram {
    /// Persisted length: discriminator, caller, flag and the disambiguation
    /// byte.
    pub const LEN: usize = 8 + 32 + 1 + 1;
}

} // verus!
