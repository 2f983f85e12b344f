//! Record addressing: where a record lives is a function of a namespace tag
//! and of seed bytes, so that any party can find a record again without a
//! directory. The derivation hands back a disambiguation byte, which the
//! record keeps, so that its address can be checked on every later access.

use vstd::prelude::*;
use vstd::bytes::{spec_u64_to_le_bytes, spec_u64_from_le_bytes, u64_to_le_bytes,
    lemma_auto_spec_u64_to_from_le_bytes};
use vstd::slice::slice_to_vec;
use vstd::utf8::encode_utf8;
use crate::pubkey::Pubkey;

verus! {

/// What `Pubkey::try_find_program_address` of solana-program returns for the
/// given seeds and program: the derived address and its disambiguation byte,
/// or nothing where no address can be derived from these seeds.
pub uninterp spec fn spec_find_program_address(seeds: Seq<Seq<u8>>, program_id: Seq<u8>) -> Option<
    (Seq<u8>, u8),
>;

/// What `Pubkey::create_program_address` of solana-program returns for the
/// given seeds and program, its error left out: the address, or nothing where
/// these seeds give none.
pub uninterp spec fn spec_create_program_address(seeds: Seq<Seq<u8>>, program_id: Seq<u8>) -> Option<
    Seq<u8>,
>;

/// Calls `Pubkey::try_find_program_address`. Trusted: the result is the one
/// named by [`spec_find_program_address`]; and, as the search in that function
/// returns the first disambiguation byte that `create_program_address` accepts
/// behind the seeds, together with the address it gave, the address found is
/// the one that [`spec_create_program_address`] names for the seeds followed by
/// that byte.
#[verifier::external_body]
pub(crate) fn find_program_address(seeds: &Vec<Vec<u8>>, program_id: &Pubkey) -> (found: Option<
    (Pubkey, u8),
>)
    ensures
        found.is_some() == spec_find_program_address(seeds.deep_view(), program_id@).is_some(),
        found matches Some((key, bump)) ==> spec_find_program_address(
            seeds.deep_view(),
            program_id@,
        ) == Some((key@, bump)),
        found matches Some((key, bump)) ==> spec_create_program_address(
            seeds.deep_view().push(seq![bump]),
            program_id@,
        ) == Some(key@),
{
    let slices: Vec<&[u8]> = seeds.iter().map(|s| s.as_slice()).collect();
    let program = anchor_lang::prelude::Pubkey::new_from_array(program_id.bytes);
    anchor_lang::prelude::Pubkey::try_find_program_address(&slices, &program).map(
        |(key, bump)| (Pubkey { bytes: key.to_bytes() }, bump),
    )
}

/// Calls `Pubkey::create_program_address` and drops its error. Trusted: the
/// result is the one named by [`spec_create_program_address`].
#[verifier::external_body]
pub(crate) fn create_program_address(seeds: &Vec<Vec<u8>>, program_id: &Pubkey) -> (made: Option<
    Pubkey,
>)
    ensures
        made.is_some() == spec_create_program_address(seeds.deep_view(), program_id@).is_some(),
        made matches Some(key) ==> spec_create_program_address(seeds.deep_view(), program_id@)
            == Some(key@),
{
    let slices: Vec<&[u8]> = seeds.iter().map(|s| s.as_slice()).collect();
    let program = anchor_lang::prelude::Pubkey::new_from_array(program_id.bytes);
    anchor_lang::prelude::Pubkey::create_program_address(&slices, &program).ok().map(
        |key| Pubkey { bytes: key.to_bytes() },
    )
}

/// The address of a record and the disambiguation byte that the record keeps.
#[derive(Clone, Copy, Debug, PartialEq, Eq)]
pub struct RecordAddress {
    pub key: Pubkey,
    pub bump: u8,
}

/// The identity with the given bytes.
pub open spec fn key_of(bytes: Seq<u8>) -> Pubkey {
    choose|key: Pubkey| key@ == bytes
}

/// An identity is the identity of its bytes.
pub proof fn lemma_key_of(key: Pubkey)
    ensures
        key_of(key@) == key,
{
    crate::pubkey::lemma_pubkey_ext(key_of(key@), key);
}

/// The address that the seeds derive under the program, if they derive one.
pub open spec fn spec_record_address(seeds: Seq<Seq<u8>>, program_id: Pubkey) -> Option<
    RecordAddress,
> {
    match spec_find_program_address(seeds, program_id@) {
        Some((bytes, bump)) => Some(RecordAddress { key: key_of(bytes), bump }),
        None => None,
    }
}

/// Whether `key` is the address that the seeds and the kept disambiguation
/// byte give under the program.
pub open spec fn spec_address_verifies(
    seeds: Seq<Seq<u8>>,
    bump: u8,
    program_id: Pubkey,
    key: Pubkey,
) -> bool {
    spec_create_program_address(seeds.push(seq![bump]), program_id@) == Some(key@)
}

/// Derives the address of the record with the given seeds.
///
/// The same seeds and program always give the same address. An address that
/// was found verifies later with the byte that came with it.
pub fn find_record_address(seeds: &Vec<Vec<u8>>, program_id: &Pubkey) -> (found: Option<
    RecordAddress,
>)
    ensures
        found == spec_record_address(seeds.deep_view(), *program_id),
        found matches Some(address) ==> spec_address_verifies(
            seeds.deep_view(),
            address.bump,
            *program_id,
            address.key,
        ),
{
    match find_program_address(seeds, program_id) {
        Some((key, bump)) => {
            proof {
                lemma_key_of(key);
            }
            Some(RecordAddress { key, bump })
        },
        None => None,
    }
}

/// The seeds followed by the disambiguation byte: what a record signs with,
/// and what its address is checked against.
pub fn seeds_with_bump(seeds: Vec<Vec<u8>>, bump: u8) -> (all: Vec<Vec<u8>>)
    ensures
        all.deep_view() == seeds.deep_view().push(seq![bump]),
{
    let mut all = seeds;
    let mut last: Vec<u8> = Vec::new();
    last.push(bump);
    all.push(last);
    assert(all.deep_view() =~= seeds.deep_view().push(seq![bump])) by {
        assert(last.deep_view() =~= seq![bump]);
        assert forall|i: int| 0 <= i < all.len() implies #[trigger] all.deep_view()[i]
            == seeds.deep_view().push(seq![bump])[i] by {
            if i < seeds.len() {
                assert(all@[i] == seeds@[i]);
            }
        }
    }
    all
}

/// Checks an address against the seeds of its record and the disambiguation
/// byte that the record keeps.
pub fn verify_record_address(seeds: Vec<Vec<u8>>, bump: u8, program_id: &Pubkey, key: &Pubkey) -> (ok:
    bool)
    ensures
        ok == spec_address_verifies(seeds.deep_view(), bump, *program_id, *key),
{
    let all = seeds_with_bump(seeds, bump);
    match create_program_address(&all, program_id) {
        Some(made) => {
            proof {
                crate::pubkey::lemma_pubkey_ext(made, *key);
            }
            made == *key
        },
        None => false,
    }
}

/// The bytes of a namespace tag.
pub open spec fn tag(name: Seq<char>) -> Seq<u8> {
    encode_utf8(name)
}

/// Seeds of the collection registry.
pub open spec fn spec_collection_config_seeds() -> Seq<Seq<u8>> {
    seq![tag("collection_config"@)]
}

/// Seeds of the waste pit registry.
pub open spec fn spec_sacred_waste_pit_seeds() -> Seq<Seq<u8>> {
    seq![tag("sacred_waste_pit"@)]
}

/// Seeds of the burn record of a token.
pub open spec fn spec_burned_art_seeds(mint: Seq<u8>) -> Seq<Seq<u8>> {
    seq![tag("burned_art"@), mint]
}

/// Seeds of the pit burn record with the given sequence number: the number
/// stands in them in little-endian order.
pub open spec fn spec_pit_burn_seeds(burn_id: u64) -> Seq<Seq<u8>> {
    seq![tag("pit_burn"@), spec_u64_to_le_bytes(burn_id)]
}

/// Seeds of the statistics of a burner.
pub open spec fn spec_burner_stats_seeds(burner: Seq<u8>) -> Seq<Seq<u8>> {
    seq![tag("burner_stats"@), burner]
}

/// Seeds of the allow-list entry of a caller.
pub open spec fn spec_authorized_program_seeds(caller: Seq<u8>) -> Seq<Seq<u8>> {
    seq![tag("authorized_program"@), caller]
}

fn one_seed(name: &str) -> (seeds: Vec<Vec<u8>>)
    ensures
        seeds.deep_view() == seq![tag(name@)],
{
    let mut seeds: Vec<Vec<u8>> = Vec::new();
    let first = slice_to_vec(name.as_bytes());
    assert(first.deep_view() =~= tag(name@));
    seeds.push(first);
    assert(seeds.deep_view() =~= seq![tag(name@)]);
    seeds
}

fn two_seeds(name: &str, second: Vec<u8>) -> (seeds: Vec<Vec<u8>>)
    ensures
        seeds.deep_view() == seq![tag(name@), second@],
{
    let mut seeds: Vec<Vec<u8>> = Vec::new();
    let first = slice_to_vec(name.as_bytes());
    assert(first.deep_view() =~= tag(name@));
    assert(second.deep_view() =~= second@);
    seeds.push(first);
    seeds.push(second);
    assert(seeds.deep_view() =~= seq![tag(name@), second@]);
    seeds
}

/// Seeds of the collection registry.
pub fn collection_config_seeds() -> (seeds: Vec<Vec<u8>>)
    ensures
        seeds.deep_view() == spec_collection_config_seeds(),
{
    one_seed("collection_config")
}

/// Seeds of the waste pit registry.
pub fn sacred_waste_pit_seeds() -> (seeds: Vec<Vec<u8>>)
    ensures
        seeds.deep_view() == spec_sacred_waste_pit_seeds(),
{
    one_seed("sacred_waste_pit")
}

/// Seeds of the burn record of the token `mint`.
pub fn burned_art_seeds(mint: &Pubkey) -> (seeds: Vec<Vec<u8>>)
    ensures
        seeds.deep_view() == spec_burned_art_seeds(mint@),
{
    two_seeds("burned_art", mint.to_vec())
}

/// Seeds of the pit burn record with sequence number `burn_id`.
pub fn pit_burn_seeds(burn_id: u64) -> (seeds: Vec<Vec<u8>>)
    ensures
        seeds.deep_view() == spec_pit_burn_seeds(burn_id),
{
    two_seeds("pit_burn", u64_to_le_bytes(burn_id))
}

/// Seeds of the statistics of `burner`.
pub fn burner_stats_seeds(burner: &Pubkey) -> (seeds: Vec<Vec<u8>>)
    ensures
        seeds.deep_view() == spec_burner_stats_seeds(burner@),
{
    two_seeds("burner_stats", burner.to_vec())
}

/// Seeds of the allow-list entry of `caller`.
pub fn authorized_program_seeds(caller: &Pubkey) -> (seeds: Vec<Vec<u8>>)
    ensures
        seeds.deep_view() == spec_authorized_program_seeds(caller@),
{
    two_seeds("authorized_program", caller.to_vec())
}

/// Two sequence numbers have the same pit burn seeds only if they are the same
/// number: no two burns of one pit share the seeds of their records.
pub proof fn lemma_pit_burn_seeds_injective(a: u64, b: u64)
    requires
        spec_pit_burn_seeds(a) == spec_pit_burn_seeds(b),
    ensures
        a == b,
{
    lemma_auto_spec_u64_to_from_le_bytes();
    assert(spec_pit_burn_seeds(a)[1] == spec_pit_burn_seeds(b)[1]);
    assert(spec_u64_from_le_bytes(spec_u64_to_le_bytes(a)) == a);
    assert(spec_u64_from_le_bytes(spec_u64_to_le_bytes(b)) == b);
}

} // verus!
