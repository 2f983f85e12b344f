//! The ledger: the records of one deployment of the program, each under the
//! address that its seeds derive, so that no record can be reached under a
//! spoofed address and none is created twice.

use vstd::prelude::*;
use crate::address::{
    authorized_program_seeds, burned_art_seeds, burner_stats_seeds, find_record_address,
    pit_burn_seeds, spec_authorized_program_seeds, spec_burned_art_seeds,
    spec_address_verifies, spec_burner_stats_seeds, spec_collection_config_seeds,
    spec_pit_burn_seeds, spec_record_address, spec_sacred_waste_pit_seeds, RecordAddress,
};
use crate::instructions::admin::AdminError;
use crate::instructions::burn::BurnError;
use crate::instructions::initialize::ErrorCode;
use crate::instructions::mint::MintError;
use crate::instructions::pit::PitError;
use crate::pubkey::Pubkey;
use crate::records::Records;
use crate::state::{
    AuthorizedProgram, BurnedArt, BurnerStats, CollectionConfig, PitBurnRecord, SacredWastePit,
};

verus! {

/// Why an operation on the ledger was refused.
#[derive(Clone, Copy, Debug, PartialEq, Eq)]
pub enum Error {
    /// No address can be derived for a record that the operation creates.
    AddressNotFound,
    /// A record was named by an address that is not its own.
    AddressMismatch,
    /// A record that the operation creates exists already.
    AlreadyInitialized,
    /// A registry that the operation works on was not created yet.
    NotInitialized,
    /// The creation of the collection registry was refused.
    Initialize(ErrorCode),
    /// A mint was refused.
    Mint(MintError),
    /// A burn was refused.
    Burn(BurnError),
    /// An operation on the waste pit was refused.
    Pit(PitError),
    /// A change of the collection registry was refused.
    Admin(AdminError),
}

/// The records of one deployment of the program.
#[derive(Clone, Debug)]
pub struct Ledger {
    pub(crate) program_id: Pubkey,
    pub(crate) collection_config: Option<(Pubkey, CollectionConfig)>,
    pub(crate) sacred_waste_pit: Option<(Pubkey, SacredWastePit)>,
    pub(crate) burned_art: Records<BurnedArt>,
    pub(crate) pit_burn_records: Records<PitBurnRecord>,
    pub(crate) burner_stats: Records<BurnerStats>,
    pub(crate) authorized_programs: Records<AuthorizedProgram>,
}

/// The record that a store holds under `key`, if it holds one there.
pub open spec fn lookup<T>(store: Map<Pubkey, T>, key: Pubkey) -> Option<T> {
    if store.contains_key(key) {
        Some(store[key])
    } else {
        None
    }
}

/// The record that a store holds under the address that the seeds derive, if
/// they derive one and the store holds a record there.
pub open spec fn lookup_derived<T>(store: Map<Pubkey, T>, seeds: Seq<Seq<u8>>, program_id: Pubkey) -> Option<
    T,
> {
    match spec_record_address(seeds, program_id) {
        Some(address) => lookup(store, address.key),
        None => None,
    }
}

/// A [`Ledger`] as a mathematical value: the two registries with their
/// addresses, and each store as a map from address to record.
pub struct LedgerView {
    pub program_id: Pubkey,
    pub collection_config: Option<(Pubkey, CollectionConfig)>,
    pub sacred_waste_pit: Option<(Pubkey, SacredWastePit)>,
    pub burned_art: Map<Pubkey, BurnedArt>,
    pub pit_burn_records: Map<Pubkey, PitBurnRecord>,
    pub burner_stats: Map<Pubkey, BurnerStats>,
    pub authorized_programs: Map<Pubkey, AuthorizedProgram>,
}

impl LedgerView {
    /// The pit burn record with sequence number `burn_id`, if the ledger
    /// holds it under the address of that number.
    pub open spec fn pit_burn_record(self, burn_id: u64) -> Option<PitBurnRecord> {
        lookup_derived(self.pit_burn_records, spec_pit_burn_seeds(burn_id), self.program_id)
    }

    /// The burn record of the token `mint`, if the ledger holds one.
    pub open spec fn burn_record_of(self, mint: Pubkey) -> Option<BurnedArt> {
        lookup_derived(self.burned_art, spec_burned_art_seeds(mint@), self.program_id)
    }

    /// The statistics of `burner`, if the ledger holds any.
    pub open spec fn stats_of(self, burner: Pubkey) -> Option<BurnerStats> {
        lookup_derived(self.burner_stats, spec_burner_stats_seeds(burner@), self.program_id)
    }

    /// The allow-list entry of `caller`, if the ledger holds one.
    pub open spec fn entry_of(self, caller: Pubkey) -> Option<AuthorizedProgram> {
        lookup_derived(
            self.authorized_programs,
            spec_authorized_program_seeds(caller@),
            self.program_id,
        )
    }

    /// Whether the ledger holds, under the address of the sequence number
    /// `burn_id`, a pit burn record with that number.
    pub open spec fn holds_burn(self, burn_id: u64) -> bool {
        self.pit_burn_record(burn_id) matches Some(record) && record.burn_id == burn_id
    }

    /// Burns deposited into the pit so far; none where there is no pit.
    pub open spec fn total_burns(self) -> u64 {
        match self.sacred_waste_pit {
            Some((_, pit)) => pit.total_burns,
            None => 0,
        }
    }

    /// The collection registry, if there is one, stands under the address of
    /// its seeds, and its strings are within their bounds.
    pub open spec fn registry_stands(self) -> bool {
        self.collection_config matches Some((key, config)) ==> config.wf() && stands_at(
            spec_collection_config_seeds(),
            self.program_id,
            key,
            config.bump,
        )
    }

    /// The waste pit registry, if there is one, stands under the address of
    /// its seeds.
    pub open spec fn pit_stands(self) -> bool {
        self.sacred_waste_pit matches Some((key, pit)) ==> stands_at(
            spec_sacred_waste_pit_seeds(),
            self.program_id,
            key,
            pit.bump,
        )
    }

    /// The ledger is consistent: each registry stands under the address of
    /// its seeds and keeps the disambiguation byte with which that address
    /// verifies, the collection registry's strings are within their bounds,
    /// and for each sequence number that the pit has given out the ledger
    /// holds, under the address of that number, a pit burn record with that
    /// number.
    pub open spec fn wf(self) -> bool {
        &&& self.registry_stands()
        &&& self.pit_stands()
        &&& forall|burn_id: u64| burn_id < self.total_burns() ==> self.holds_burn(burn_id)
    }
}

/// Whether `key` is the address that the seeds derive under the program, and
/// verifies with the disambiguation byte `bump`.
pub open spec fn stands_at(seeds: Seq<Seq<u8>>, program_id: Pubkey, key: Pubkey, bump: u8) -> bool {
    &&& spec_record_address(seeds, program_id) == Some(RecordAddress { key, bump })
    &&& spec_address_verifies(seeds, bump, program_id, key)
}

/// A ledger stays consistent through a change that leaves the pit and its
/// burn records alone, where the registries after the change stand under
/// their addresses and the collection registry's strings are within bounds.
pub proof fn lemma_wf_beside_pit(before: LedgerView, after: LedgerView)
    requires
        before.wf(),
        after.program_id == before.program_id,
        after.pit_burn_records == before.pit_burn_records,
        after.total_burns() == before.total_burns(),
        after.registry_stands(),
        after.pit_stands(),
    ensures
        after.wf(),
{
    assert forall|burn_id: u64| burn_id < after.total_burns() implies after.holds_burn(
        burn_id,
    ) by {
        assert(before.holds_burn(burn_id));
    }
}

/// A ledger stays consistent through a deposit: the pit gives out its next
/// sequence number, and a record with that number goes under the address of
/// the number, where no record stood.
pub proof fn lemma_wf_after_deposit(
    before: LedgerView,
    after: LedgerView,
    address: RecordAddress,
    record: PitBurnRecord,
)
    requires
        before.wf(),
        before.sacred_waste_pit is Some,
        before.total_burns() < u64::MAX,
        spec_record_address(spec_pit_burn_seeds(before.total_burns()), before.program_id) == Some(
            address,
        ),
        !before.pit_burn_records.contains_key(address.key),
        record.burn_id == before.total_burns(),
        after.program_id == before.program_id,
        after.sacred_waste_pit == Some(
            (before.sacred_waste_pit->Some_0.0, before.sacred_waste_pit->Some_0.1.deposited()),
        ),
        after.pit_burn_records == before.pit_burn_records.insert(address.key, record),
        after.registry_stands(),
    ensures
        after.wf(),
{
    assert forall|burn_id: u64| burn_id < after.total_burns() implies after.holds_burn(
        burn_id,
    ) by {
        if burn_id < before.total_burns() {
            assert(before.holds_burn(burn_id));
        }
    }
}

impl View for Ledger {
    type V = LedgerView;

    open(crate) spec fn view(&self) -> LedgerView {
        LedgerView {
            program_id: self.program_id,
            collection_config: self.collection_config,
            sacred_waste_pit: self.sacred_waste_pit,
            burned_art: self.burned_art@,
            pit_burn_records: self.pit_burn_records@,
            burner_stats: self.burner_stats@,
            authorized_programs: self.authorized_programs@,
        }
    }
}

impl Ledger {
    /// The ledger is consistent, see [`LedgerView::wf`], and no store holds
    /// two records under one address.
    pub open(crate) spec fn wf(&self) -> bool {
        &&& self@.wf()
        &&& self.burned_art.wf()
        &&& self.pit_burn_records.wf()
        &&& self.burner_stats.wf()
        &&& self.authorized_programs.wf()
    }

    /// The ledger of a program that has no records yet.
    pub fn new(program_id: Pubkey) -> (ledger: Ledger)
        ensures
            ledger.wf(),
            ledger@ == (LedgerView {
                program_id,
                collection_config: None,
                sacred_waste_pit: None,
                burned_art: Map::empty(),
                pit_burn_records: Map::empty(),
                burner_stats: Map::empty(),
                authorized_programs: Map::empty(),
            }),
    {
        Ledger {
            program_id,
            collection_config: None,
            sacred_waste_pit: None,
            burned_art: Records::new(),
            pit_burn_records: Records::new(),
            burner_stats: Records::new(),
            authorized_programs: Records::new(),
        }
    }

    /// The program that the ledger belongs to.
    pub fn program_id(&self) -> (program_id: Pubkey)
        ensures
            program_id == self@.program_id,
    {
        self.program_id
    }

    /// The collection registry, if it was created.
    pub fn collection_config(&self) -> (config: Option<&CollectionConfig>)
        ensures
            match config {
                Some(c) => self@.collection_config matches Some((_, held)) && *c == held,
                None => self@.collection_config is None,
            },
    {
        match &self.collection_config {
            Some((_, config)) => Some(config),
            None => None,
        }
    }

    /// The waste pit registry, if it was created.
    pub fn sacred_waste_pit(&self) -> (pit: Option<SacredWastePit>)
        ensures
            match pit {
                Some(p) => self@.sacred_waste_pit matches Some((_, held)) && p == held,
                None => self@.sacred_waste_pit is None,
            },
    {
        match &self.sacred_waste_pit {
            Some((_, pit)) => Some(*pit),
            None => None,
        }
    }

    /// The burn record of the token `mint`, if the ledger holds one.
    pub fn burn_record_of(&self, mint: &Pubkey) -> (record: Option<&BurnedArt>)
        requires
            self.wf(),
        ensures
            match record {
                Some(r) => self@.burn_record_of(*mint) == Some(*r),
                None => self@.burn_record_of(*mint) is None,
            },
    {
        match find_record_address(&burned_art_seeds(mint), &self.program_id) {
            Some(address) => self.burned_art.get(&address.key),
            None => None,
        }
    }

    /// The pit burn record with sequence number `burn_id`, if the ledger holds
    /// it.
    pub fn pit_burn(&self, burn_id: u64) -> (record: Option<&PitBurnRecord>)
        requires
            self.wf(),
        ensures
            match record {
                Some(r) => self@.pit_burn_record(burn_id) == Some(*r),
                None => self@.pit_burn_record(burn_id) is None,
            },
    {
        match find_record_address(&pit_burn_seeds(burn_id), &self.program_id) {
            Some(address) => self.pit_burn_records.get(&address.key),
            None => None,
        }
    }

    /// The statistics of `burner`, if the ledger holds any.
    pub fn stats_of(&self, burner: &Pubkey) -> (stats: Option<BurnerStats>)
        requires
            self.wf(),
        ensures
            stats == self@.stats_of(*burner),
    {
        match find_record_address(&burner_stats_seeds(burner), &self.program_id) {
            Some(address) => match self.burner_stats.get(&address.key) {
                Some(held) => Some(*held),
                None => None,
            },
            None => None,
        }
    }

    /// The allow-list entry of `caller`, if the ledger holds one.
    pub fn entry_of(&self, caller: &Pubkey) -> (entry: Option<AuthorizedProgram>)
        requires
            self.wf(),
        ensures
            entry == self@.entry_of(*caller),
    {
        match find_record_address(&authorized_program_seeds(caller), &self.program_id) {
            Some(address) => match self.authorized_programs.get(&address.key) {
                Some(held) => Some(*held),
                None => None,
            },
            None => None,
        }
    }

    /// The burn record under `key`, if there is one.
    pub fn burned_art(&self, key: &Pubkey) -> (record: Option<&BurnedArt>)
        requires
            self.wf(),
        ensures
            match record {
                Some(r) => self@.burned_art.contains_key(*key) && *r == self@.burned_art[*key],
                None => !self@.burned_art.contains_key(*key),
            },
    {
        self.burned_art.get(key)
    }

    /// The pit burn record under `key`, if there is one.
    pub fn pit_burn_record(&self, key: &Pubkey) -> (record: Option<&PitBurnRecord>)
        requires
            self.wf(),
        ensures
            match record {
                Some(r) => self@.pit_burn_records.contains_key(*key) && *r
                    == self@.pit_burn_records[*key],
                None => !self@.pit_burn_records.contains_key(*key),
            },
    {
        self.pit_burn_records.get(key)
    }

    /// The statistics under `key`, if there are any.
    pub fn burner_stats(&self, key: &Pubkey) -> (stats: Option<BurnerStats>)
        requires
            self.wf(),
        ensures
            match stats {
                Some(s) => self@.burner_stats.contains_key(*key) && s == self@.burner_stats[*key],
                None => !self@.burner_stats.contains_key(*key),
            },
    {
        match self.burner_stats.get(key) {
            Some(stats) => Some(*stats),
            None => None,
        }
    }

    /// The allow-list entry under `key`, if there is one.
    pub fn authorized_program(&self, key: &Pubkey) -> (entry: Option<AuthorizedProgram>)
        requires
            self.wf(),
        ensures
            match entry {
                Some(e) => self@.authorized_programs.contains_key(*key) && e
                    == self@.authorized_programs[*key],
                None => !self@.authorized_programs.contains_key(*key),
            },
    {
        match self.authorized_programs.get(key) {
            Some(entry) => Some(*entry),
            None => None,
        }
    }
}

} // verus!
