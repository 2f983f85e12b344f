//! A store of records of one kind, each under its address. A record is put
//! under an address once and may be replaced there; it is never removed.

use vstd::prelude::*;
use crate::pubkey::Pubkey;

verus! {

/// Records of one kind, each under its address.
#[derive(Clone, Debug)]
pub struct Records<T> {
    entries: Vec<(Pubkey, T)>,
}

/// Whether some entry of `entries` stands under `key`.
pub open spec fn has_key<T>(entries: Seq<(Pubkey, T)>, key: Pubkey) -> bool {
    exists|i: int| 0 <= i < entries.len() && (#[trigger] entries[i]).0 == key
}

/// Position of an entry of `entries` that stands under `key`.
pub open spec fn position<T>(entries: Seq<(Pubkey, T)>, key: Pubkey) -> int {
    choose|i: int| 0 <= i < entries.len() && (#[trigger] entries[i]).0 == key
}

/// No two entries stand under the same address.
pub open spec fn distinct_keys<T>(entries: Seq<(Pubkey, T)>) -> bool {
    forall|i: int, j: int|
        0 <= i < j < entries.len() ==> (#[trigger] entries[i]).0 != (#[trigger] entries[j]).0
}

/// The entries as a map from address to record.
pub open spec fn as_map<T>(entries: Seq<(Pubkey, T)>) -> Map<Pubkey, T> {
    Map::new(|key: Pubkey| has_key(entries, key), |key: Pubkey| entries[position(entries, key)].1)
}

/// Where keys are distinct, the map holds under the key of each entry the
/// record of that entry.
pub proof fn lemma_as_map_at<T>(entries: Seq<(Pubkey, T)>, i: int)
    requires
        distinct_keys(entries),
        0 <= i < entries.len(),
    ensures
        as_map(entries).contains_key(entries[i].0),
        as_map(entries)[entries[i].0] == entries[i].1,
{
    let key = entries[i].0;
    assert(has_key(entries, key));
    let p = position(entries, key);
    assert(0 <= p < entries.len() && entries[p].0 == key);
    if p < i {
        assert(entries[p].0 != entries[i].0);
    } else if i < p {
        assert(entries[i].0 != entries[p].0);
    }
}

impl<T> View for Records<T> {
    type V = Map<Pubkey, T>;

    closed spec fn view(&self) -> Map<Pubkey, T> {
        as_map(self.entries@)
    }
}

impl<T> Records<T> {
    /// No two records stand under the same address.
    pub closed spec fn wf(&self) -> bool {
        distinct_keys(self.entries@)
    }

    /// The store that holds nothing.
    pub fn new() -> (records: Records<T>)
        ensures
            records.wf(),
            records@ == Map::<Pubkey, T>::empty(),
    {
        let records = Records { entries: Vec::new() };
        assert(records@ =~= Map::<Pubkey, T>::empty());
        records
    }

    fn find(&self, key: &Pubkey) -> (at: Option<usize>)
        requires
            self.wf(),
        ensures
            match at {
                Some(i) => {
                    &&& i < self.entries@.len()
                    &&& self.entries@[i as int].0 == *key
                    &&& self@.contains_key(*key)
                    &&& self@[*key] == self.entries@[i as int].1
                },
                None => {
                    &&& !self@.contains_key(*key)
                    &&& forall|j: int|
                        0 <= j < self.entries@.len() ==> (#[trigger] self.entries@[j]).0 != *key
                },
            },
    {
        let mut i: usize = 0;
        while i < self.entries.len()
            invariant
                self.wf(),
                i <= self.entries@.len(),
                forall|j: int| 0 <= j < i ==> (#[trigger] self.entries@[j]).0 != *key,
            decreases self.entries@.len() - i,
        {
            if self.entries[i].0 == *key {
                proof {
                    lemma_as_map_at(self.entries@, i as int);
                }
                return Some(i);
            }
            i = i + 1;
        }
        None
    }

    /// The record under `key`, if there is one.
    pub fn get(&self, key: &Pubkey) -> (found: Option<&T>)
        requires
            self.wf(),
        ensures
            match found {
                Some(record) => self@.contains_key(*key) && *record == self@[*key],
                None => !self@.contains_key(*key),
            },
    {
        match self.find(key) {
            Some(i) => Some(&self.entries[i].1),
            None => None,
        }
    }

    /// Whether a record stands under `key`.
    pub fn contains(&self, key: &Pubkey) -> (held: bool)
        requires
            self.wf(),
        ensures
            held == self@.contains_key(*key),
    {
        self.find(key).is_some()
    }

    /// Puts `record` under `key`, in place of what stood there, if anything.
    pub fn insert(&mut self, key: Pubkey, record: T)
        requires
            old(self).wf(),
        ensures
            final(self).wf(),
            final(self)@ == old(self)@.insert(key, record),
    {
        let ghost before = self.entries@;
        match self.find(&key) {
            Some(i) => {
                self.entries.set(i, (key, record));
                let ghost after = self.entries@;
                assert(distinct_keys(after)) by {
                    assert forall|a: int, b: int| 0 <= a < b < after.len() implies (
                    #[trigger] after[a]).0 != (#[trigger] after[b]).0 by {
                        assert(after[a].0 == before[a].0);
                        assert(after[b].0 == before[b].0);
                    }
                }
                assert(as_map(after) =~= as_map(before).insert(key, record)) by {
                    assert forall|k: Pubkey| has_key(after, k) == has_key(before, k) by {
                        if has_key(before, k) {
                            let p = position(before, k);
                            assert(after[p].0 == k);
                        }
                        if has_key(after, k) {
                            let p = position(after, k);
                            assert(before[p].0 == k);
                        }
                    }
                    assert forall|k: Pubkey| has_key(after, k) implies as_map(after)[k] == as_map(
                        before,
                    ).insert(key, record)[k] by {
                        let p = position(after, k);
                        lemma_as_map_at(after, p);
                        if k != key {
                            assert(before[p].0 == k);
                            lemma_as_map_at(before, p);
                        } else {
                            lemma_as_map_at(after, i as int);
                        }
                    }
                }
            },
            None => {
                self.entries.push((key, record));
                let ghost after = self.entries@;
                assert(distinct_keys(after)) by {
                    assert forall|a: int, b: int| 0 <= a < b < after.len() implies (
                    #[trigger] after[a]).0 != (#[trigger] after[b]).0 by {
                        if b < before.len() {
                            assert(after[a] == before[a]);
                            assert(after[b] == before[b]);
                        } else {
                            assert(after[a] == before[a]);
                        }
                    }
                }
                assert(as_map(after) =~= as_map(before).insert(key, record)) by {
                    assert forall|k: Pubkey| has_key(after, k) == (has_key(before, k) || k
                        == key) by {
                        if has_key(before, k) {
                            let p = position(before, k);
                            assert(after[p] == before[p]);
                        }
                        if k == key {
                            assert(after[before.len() as int].0 == key);
                        }
                        if has_key(after, k) && k != key {
                            let p = position(after, k);
                            assert(p < before.len());
                            assert(after[p] == before[p]);
                        }
                    }
                    assert forall|k: Pubkey| has_key(after, k) implies as_map(after)[k] == as_map(
                        before,
                    ).insert(key, record)[k] by {
                        let p = position(after, k);
                        lemma_as_map_at(after, p);
                        if k != key {
                            assert(p < before.len());
                            assert(after[p] == before[p]);
                            lemma_as_map_at(before, p);
                        } else {
                            lemma_as_map_at(after, before.len() as int);
                        }
                    }
                }
            },
        }
    }

    /// How many records the store holds.
    pub fn len(&self) -> (count: usize)
        requires
            self.wf(),
        ensures
            count == self@.dom().len(),
            self@.dom().finite(),
    {
        proof {
            lemma_as_map_len(self.entries@);
        }
        self.entries.len()
    }
}

/// Where keys are distinct, the map has as many keys as there are entries.
pub proof fn lemma_as_map_len<T>(entries: Seq<(Pubkey, T)>)
    requires
        distinct_keys(entries),
    ensures
        as_map(entries).dom().finite(),
        as_map(entries).dom().len() == entries.len(),
    decreases entries.len(),
{
    if entries.len() == 0 {
        assert(as_map(entries).dom() =~= Set::<Pubkey>::empty());
    } else {
        let front = entries.drop_last();
        let last = entries.last();
        assert forall|i: int, j: int| 0 <= i < j < front.len() implies (#[trigger] front[i]).0 != (
        #[trigger] front[j]).0 by {
            assert(front[i] == entries[i]);
            assert(front[j] == entries[j]);
        }
        lemma_as_map_len(front);
        assert(!has_key(front, last.0)) by {
            if has_key(front, last.0) {
                let p = position(front, last.0);
                assert(front[p] == entries[p]);
                assert(entries[p].0 != entries[entries.len() - 1].0);
            }
        }
        assert(as_map(entries).dom() =~= as_map(front).dom().insert(last.0)) by {
            assert forall|k: Pubkey| has_key(entries, k) == (has_key(front, k) || k
                == last.0) by {
                if has_key(front, k) {
                    let p = position(front, k);
                    assert(front[p] == entries[p]);
                }
                if k == last.0 {
                    assert(entries[entries.len() - 1].0 == k);
                }
                if has_key(entries, k) && k != last.0 {
                    let p = position(entries, k);
                    assert(p < front.len());
                    assert(front[p] == entries[p]);
                }
            }
        }
    }
}

} // verus!
