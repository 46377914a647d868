use vstd::prelude::*;
use crate::errors::CensusError;
use crate::state::{NullifierEntry, NullifierEntryView, RegistryKey};
use crate::utils::same_bytes;

verus! {

/// The records of a row of entries, by key.
pub open spec fn recorded(entries: Seq<NullifierEntryView>) -> Map<RegistryKey, NullifierEntryView>
    decreases entries.len(),
{
    if entries.len() == 0 {
        Map::empty()
    } else {
        recorded(entries.drop_last()).insert(entries.last().key(), entries.last())
    }
}

/// Whether no two entries of the row have the same key.
pub open spec fn distinct_keys(entries: Seq<NullifierEntryView>) -> bool {
    forall|i: int, j: int|
        0 <= i < j < entries.len() ==> (#[trigger] entries[i]).key() != (#[trigger] entries[j]).key()
}

/// A key is recorded exactly when some entry of the row has it, and every
/// record is an entry of the row.
pub proof fn lemma_recorded_keys(entries: Seq<NullifierEntryView>, key: RegistryKey)
    ensures
        recorded(entries).dom().contains(key) <==> exists|i: int|
            0 <= i < entries.len() && (#[trigger] entries[i]).key() == key,
        recorded(entries).dom().contains(key) ==> recorded(entries)[key].key() == key,
    decreases entries.len(),
{
    if entries.len() > 0 {
        let front = entries.drop_last();
        lemma_recorded_keys(front, key);
        if recorded(entries).dom().contains(key) {
            if entries.last().key() == key {
                assert(entries[entries.len() - 1].key() == key);
            } else {
                let i = choose|i: int| 0 <= i < front.len() && (#[trigger] front[i]).key() == key;
                assert(entries[i].key() == key);
            }
        }
        if exists|i: int| 0 <= i < entries.len() && (#[trigger] entries[i]).key() == key {
            let i = choose|i: int| 0 <= i < entries.len() && (#[trigger] entries[i]).key() == key;
            if i < entries.len() - 1 {
                assert(front[i].key() == key);
            }
        }
    }
}

/// A row of entries with distinct keys holds as many records as entries.
pub proof fn lemma_recorded_len(entries: Seq<NullifierEntryView>)
    requires
        distinct_keys(entries),
    ensures
        recorded(entries).dom().finite(),
        recorded(entries).dom().len() == entries.len(),
    decreases entries.len(),
{
    if entries.len() > 0 {
        let front = entries.drop_last();
        assert forall|i: int, j: int| 0 <= i < j < front.len() implies (#[trigger] front[i]).key()
            != (#[trigger] front[j]).key() by {
            assert(entries[i].key() != entries[j].key());
        }
        lemma_recorded_len(front);
        lemma_recorded_keys(front, entries.last().key());
        if recorded(front).dom().contains(entries.last().key()) {
            let i = choose|i: int|
                0 <= i < front.len() && (#[trigger] front[i]).key() == entries.last().key();
            assert(entries[i].key() != entries[entries.len() - 1].key());
        }
    }
}

/// The index of nullifiers that were claimed, over all censuses. A nullifier
/// can be claimed once in each census.
#[derive(Debug)]
pub struct NullifierRegistry {
    entries: Vec<NullifierEntry>,
}

impl View for NullifierRegistry {
    type V = Map<RegistryKey, NullifierEntryView>;

    closed spec fn view(&self) -> Map<RegistryKey, NullifierEntryView> {
        recorded(self.entries@.map_values(|e: NullifierEntry| e@))
    }
}

impl Clone for NullifierRegistry {
    /// A registry with the same records.
    fn clone(&self) -> (copy: Self)
        ensures
            copy@ == self@,
    {
        let mut entries: Vec<NullifierEntry> = Vec::new();
        let mut i: usize = 0;
        while i < self.entries.len()
            invariant
                i <= self.entries.len(),
                entries@.len() == i,
                forall|j: int| 0 <= j < i ==> (#[trigger] entries@[j])@ == self.entries@[j]@,
            decreases self.entries.len() - i,
        {
            let entry = &self.entries[i];
            entries.push(
                NullifierEntry {
                    nullifier: entry.nullifier,
                    census_id: entry.census_id.clone(),
                    timestamp: entry.timestamp,
                    index: entry.index,
                },
            );
            i += 1;
        }
        proof {
            use_type_invariant(self);
            assert(entries@.map_values(|e: NullifierEntry| e@) =~= self.rows());
        }
        NullifierRegistry { entries }
    }
}

impl NullifierRegistry {
    /// The rows behind the registry.
    spec fn rows(&self) -> Seq<NullifierEntryView> {
        self.entries@.map_values(|e: NullifierEntry| e@)
    }

    #[verifier::type_invariant]
    spec fn no_key_twice(&self) -> bool {
        distinct_keys(self.rows())
    }

    /// A registry in which nothing is claimed.
    pub fn new() -> (registry: Self)
        ensures
            registry@ == Map::<RegistryKey, NullifierEntryView>::empty(),
    {
        let registry = NullifierRegistry { entries: Vec::new() };
        assert(registry.rows() =~= Seq::empty());
        registry
    }

    /// The number of registrations on record.
    pub fn len(&self) -> (count: usize)
        ensures
            self@.dom().finite(),
            count == self@.dom().len(),
    {
        proof {
            use_type_invariant(self);
            lemma_recorded_len(self.rows());
        }
        self.entries.len()
    }

    /// Where the entry for a key stands among the rows, if it is on record.
    fn position(&self, census_id: &String, nullifier: &[u8; 32]) -> (place: Option<usize>)
        ensures
            match place {
                Some(i) => i < self.rows().len() && self.rows()[i as int].key() == (
                    census_id@,
                    nullifier@,
                ) && self.entries@[i as int]@ == self.rows()[i as int],
                None => !self@.dom().contains((census_id@, nullifier@)),
            },
            place.is_some() ==> self@.dom().contains((census_id@, nullifier@)),
    {
        let ghost key = (census_id@, nullifier@);
        let mut i: usize = 0;
        while i < self.entries.len()
            invariant
                i <= self.entries.len(),
                key == (census_id@, nullifier@),
                forall|j: int| 0 <= j < i ==> (#[trigger] self.rows()[j]).key() != key,
            decreases self.entries.len() - i,
        {
            let entry = &self.entries[i];
            if entry.census_id == *census_id && same_bytes(&entry.nullifier, nullifier) {
                proof {
                    assert(self.rows()[i as int].key() == key);
                    lemma_recorded_keys(self.rows(), key);
                }
                return Some(i);
            }
            i += 1;
        }
        proof {
            lemma_recorded_keys(self.rows(), key);
        }
        None
    }

    /// Whether the nullifier was claimed in the census.
    pub fn contains(&self, census_id: &String, nullifier: &[u8; 32]) -> (claimed: bool)
        ensures
            claimed == self@.dom().contains((census_id@, nullifier@)),
    {
        self.position(census_id, nullifier).is_some()
    }

    /// Claims the nullifier in the census, unless it was claimed there before.
    /// The new record holds the clock and the ordinal that were handed in, and
    /// the ordinal is handed back.
    pub fn claim(
        &mut self,
        census_id: &String,
        nullifier: [u8; 32],
        timestamp: i64,
        index: u64,
    ) -> (outcome: Result<u64, CensusError>)
        ensures
            old(self)@.dom().contains((census_id@, nullifier@)) ==> outcome == Err::<
                u64,
                CensusError,
            >(CensusError::DuplicateNullifier) && final(self)@ == old(self)@,
            !old(self)@.dom().contains((census_id@, nullifier@)) ==> outcome == Ok::<
                u64,
                CensusError,
            >(index) && final(self)@ == old(self)@.insert(
                (census_id@, nullifier@),
                NullifierEntryView {
                    nullifier: nullifier@,
                    census_id: census_id@,
                    timestamp: timestamp as int,
                    index: index as nat,
                },
            ),
    {
        if self.position(census_id, &nullifier).is_some() {
            return Err(CensusError::DuplicateNullifier);
        }
        let entry = NullifierEntry { nullifier, census_id: census_id.clone(), timestamp, index };
        let ghost before = self.rows();
        let ghost after = before.push(entry@);
        proof {
            use_type_invariant(&*self);
            assert(after.drop_last() =~= before);
            assert(self.entries@.push(entry).map_values(|e: NullifierEntry| e@) =~= after);
            assert forall|i: int, j: int| 0 <= i < j < after.len() implies (#[trigger] after[i]).key()
                != (#[trigger] after[j]).key() by {
                if j == after.len() - 1 {
                    lemma_recorded_keys(before, entry@.key());
                    assert(before[i].key() != entry@.key());
                } else {
                    assert(before[i].key() != before[j].key());
                }
            }
            assert(Seq::<NullifierEntry>::empty().map_values(|e: NullifierEntry| e@) =~= Seq::<
                NullifierEntryView,
            >::empty());
        }
        let mut entries: Vec<NullifierEntry> = Vec::new();
        core::mem::swap(&mut self.entries, &mut entries);
        entries.push(entry);
        self.entries = entries;
        Ok(index)
    }

    /// The record of the nullifier in the census, if it was claimed there.
    pub fn get(&self, census_id: &String, nullifier: &[u8; 32]) -> (found: Option<NullifierEntry>)
        ensures
            match found {
                Some(entry) => self@.dom().contains((census_id@, nullifier@)) && entry@ == self@[(
                    census_id@,
                    nullifier@,
                )],
                None => !self@.dom().contains((census_id@, nullifier@)),
            },
    {
        match self.position(census_id, nullifier) {
            Some(i) => {
                let entry = &self.entries[i];
                proof {
                    use_type_invariant(self);
                    lemma_recorded_at(self.rows(), i as int);
                }
                Some(
                    NullifierEntry {
                        nullifier: entry.nullifier,
                        census_id: entry.census_id.clone(),
                        timestamp: entry.timestamp,
                        index: entry.index,
                    },
                )
            },
            None => None,
        }
    }
}

/// In a row with distinct keys, the record under the key of an entry is that entry.
pub proof fn lemma_recorded_at(entries: Seq<NullifierEntryView>, i: int)
    requires
        distinct_keys(entries),
        0 <= i < entries.len(),
    ensures
        recorded(entries).dom().contains(entries[i].key()),
        recorded(entries)[entries[i].key()] == entries[i],
    decreases entries.len(),
{
    let front = entries.drop_last();
    if i < entries.len() - 1 {
        assert forall|a: int, b: int| 0 <= a < b < front.len() implies (#[trigger] front[a]).key()
            != (#[trigger] front[b]).key() by {
            assert(entries[a].key() != entries[b].key());
        }
        lemma_recorded_at(front, i);
        assert(entries[i].key() != entries[entries.len() - 1].key());
    }
}

} // verus!
