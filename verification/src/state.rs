use vstd::prelude::*;

verus! {

/// Longest census identifier, in bytes.
pub const MAX_CENSUS_ID_LEN: usize = 32;

/// Longest census name, in bytes.
pub const MAX_NAME_LEN: usize = 64;

/// Longest census description, in bytes.
pub const MAX_DESCRIPTION_LEN: usize = 256;

/// Longest content pointer, in bytes.
pub const MAX_IPFS_HASH_LEN: usize = 64;

/// Number of age brackets, and of continents.
pub const BRACKETS: usize = 7;

/// The number of bytes that a text takes when stored.
pub open spec fn stored_len(text: Seq<char>) -> nat {
    vstd::utf8::encode_utf8(text).len()
}

/// Measures a text as it is stored.
pub fn text_len(text: &String) -> (len: usize)
    ensures
        len == stored_len(text@),
{
    text.as_str().as_bytes().len()
}

/// The sum of a row of counters.
pub open spec fn total(counters: Seq<nat>) -> nat
    decreases counters.len(),
{
    if counters.len() == 0 {
        0
    } else {
        total(counters.drop_last()) + counters.last()
    }
}

/// A row of machine counters as natural numbers.
pub open spec fn counters(row: Seq<u64>) -> Seq<nat> {
    Seq::new(row.len(), |i: int| row[i] as nat)
}

/// Whether every counter of the row is zero.
pub open spec fn all_zero(row: Seq<nat>) -> bool {
    forall|i: int| 0 <= i < row.len() ==> row[i] == 0
}

/// Counting one more in a slot of a row adds one to its sum.
pub proof fn lemma_total_after_increment(row: Seq<nat>, slot: int)
    requires
        0 <= slot < row.len(),
    ensures
        total(row.update(slot, row[slot] + 1)) == total(row) + 1,
    decreases row.len(),
{
    let next = row.update(slot, row[slot] + 1);
    let front = row.drop_last();
    if slot == row.len() - 1 {
        assert(next.drop_last() =~= front);
    } else {
        assert(next.drop_last() =~= front.update(slot, front[slot] + 1));
        lemma_total_after_increment(front, slot);
    }
}

/// A row of zeros sums to zero.
pub proof fn lemma_total_of_zeros(row: Seq<nat>)
    requires
        all_zero(row),
    ensures
        total(row) == 0,
    decreases row.len(),
{
    if row.len() > 0 {
        let front = row.drop_last();
        assert forall|i: int| 0 <= i < front.len() implies front[i] == 0 by {
            assert(front[i] == row[i]);
        }
        lemma_total_of_zeros(front);
    }
}

/// The seven age brackets.
#[derive(Clone, Copy, Debug, PartialEq, Eq, Structural)]
pub enum AgeRange {
    Range0To17,
    Range18To24,
    Range25To34,
    Range35To44,
    Range45To54,
    Range55To64,
    Range65Plus,
}

impl AgeRange {
    /// The slot of this bracket in an age distribution.
    pub open spec fn ordinal(self) -> nat {
        match self {
            AgeRange::Range0To17 => 0,
            AgeRange::Range18To24 => 1,
            AgeRange::Range25To34 => 2,
            AgeRange::Range35To44 => 3,
            AgeRange::Range45To54 => 4,
            AgeRange::Range55To64 => 5,
            AgeRange::Range65Plus => 6,
        }
    }

    /// The bracket whose slot is `value`, if there is one.
    pub fn from_u8(value: u8) -> (bracket: Option<Self>)
        ensures
            value < BRACKETS ==> bracket.is_some() && bracket.unwrap().ordinal() == value,
            value >= BRACKETS ==> bracket.is_none(),
    {
        match value {
            0 => Some(AgeRange::Range0To17),
            1 => Some(AgeRange::Range18To24),
            2 => Some(AgeRange::Range25To34),
            3 => Some(AgeRange::Range35To44),
            4 => Some(AgeRange::Range45To54),
            5 => Some(AgeRange::Range55To64),
            6 => Some(AgeRange::Range65Plus),
            _ => None,
        }
    }

    /// The slot of this bracket.
    pub fn index(&self) -> (slot: u8)
        ensures
            slot == self.ordinal(),
    {
        match self {
            AgeRange::Range0To17 => 0,
            AgeRange::Range18To24 => 1,
            AgeRange::Range25To34 => 2,
            AgeRange::Range35To44 => 3,
            AgeRange::Range45To54 => 4,
            AgeRange::Range55To64 => 5,
            AgeRange::Range65Plus => 6,
        }
    }
}

/// The seven continents.
#[derive(Clone, Copy, Debug, PartialEq, Eq, Structural)]
pub enum Continent {
    Africa,
    Asia,
    Europe,
    NorthAmerica,
    SouthAmerica,
    Oceania,
    Antarctica,
}

impl Continent {
    /// The slot of this continent in a continent distribution.
    pub open spec fn ordinal(self) -> nat {
        match self {
            Continent::Africa => 0,
            Continent::Asia => 1,
            Continent::Europe => 2,
            Continent::NorthAmerica => 3,
            Continent::SouthAmerica => 4,
            Continent::Oceania => 5,
            Continent::Antarctica => 6,
        }
    }

    /// The continent whose slot is `value`, if there is one.
    pub fn from_u8(value: u8) -> (continent: Option<Self>)
        ensures
            value < BRACKETS ==> continent.is_some() && continent.unwrap().ordinal() == value,
            value >= BRACKETS ==> continent.is_none(),
    {
        match value {
            0 => Some(Continent::Africa),
            1 => Some(Continent::Asia),
            2 => Some(Continent::Europe),
            3 => Some(Continent::NorthAmerica),
            4 => Some(Continent::SouthAmerica),
            5 => Some(Continent::Oceania),
            6 => Some(Continent::Antarctica),
            _ => None,
        }
    }

    /// The slot of this continent.
    pub fn index(&self) -> (slot: u8)
        ensures
            slot == self.ordinal(),
    {
        match self {
            Continent::Africa => 0,
            Continent::Asia => 1,
            Continent::Europe => 2,
            Continent::NorthAmerica => 3,
            Continent::SouthAmerica => 4,
            Continent::Oceania => 5,
            Continent::Antarctica => 6,
        }
    }
}

/// What a census is, as mathematics.
pub struct CensusView {
    pub census_id: Seq<char>,
    pub name: Seq<char>,
    pub description: Seq<char>,
    pub creator: Seq<u8>,
    pub created_at: int,
    pub active: bool,
    pub enable_location: bool,
    pub min_age: nat,
    pub total_members: nat,
    pub merkle_root: Seq<u8>,
    pub ipfs_hash: Seq<char>,
    pub age_distribution: Seq<nat>,
    pub continent_distribution: Seq<nat>,
    pub last_updated: int,
}

impl CensusView {
    /// The texts of the census fit their stored sizes.
    pub open spec fn within_limits(self) -> bool {
        &&& stored_len(self.census_id) <= MAX_CENSUS_ID_LEN
        &&& stored_len(self.name) <= MAX_NAME_LEN
        &&& stored_len(self.description) <= MAX_DESCRIPTION_LEN
        &&& stored_len(self.ipfs_hash) <= MAX_IPFS_HASH_LEN
    }

    /// The counters agree: every member is counted once in an age bracket, and
    /// once on a continent where locations are tracked; where they are not, the
    /// continent counters are all zero.
    pub open spec fn consistent(self) -> bool {
        &&& self.age_distribution.len() == BRACKETS
        &&& self.continent_distribution.len() == BRACKETS
        &&& total(self.age_distribution) == self.total_members
        &&& if self.enable_location {
            total(self.continent_distribution) == self.total_members
        } else {
            all_zero(self.continent_distribution)
        }
    }

    /// The figures that a reader of the census is given.
    pub open spec fn stats(self) -> CensusStatsView {
        CensusStatsView {
            total_members: self.total_members,
            age_distribution: self.age_distribution,
            continent_distribution: self.continent_distribution,
            last_updated: self.last_updated,
        }
    }
}

/// One eligibility campaign: its settings, its state and its running figures.
#[derive(Clone, Debug, PartialEq, Eq)]
pub struct Census {
    /// The identifier, at most 32 bytes, fixed at creation.
    pub census_id: String,
    /// A name for readers, at most 64 bytes.
    pub name: String,
    /// A description, at most 256 bytes.
    pub description: String,
    /// The public key of the creator, who alone administers the census.
    pub creator: [u8; 32],
    /// The clock when the census was created.
    pub created_at: i64,
    /// Whether registrations are accepted.
    pub active: bool,
    /// Whether continents are counted.
    pub enable_location: bool,
    /// The least age asked for; 0 asks for none.
    pub min_age: u8,
    /// The number of accepted registrations.
    pub total_members: u64,
    /// The root of the membership tree that is kept elsewhere.
    pub merkle_root: [u8; 32],
    /// Where that tree is kept, at most 64 bytes.
    pub ipfs_hash: String,
    /// Members by age: 0-17, 18-24, 25-34, 35-44, 45-54, 55-64, 65 and over.
    pub age_distribution: [u64; 7],
    /// Members by continent: Africa, Asia, Europe, North America, South
    /// America, Oceania, Antarctica.
    pub continent_distribution: [u64; 7],
    /// The clock at the last change.
    pub last_updated: i64,
}

impl View for Census {
    type V = CensusView;

    open spec fn view(&self) -> CensusView {
        CensusView {
            census_id: self.census_id@,
            name: self.name@,
            description: self.description@,
            creator: self.creator@,
            created_at: self.created_at as int,
            active: self.active,
            enable_location: self.enable_location,
            min_age: self.min_age as nat,
            total_members: self.total_members as nat,
            merkle_root: self.merkle_root@,
            ipfs_hash: self.ipfs_hash@,
            age_distribution: counters(self.age_distribution@),
            continent_distribution: counters(self.continent_distribution@),
            last_updated: self.last_updated as int,
        }
    }
}

impl Census {
    /// The record before anything was written to it.
    pub open spec fn blank() -> CensusView {
        CensusView {
            census_id: Seq::empty(),
            name: Seq::empty(),
            description: Seq::empty(),
            creator: Seq::new(32, |i: int| 0u8),
            created_at: 0,
            active: false,
            enable_location: false,
            min_age: 0,
            total_members: 0,
            merkle_root: Seq::new(32, |i: int| 0u8),
            ipfs_hash: Seq::empty(),
            age_distribution: Seq::new(BRACKETS as nat, |i: int| 0nat),
            continent_distribution: Seq::new(BRACKETS as nat, |i: int| 0nat),
            last_updated: 0,
        }
    }
}

impl Default for Census {
    fn default() -> (census: Census)
        ensures
            census@ == Census::blank(),
    {
        let census = Census {
            census_id: String::new(),
            name: String::new(),
            description: String::new(),
            creator: [0u8; 32],
            created_at: 0,
            active: false,
            enable_location: false,
            min_age: 0,
            total_members: 0,
            merkle_root: [0u8; 32],
            ipfs_hash: String::new(),
            age_distribution: [0u64; 7],
            continent_distribution: [0u64; 7],
            last_updated: 0,
        };
        assert(census@.creator =~= Census::blank().creator);
        assert(census@.merkle_root =~= Census::blank().merkle_root);
        assert(census@.age_distribution =~= Census::blank().age_distribution);
        assert(census@.continent_distribution =~= Census::blank().continent_distribution);
        census
    }
}

/// What identifies a registration: the census, then the nullifier.
pub type RegistryKey = (Seq<char>, Seq<u8>);

/// What a registration record is, as mathematics.
pub struct NullifierEntryView {
    pub nullifier: Seq<u8>,
    pub census_id: Seq<char>,
    pub timestamp: int,
    pub index: nat,
}

impl NullifierEntryView {
    /// The key under which the record is kept.
    pub open spec fn key(self) -> RegistryKey {
        (self.census_id, self.nullifier)
    }
}

/// The record of one accepted registration. It is written once and never
/// changed: that it exists is what rules out a second registration.
#[derive(Clone, Debug, PartialEq, Eq)]
pub struct NullifierEntry {
    /// The nullifier that was claimed.
    pub nullifier: [u8; 32],
    /// The census in which it was claimed.
    pub census_id: String,
    /// The clock at registration.
    pub timestamp: i64,
    /// The number of members that the census had before this one.
    pub index: u64,
}

impl View for NullifierEntry {
    type V = NullifierEntryView;

    open spec fn view(&self) -> NullifierEntryView {
        NullifierEntryView {
            nullifier: self.nullifier@,
            census_id: self.census_id@,
            timestamp: self.timestamp as int,
            index: self.index as nat,
        }
    }
}

/// What a snapshot of a census is, as mathematics.
pub struct CensusStatsView {
    pub total_members: nat,
    pub age_distribution: Seq<nat>,
    pub continent_distribution: Seq<nat>,
    pub last_updated: int,
}

/// A snapshot of the figures of a census.
#[derive(Clone, Copy, Debug, PartialEq, Eq)]
pub struct CensusStats {
    pub total_members: u64,
    pub age_distribution: [u64; 7],
    pub continent_distribution: [u64; 7],
    pub last_updated: i64,
}

impl View for CensusStats {
    type V = CensusStatsView;

    open spec fn view(&self) -> CensusStatsView {
        CensusStatsView {
            total_members: self.total_members as nat,
            age_distribution: counters(self.age_distribution@),
            continent_distribution: counters(self.continent_distribution@),
            last_updated: self.last_updated as int,
        }
    }
}

impl Default for CensusStats {
    fn default() -> (stats: CensusStats)
        ensures
            stats@ == Census::blank().stats(),
    {
        let stats = CensusStats {
            total_members: 0,
            age_distribution: [0u64; 7],
            continent_distribution: [0u64; 7],
            last_updated: 0,
        };
        assert(stats@.age_distribution =~= Census::blank().age_distribution);
        assert(stats@.continent_distribution =~= Census::blank().continent_distribution);
        stats
    }
}

} // verus!
