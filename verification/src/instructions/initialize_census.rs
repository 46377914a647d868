use vstd::prelude::*;
use crate::errors::CensusError;
use crate::state::{
    lemma_total_of_zeros, stored_len, text_len, Census, CensusView, BRACKETS, MAX_CENSUS_ID_LEN,
    MAX_DESCRIPTION_LEN, MAX_NAME_LEN,
};

verus! {

/// What the creation of a census works on.
#[derive(Clone, Debug)]
pub struct InitializeCensus {
    /// The record that the census is written to.
    pub census: Census,
    /// The signer of the request, who becomes the creator.
    pub creator: [u8; 32],
}

/// Why a census with these texts is not created, if it is not: the first
/// text that is too long, in the order identifier, name, description.
pub open spec fn refusal(census_id: Seq<char>, name: Seq<char>, description: Seq<char>) -> Option<
    CensusError,
> {
    if stored_len(census_id) > MAX_CENSUS_ID_LEN {
        Some(CensusError::CensusIdTooLong)
    } else if stored_len(name) > MAX_NAME_LEN {
        Some(CensusError::NameTooLong)
    } else if stored_len(description) > MAX_DESCRIPTION_LEN {
        Some(CensusError::DescriptionTooLong)
    } else {
        None
    }
}

/// The least age that a census asks for, where it may ask for none.
pub open spec fn least_age(min_age: Option<u8>) -> nat {
    match min_age {
        Some(age) => age as nat,
        None => 0,
    }
}

/// A census as it is created: open, with no members, no anchor, and the
/// clock as the time of both creation and last change.
pub open spec fn founded(
    census_id: Seq<char>,
    name: Seq<char>,
    description: Seq<char>,
    creator: Seq<u8>,
    enable_location: bool,
    min_age: Option<u8>,
    now: int,
) -> CensusView {
    CensusView {
        census_id,
        name,
        description,
        creator,
        created_at: now,
        active: true,
        enable_location,
        min_age: least_age(min_age),
        total_members: 0,
        merkle_root: Seq::new(32, |i: int| 0u8),
        ipfs_hash: Seq::empty(),
        age_distribution: Seq::new(BRACKETS as nat, |i: int| 0nat),
        continent_distribution: Seq::new(BRACKETS as nat, |i: int| 0nat),
        last_updated: now,
    }
}

/// What the creation of a census does: it writes the new census to the
/// record, or it names the first text that is too long and changes nothing.
pub open spec fn effect(
    before: InitializeCensus,
    after: InitializeCensus,
    census_id: Seq<char>,
    name: Seq<char>,
    description: Seq<char>,
    enable_location: bool,
    min_age: Option<u8>,
    now: int,
    outcome: Result<(), CensusError>,
) -> bool {
    match outcome {
        Ok(_) => {
            &&& refusal(census_id, name, description).is_none()
            &&& after.creator == before.creator
            &&& after.census@ == founded(
                census_id,
                name,
                description,
                before.creator@,
                enable_location,
                min_age,
                now,
            )
        },
        Err(error) => refusal(census_id, name, description) == Some(error) && after == before,
    }
}

/// A census as it is created is within its limits and its counters agree.
pub proof fn lemma_founded_consistent(
    census_id: Seq<char>,
    name: Seq<char>,
    description: Seq<char>,
    creator: Seq<u8>,
    enable_location: bool,
    min_age: Option<u8>,
    now: int,
)
    requires
        refusal(census_id, name, description).is_none(),
    ensures
        founded(census_id, name, description, creator, enable_location, min_age, now).consistent(),
        founded(
            census_id,
            name,
            description,
            creator,
            enable_location,
            min_age,
            now,
        ).within_limits(),
{
    let census = founded(census_id, name, description, creator, enable_location, min_age, now);
    lemma_total_of_zeros(census.age_distribution);
    lemma_total_of_zeros(census.continent_distribution);
    assert(vstd::utf8::encode_utf8(Seq::<char>::empty()).len() == 0) by {
        reveal_with_fuel(vstd::utf8::encode_utf8, 1);
    }
}

/// Creates a census.
pub fn handler(
    ctx: &mut InitializeCensus,
    census_id: String,
    name: String,
    description: String,
    enable_location: bool,
    min_age: Option<u8>,
    now: i64,
) -> (outcome: Result<(), CensusError>)
    ensures
        effect(
            *old(ctx),
            *final(ctx),
            census_id@,
            name@,
            description@,
            enable_location,
            min_age,
            now as int,
            outcome,
        ),
        outcome.is_ok() ==> final(ctx).census@.consistent() && final(ctx).census@.within_limits(),
{
    if text_len(&census_id) > MAX_CENSUS_ID_LEN {
        return Err(CensusError::CensusIdTooLong);
    }
    if text_len(&name) > MAX_NAME_LEN {
        return Err(CensusError::NameTooLong);
    }
    if text_len(&description) > MAX_DESCRIPTION_LEN {
        return Err(CensusError::DescriptionTooLong);
    }
    proof {
        lemma_founded_consistent(
            census_id@,
            name@,
            description@,
            ctx.creator@,
            enable_location,
            min_age,
            now as int,
        );
    }
    let least: u8 = match min_age {
        Some(age) => age,
        None => 0,
    };
    ctx.census = Census {
        census_id,
        name,
        description,
        creator: ctx.creator,
        created_at: now,
        active: true,
        enable_location,
        min_age: least,
        total_members: 0,
        merkle_root: [0u8; 32],
        ipfs_hash: String::new(),
        age_distribution: [0u64; 7],
        continent_distribution: [0u64; 7],
        last_updated: now,
    };
    proof {
        let made = founded(
            census_id@,
            name@,
            description@,
            ctx.creator@,
            enable_location,
            min_age,
            now as int,
        );
        assert(ctx.census@.merkle_root =~= made.merkle_root);
        assert(ctx.census@.age_distribution =~= made.age_distribution);
        assert(ctx.census@.continent_distribution =~= made.continent_distribution);
    }
    Ok(())
}

} // verus!
