use vstd::prelude::*;
use crate::errors::CensusError;
use crate::groth16::{
    accepts, PublicSignals, PublicSignalsView, VerifyingKey, VerifyingKeyView, PROOF_BYTES,
};
use crate::registry::NullifierRegistry;
use crate::state::{
    lemma_total_after_increment, Census, CensusView, NullifierEntryView, RegistryKey, BRACKETS,
};
use crate::utils::{time_distance, validate_timestamp, verify_groth16_proof, TIMESTAMP_TOLERANCE};

verus! {

/// What a registration works on.
#[derive(Clone, Debug)]
pub struct SubmitProof {
    /// The census that is joined.
    pub census: Census,
    /// The nullifiers that were claimed so far.
    pub registry: NullifierRegistry,
    /// The key that proofs for this census are checked against.
    pub verifying_key: VerifyingKey,
}

/// What a registration works on, as mathematics.
pub struct SubmitProofView {
    pub census: CensusView,
    pub registry: Map<RegistryKey, NullifierEntryView>,
    pub verifying_key: VerifyingKeyView,
}

impl View for SubmitProof {
    type V = SubmitProofView;

    open spec fn view(&self) -> SubmitProofView {
        SubmitProofView {
            census: self.census@,
            registry: self.registry@,
            verifying_key: self.verifying_key@,
        }
    }
}

/// What a registration asks, and when.
pub struct Registration {
    pub nullifier: Seq<u8>,
    pub age_range: u8,
    pub continent: u8,
    pub proof: Seq<u8>,
    pub timestamp: int,
    pub now: int,
}

impl SubmitProofView {
    /// Why the registration is turned down in this state, if it is.
    pub open spec fn refuses(self, request: Registration) -> Option<CensusError> {
        refusal(
            self.census,
            self.registry,
            self.verifying_key,
            request.nullifier,
            request.age_range,
            request.continent,
            request.proof,
            request.timestamp,
            request.now,
        )
    }

    /// The state after the registration was asked for: the member counted and
    /// the nullifier on record, or, where it is turned down, the same state.
    pub open spec fn after(self, request: Registration) -> SubmitProofView {
        if self.refuses(request).is_none() {
            SubmitProofView {
                census: counted(self.census, request.age_range, request.continent, request.now),
                registry: entered(self.registry, self.census, request.nullifier, request.now),
                verifying_key: self.verifying_key,
            }
        } else {
            self
        }
    }
}

/// The top of a counter's range.
pub open spec fn counter_limit() -> nat {
    u64::MAX as nat
}

/// The statement that a registration has to prove.
pub open spec fn statement(
    census: CensusView,
    nullifier: Seq<u8>,
    age_range: u8,
    continent: u8,
) -> PublicSignalsView {
    PublicSignalsView {
        nullifier,
        age_bracket: age_range,
        continent,
        census_commitment: census.merkle_root,
    }
}

/// Why a registration is turned down, if it is: the first of the checks that
/// fails, from the cheapest to the dearest. The proof is checked before the
/// nullifier is looked up, so that a bad proof never takes a nullifier.
pub open spec fn refusal(
    census: CensusView,
    registry: Map<RegistryKey, NullifierEntryView>,
    vk: VerifyingKeyView,
    nullifier: Seq<u8>,
    age_range: u8,
    continent: u8,
    proof: Seq<u8>,
    timestamp: int,
    now: int,
) -> Option<CensusError> {
    if !census.active {
        Some(CensusError::CensusInactive)
    } else if time_distance(timestamp, now) > TIMESTAMP_TOLERANCE {
        Some(CensusError::InvalidTimestamp)
    } else if age_range >= BRACKETS {
        Some(CensusError::InvalidAgeRange)
    } else if census.min_age > 0 && age_range == 0 {
        Some(CensusError::AgeRequirementNotMet)
    } else if continent >= BRACKETS {
        Some(CensusError::InvalidContinent)
    } else if proof.len() < PROOF_BYTES {
        Some(CensusError::InvalidProof)
    } else if !accepts(
        vk,
        proof.subrange(0, PROOF_BYTES as int),
        statement(census, nullifier, age_range, continent),
    ) {
        Some(CensusError::ProofVerificationFailed)
    } else if registry.dom().contains((census.census_id, nullifier)) {
        Some(CensusError::DuplicateNullifier)
    } else if census.total_members >= counter_limit() || census.age_distribution[age_range as int]
        >= counter_limit() || (census.enable_location
        && census.continent_distribution[continent as int] >= counter_limit()) {
        Some(CensusError::ArithmeticOverflow)
    } else {
        None
    }
}

/// A census after one more member was counted at `now`: one more in all, one
/// more in the age bracket and, where locations are tracked, one more on the
/// continent.
pub open spec fn counted(census: CensusView, age_range: u8, continent: u8, now: int) -> CensusView {
    CensusView {
        total_members: census.total_members + 1,
        age_distribution: census.age_distribution.update(
            age_range as int,
            census.age_distribution[age_range as int] + 1,
        ),
        continent_distribution: if census.enable_location {
            census.continent_distribution.update(
                continent as int,
                census.continent_distribution[continent as int] + 1,
            )
        } else {
            census.continent_distribution
        },
        last_updated: now,
        ..census
    }
}

/// The records after the nullifier was claimed at `now` by the next member of
/// the census: the member's ordinal is the number of members before.
pub open spec fn entered(
    registry: Map<RegistryKey, NullifierEntryView>,
    census: CensusView,
    nullifier: Seq<u8>,
    now: int,
) -> Map<RegistryKey, NullifierEntryView> {
    registry.insert(
        (census.census_id, nullifier),
        NullifierEntryView {
            nullifier,
            census_id: census.census_id,
            timestamp: now,
            index: census.total_members,
        },
    )
}

/// What a registration does: it counts the member, records the nullifier and
/// hands back the member's ordinal, or it names the first check that failed
/// and changes nothing.
pub open spec fn effect(
    before: SubmitProof,
    after: SubmitProof,
    nullifier: Seq<u8>,
    age_range: u8,
    continent: u8,
    proof: Seq<u8>,
    timestamp: int,
    now: int,
    outcome: Result<u64, CensusError>,
) -> bool {
    let refused = refusal(
        before.census@,
        before.registry@,
        before.verifying_key@,
        nullifier,
        age_range,
        continent,
        proof,
        timestamp,
        now,
    );
    match outcome {
        Ok(index) => {
            &&& refused.is_none()
            &&& index == before.census@.total_members
            &&& after.census@ == counted(before.census@, age_range, continent, now)
            &&& after.registry@ == entered(before.registry@, before.census@, nullifier, now)
            &&& after.verifying_key == before.verifying_key
        },
        Err(error) => refused == Some(error) && after == before,
    }
}

/// Counting a member keeps the counters in agreement.
pub proof fn lemma_counted_consistent(census: CensusView, age_range: u8, continent: u8, now: int)
    requires
        census.consistent(),
        age_range < BRACKETS,
        continent < BRACKETS,
    ensures
        counted(census, age_range, continent, now).consistent(),
{
    lemma_total_after_increment(census.age_distribution, age_range as int);
    if census.enable_location {
        lemma_total_after_increment(census.continent_distribution, continent as int);
    }
}

/// Registers a member: checks the request, the proof and the nullifier, then
/// counts the member and records the nullifier.
pub fn handler(
    ctx: &mut SubmitProof,
    nullifier_hash: [u8; 32],
    age_range: u8,
    continent: u8,
    proof_data: Vec<u8>,
    timestamp: i64,
    now: i64,
) -> (outcome: Result<u64, CensusError>)
    ensures
        effect(
            *old(ctx),
            *final(ctx),
            nullifier_hash@,
            age_range,
            continent,
            proof_data@,
            timestamp as int,
            now as int,
            outcome,
        ),
        final(ctx)@ == old(ctx)@.after(
            Registration {
                nullifier: nullifier_hash@,
                age_range,
                continent,
                proof: proof_data@,
                timestamp: timestamp as int,
                now: now as int,
            },
        ),
        old(ctx).census@.consistent() ==> final(ctx).census@.consistent(),
        old(ctx).census@.within_limits() ==> final(ctx).census@.within_limits(),
{
    if !ctx.census.active {
        return Err(CensusError::CensusInactive);
    }
    if !validate_timestamp(timestamp, now) {
        return Err(CensusError::InvalidTimestamp);
    }
    if age_range > 6 {
        return Err(CensusError::InvalidAgeRange);
    }
    if ctx.census.min_age > 0 && age_range < 1 {
        return Err(CensusError::AgeRequirementNotMet);
    }
    if continent > 6 {
        return Err(CensusError::InvalidContinent);
    }
    let signals = PublicSignals {
        nullifier: nullifier_hash,
        age_bracket: age_range,
        continent,
        census_commitment: ctx.census.merkle_root,
    };
    assert(signals@ == statement(ctx.census@, nullifier_hash@, age_range, continent));
    match verify_groth16_proof(proof_data.as_slice(), &signals, &ctx.verifying_key) {
        Err(error) => {
            return Err(error);
        },
        Ok(accepted) => {
            if !accepted {
                return Err(CensusError::ProofVerificationFailed);
            }
        },
    }
    let census_id = ctx.census.census_id.clone();
    if ctx.registry.contains(&census_id, &nullifier_hash) {
        return Err(CensusError::DuplicateNullifier);
    }
    let index: u64 = ctx.census.total_members;
    let mut ages: [u64; 7] = ctx.census.age_distribution;
    let mut continents: [u64; 7] = ctx.census.continent_distribution;
    let members = match index.checked_add(1) {
        Some(members) => members,
        None => {
            return Err(CensusError::ArithmeticOverflow);
        },
    };
    let age_slot: usize = age_range as usize;
    ages[age_slot] = match ages[age_slot].checked_add(1) {
        Some(count) => count,
        None => {
            return Err(CensusError::ArithmeticOverflow);
        },
    };
    if ctx.census.enable_location {
        let continent_slot: usize = continent as usize;
        continents[continent_slot] = match continents[continent_slot].checked_add(1) {
            Some(count) => count,
            None => {
                return Err(CensusError::ArithmeticOverflow);
            },
        };
    }
    proof {
        if old(ctx).census@.consistent() {
            lemma_counted_consistent(old(ctx).census@, age_range, continent, now as int);
        }
    }
    let claimed = ctx.registry.claim(&census_id, nullifier_hash, now, index);
    assert(claimed == Ok::<u64, CensusError>(index));
    ctx.census.total_members = members;
    ctx.census.age_distribution = ages;
    ctx.census.continent_distribution = continents;
    ctx.census.last_updated = now;
    proof {
        let after = counted(old(ctx).census@, age_range, continent, now as int);
        assert(ctx.census@.age_distribution =~= after.age_distribution);
        assert(ctx.census@.continent_distribution =~= after.continent_distribution);
    }
    Ok(index)
}

} // verus!
