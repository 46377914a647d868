use vstd::prelude::*;
use vstd::string::StringSliceAdditionalSpecFns;
use crate::errors::CensusError;
use crate::groth16::{
    accepts, verify, PublicSignals, PublicSignalsView, VerifyingKey, VerifyingKeyView, PROOF_BYTES,
};

verus! {

/// The Keccak-256 digest of a byte string.
pub uninterp spec fn keccak256(data: Seq<u8>) -> Seq<u8>;

/// Calls `solana_program::keccak::hash` and hands back the 32 digest bytes.
/// Trusted: the digest is a function of the input bytes alone.
#[verifier::external_body]
fn keccak256_digest(data: &[u8]) -> (digest: [u8; 32])
    ensures
        digest@ == keccak256(data@),
{
    solana_program::keccak::hash(data).to_bytes()
}

/// Whether two 32-byte values are the same.
pub fn same_bytes(left: &[u8; 32], right: &[u8; 32]) -> (same: bool)
    ensures
        same == (left@ == right@),
{
    let mut i: usize = 0;
    while i < 32
        invariant
            i <= 32,
            forall|j: int| 0 <= j < i ==> left@[j] == right@[j],
        decreases 32 - i,
    {
        if left[i] != right[i] {
            return false;
        }
        i += 1;
    }
    assert(left@ =~= right@);
    true
}

/// Largest accepted distance, in seconds, between a submitted timestamp and the clock.
pub const TIMESTAMP_TOLERANCE: i64 = 300;

/// The distance between two points in time.
pub open spec fn time_distance(a: int, b: int) -> int {
    if a >= b {
        a - b
    } else {
        b - a
    }
}

/// Whether `timestamp` lies within the tolerance of `now`, on either side.
pub fn validate_timestamp(timestamp: i64, now: i64) -> (fresh: bool)
    ensures
        fresh == (time_distance(timestamp as int, now as int) <= TIMESTAMP_TOLERANCE),
{
    if timestamp >= now {
        match timestamp.checked_sub(now) {
            Some(d) => d <= TIMESTAMP_TOLERANCE,
            None => false,
        }
    } else {
        match now.checked_sub(timestamp) {
            Some(d) => d <= TIMESTAMP_TOLERANCE,
            None => false,
        }
    }
}

/// The nullifier of a secret in a census: the Keccak-256 digest of the secret
/// followed by the identifier of the census. One secret gives one nullifier
/// in a census, and nullifiers that cannot be linked across censuses.
pub fn compute_nullifier(secret: &[u8], census_id: &str) -> (nullifier: [u8; 32])
    ensures
        nullifier@ == keccak256(secret@ + census_id.spec_bytes()),
{
    let id_bytes = census_id.as_bytes();
    let mut data: Vec<u8> = Vec::new();
    data.extend_from_slice(secret);
    data.extend_from_slice(id_bytes);
    assert(data@ =~= secret@ + census_id.spec_bytes());
    keccak256_digest(data.as_slice())
}

/// What checking a proof comes to: too few bytes are turned down as
/// malformed before any group operation; otherwise the first 256 bytes are
/// accepted or not.
pub open spec fn proof_verdict(
    proof: Seq<u8>,
    signals: PublicSignalsView,
    vk: VerifyingKeyView,
) -> Result<bool, CensusError> {
    if proof.len() < PROOF_BYTES {
        Err(CensusError::InvalidProof)
    } else {
        Ok(accepts(vk, proof.subrange(0, PROOF_BYTES as int), signals))
    }
}

/// Checks a Groth16 proof for a statement under a verification key.
pub fn verify_groth16_proof(
    proof_data: &[u8],
    signals: &PublicSignals,
    vk: &VerifyingKey,
) -> (verdict: Result<bool, CensusError>)
    ensures
        verdict == proof_verdict(proof_data@, signals@, vk@),
{
    if proof_data.len() < PROOF_BYTES {
        return Err(CensusError::InvalidProof);
    }
    Ok(verify(proof_data, signals, vk))
}

/// The age bracket of an age in years.
pub open spec fn bracket_of_age(age: int) -> u8 {
    if age <= 17 {
        0
    } else if age <= 24 {
        1
    } else if age <= 34 {
        2
    } else if age <= 44 {
        3
    } else if age <= 54 {
        4
    } else if age <= 64 {
        5
    } else {
        6
    }
}

/// The age bracket of someone born in `birth_year`, in `current_year`. There
/// is none for a birth that lies ahead.
pub fn calculate_age_range(birth_year: u16, current_year: u16) -> (bracket: Option<u8>)
    ensures
        birth_year > current_year ==> bracket.is_none(),
        birth_year <= current_year ==> bracket == Some(bracket_of_age(current_year - birth_year)),
{
    if birth_year > current_year {
        return None;
    }
    let age: u16 = current_year - birth_year;
    if age <= 17 {
        Some(0)
    } else if age <= 24 {
        Some(1)
    } else if age <= 34 {
        Some(2)
    } else if age <= 44 {
        Some(3)
    } else if age <= 54 {
        Some(4)
    } else if age <= 64 {
        Some(5)
    } else {
        Some(6)
    }
}

} // verus!
