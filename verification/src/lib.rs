//! Anonymous, sybil-resistant census registration: proof checking, nullifier
//! bookkeeping and aggregate statistics.

use vstd::prelude::*;

pub mod bn254;
pub mod errors;
pub mod field;
pub mod groth16;
pub mod instructions;
pub mod laws;
pub mod registry;
pub mod state;
pub mod utils;

use errors::CensusError;
use instructions::{CloseCensus, GetStats, InitializeCensus, SubmitProof, UpdateMerkleRoot};
use state::CensusStats;

verus! {

/// Creates a census: open, with no members and no anchor, owned by the signer.
/// A text that is too long is turned down.
pub fn initialize_census(
    ctx: &mut InitializeCensus,
    census_id: String,
    name: String,
    description: String,
    enable_location: bool,
    min_age: Option<u8>,
    now: i64,
) -> (outcome: Result<(), CensusError>)
    ensures
        instructions::initialize_census::effect(
            *old(ctx),
            *final(ctx),
            census_id@,
            name@,
            description@,
            enable_location,
            min_age,
            now as int,
            outcome,
        ),
        outcome.is_ok() ==> final(ctx).census@.consistent() && final(ctx).census@.within_limits(),
{
    instructions::initialize_census::handler(
        ctx,
        census_id,
        name,
        description,
        enable_location,
        min_age,
        now,
    )
}

/// Registers a member with a zero-knowledge proof and hands back the
/// member's ordinal.
pub fn submit_proof(
    ctx: &mut SubmitProof,
    nullifier_hash: [u8; 32],
    age_range: u8,
    continent: u8,
    proof_data: Vec<u8>,
    timestamp: i64,
    now: i64,
) -> (outcome: Result<u64, CensusError>)
    ensures
        instructions::submit_proof::effect(
            *old(ctx),
            *final(ctx),
            nullifier_hash@,
            age_range,
            continent,
            proof_data@,
            timestamp as int,
            now as int,
            outcome,
        ),
        old(ctx).census@.consistent() ==> final(ctx).census@.consistent(),
        old(ctx).census@.within_limits() ==> final(ctx).census@.within_limits(),
{
    instructions::submit_proof::handler(
        ctx,
        nullifier_hash,
        age_range,
        continent,
        proof_data,
        timestamp,
        now,
    )
}

/// Replaces the anchor of a census. Only its creator may.
pub fn update_merkle_root(
    ctx: &mut UpdateMerkleRoot,
    new_root: [u8; 32],
    ipfs_hash: String,
    now: i64,
) -> (outcome: Result<(), CensusError>)
    ensures
        instructions::update_merkle_root::effect(
            *old(ctx),
            *final(ctx),
            new_root@,
            ipfs_hash@,
            now as int,
            outcome,
        ),
        old(ctx).census@.consistent() ==> final(ctx).census@.consistent(),
        old(ctx).census@.within_limits() && outcome.is_ok() ==> final(ctx).census@.within_limits(),
{
    instructions::update_merkle_root::handler(ctx, new_root, ipfs_hash, now)
}

/// Closes a census. Only its creator may.
pub fn close_census(ctx: &mut CloseCensus, now: i64) -> (outcome: Result<(), CensusError>)
    ensures
        instructions::close_census::effect(*old(ctx), *final(ctx), now as int, outcome),
        old(ctx).census@.consistent() ==> final(ctx).census@.consistent(),
        old(ctx).census@.within_limits() ==> final(ctx).census@.within_limits(),
{
    instructions::close_census::handler(ctx, now)
}

/// Reads the figures of a census.
pub fn get_stats(ctx: &GetStats) -> (outcome: Result<CensusStats, CensusError>)
    ensures
        outcome.is_ok(),
        outcome.unwrap()@ == ctx.census@.stats(),
{
    instructions::get_stats::handler(ctx)
}

} // verus!
