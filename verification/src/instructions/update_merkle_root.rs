use vstd::prelude::*;
use crate::errors::CensusError;
use crate::state::{stored_len, text_len, Census, CensusView, MAX_IPFS_HASH_LEN};
use crate::utils::same_bytes;

verus! {

/// What replacing the anchor of a census works on.
#[derive(Clone, Debug)]
pub struct UpdateMerkleRoot {
    /// The census whose anchor is replaced.
    pub census: Census,
    /// The signer of the request.
    pub creator: [u8; 32],
}

/// Why the anchor is not replaced, if it is not: the caller is not the
/// creator, or else the pointer is too long.
pub open spec fn refusal(census: CensusView, caller: Seq<u8>, ipfs_hash: Seq<char>) -> Option<
    CensusError,
> {
    if caller != census.creator {
        Some(CensusError::Unauthorized)
    } else if stored_len(ipfs_hash) > MAX_IPFS_HASH_LEN {
        Some(CensusError::IpfsHashTooLong)
    } else {
        None
    }
}

/// A census after its anchor was replaced at `now`.
pub open spec fn anchored(
    census: CensusView,
    new_root: Seq<u8>,
    ipfs_hash: Seq<char>,
    now: int,
) -> CensusView {
    CensusView { merkle_root: new_root, ipfs_hash, last_updated: now, ..census }
}

/// What replacing the anchor does: it writes the root, the pointer and the
/// clock and nothing else, or it says why not and changes nothing.
pub open spec fn effect(
    before: UpdateMerkleRoot,
    after: UpdateMerkleRoot,
    new_root: Seq<u8>,
    ipfs_hash: Seq<char>,
    now: int,
    outcome: Result<(), CensusError>,
) -> bool {
    match outcome {
        Ok(_) => {
            &&& refusal(before.census@, before.creator@, ipfs_hash).is_none()
            &&& after.creator == before.creator
            &&& after.census@ == anchored(before.census@, new_root, ipfs_hash, now)
        },
        Err(error) => refusal(before.census@, before.creator@, ipfs_hash) == Some(error) && after
            == before,
    }
}

/// Replaces the root of the membership tree and the pointer to it. Whether
/// the census is open does not matter, and no figure is touched.
pub fn handler(ctx: &mut UpdateMerkleRoot, new_root: [u8; 32], ipfs_hash: String, now: i64) -> (outcome:
    Result<(), CensusError>)
    ensures
        effect(*old(ctx), *final(ctx), new_root@, ipfs_hash@, now as int, outcome),
        old(ctx).census@.consistent() ==> final(ctx).census@.consistent(),
        old(ctx).census@.within_limits() && outcome.is_ok() ==> final(ctx).census@.within_limits(),
{
    if !same_bytes(&ctx.creator, &ctx.census.creator) {
        return Err(CensusError::Unauthorized);
    }
    if text_len(&ipfs_hash) > MAX_IPFS_HASH_LEN {
        return Err(CensusError::IpfsHashTooLong);
    }
    ctx.census.merkle_root = new_root;
    ctx.census.ipfs_hash = ipfs_hash;
    ctx.census.last_updated = now;
    Ok(())
}

} // verus!
