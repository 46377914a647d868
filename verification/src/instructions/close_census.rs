use vstd::prelude::*;
use crate::errors::CensusError;
use crate::state::{Census, CensusView};
use crate::utils::same_bytes;

verus! {

/// What closing a census works on.
#[derive(Clone, Debug)]
pub struct CloseCensus {
    /// The census that is closed.
    pub census: Census,
    /// The signer of the request.
    pub creator: [u8; 32],
}

/// A census after it was closed at `now`. Closing a closed census changes
/// nothing.
pub open spec fn closed(census: CensusView, now: int) -> CensusView {
    if census.active {
        CensusView { active: false, last_updated: now, ..census }
    } else {
        census
    }
}

/// What closing a census does: for the creator it closes the census; for
/// anyone else it fails and changes nothing.
pub open spec fn effect(
    before: CloseCensus,
    after: CloseCensus,
    now: int,
    outcome: Result<(), CensusError>,
) -> bool {
    if before.creator@ == before.census@.creator {
        &&& outcome.is_ok()
        &&& after.creator == before.creator
        &&& after.census@ == closed(before.census@, now)
    } else {
        outcome == Err::<(), CensusError>(CensusError::Unauthorized) && after == before
    }
}

/// Closes a census to new registrations. What it holds stays readable.
pub fn handler(ctx: &mut CloseCensus, now: i64) -> (outcome: Result<(), CensusError>)
    ensures
        effect(*old(ctx), *final(ctx), now as int, outcome),
        old(ctx).census@.consistent() ==> final(ctx).census@.consistent(),
        old(ctx).census@.within_limits() ==> final(ctx).census@.within_limits(),
{
    if !same_bytes(&ctx.census.creator, &ctx.creator) {
        return Err(CensusError::Unauthorized);
    }
    if ctx.census.active {
        ctx.census.active = false;
        ctx.census.last_updated = now;
    }
    Ok(())
}

} // verus!
