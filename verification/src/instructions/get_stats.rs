use vstd::prelude::*;
use crate::errors::CensusError;
use crate::state::{Census, CensusStats};

verus! {

/// What reading the figures of a census works on.
#[derive(Clone, Debug)]
pub struct GetStats {
    /// The census that is read.
    pub census: Census,
}

/// Reads the figures of a census. It never fails, whether the census is open
/// or closed.
pub fn handler(ctx: &GetStats) -> (outcome: Result<CensusStats, CensusError>)
    ensures
        outcome.is_ok(),
        outcome.unwrap()@ == ctx.census@.stats(),
{
    Ok(
        CensusStats {
            total_members: ctx.census.total_members,
            age_distribution: ctx.census.age_distribution,
            continent_distribution: ctx.census.continent_distribution,
            last_updated: ctx.census.last_updated,
        },
    )
}

} // verus!
