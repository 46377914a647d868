use vstd::prelude::*;
use crate::errors::CensusError;
use crate::instructions::submit_proof::{
    lemma_counted_consistent, Registration, SubmitProofView,
};
use crate::state::{lemma_total_of_zeros, total, CensusView, RegistryKey};

verus! {

/// The state after a row of registrations was asked for, one after the other.
pub open spec fn run(start: SubmitProofView, requests: Seq<Registration>) -> SubmitProofView
    decreases requests.len(),
{
    if requests.len() == 0 {
        start
    } else {
        run(start, requests.drop_last()).after(requests.last())
    }
}

/// Whether the last registration of a row is accepted.
pub open spec fn last_accepted(start: SubmitProofView, requests: Seq<Registration>) -> bool {
    requests.len() > 0 && run(start, requests.drop_last()).refuses(requests.last()).is_none()
}

/// How many registrations of a row are accepted.
pub open spec fn accepted(start: SubmitProofView, requests: Seq<Registration>) -> nat
    decreases requests.len(),
{
    if requests.len() == 0 {
        0
    } else {
        accepted(start, requests.drop_last()) + if last_accepted(start, requests) {
            1nat
        } else {
            0nat
        }
    }
}

/// How many registrations of a row are accepted with a given nullifier.
pub open spec fn accepted_with(
    start: SubmitProofView,
    requests: Seq<Registration>,
    nullifier: Seq<u8>,
) -> nat
    decreases requests.len(),
{
    if requests.len() == 0 {
        0
    } else {
        accepted_with(start, requests.drop_last(), nullifier) + if last_accepted(start, requests)
            && requests.last().nullifier == nullifier {
            1nat
        } else {
            0nat
        }
    }
}

/// The key of a nullifier in the census of a state.
pub open spec fn key_in(state: SubmitProofView, nullifier: Seq<u8>) -> RegistryKey {
    (state.census.census_id, nullifier)
}

/// Nullifier uniqueness. Of any row of registrations in one census, however
/// they are ordered and whatever else they ask, at most one with a given
/// nullifier is accepted, and none where the nullifier was on record before.
/// The census gains exactly one member for each registration that is
/// accepted. A nullifier that was accepted, or was on record before, is on
/// record afterwards.
pub proof fn law_nullifier_uniqueness(
    start: SubmitProofView,
    requests: Seq<Registration>,
    nullifier: Seq<u8>,
)
    ensures
        accepted_with(start, requests, nullifier) <= 1,
        start.registry.dom().contains(key_in(start, nullifier)) ==> accepted_with(
            start,
            requests,
            nullifier,
        ) == 0,
        run(start, requests).census.total_members == start.census.total_members + accepted(
            start,
            requests,
        ),
        run(start, requests).census.census_id == start.census.census_id,
        accepted_with(start, requests, nullifier) == 1 || start.registry.dom().contains(
            key_in(start, nullifier),
        ) ==> run(start, requests).registry.dom().contains(key_in(start, nullifier)),
    decreases requests.len(),
{
    if requests.len() > 0 {
        law_nullifier_uniqueness(start, requests.drop_last(), nullifier);
    }
}

/// Where the first registration of a row is accepted, exactly one
/// registration of the row with its nullifier is: that one.
pub proof fn law_first_accepted_counts_once(start: SubmitProofView, requests: Seq<Registration>)
    requires
        requests.len() > 0,
        start.refuses(requests[0]).is_none(),
    ensures
        accepted_with(start, requests, requests[0].nullifier) == 1,
    decreases requests.len(),
{
    let nullifier = requests[0].nullifier;
    let front = requests.drop_last();
    law_nullifier_uniqueness(start, requests, nullifier);
    if requests.len() == 1 {
        assert(front.len() == 0);
    } else {
        assert(front[0] == requests[0]);
        law_first_accepted_counts_once(start, front);
    }
}

/// Once a nullifier is on record in a census, every registration with it is
/// turned down; and one that nothing else stands against is turned down as a
/// duplicate: one that would be accepted, or would overflow a counter, were
/// nothing on record.
pub proof fn law_duplicate_refused(state: SubmitProofView, request: Registration)
    requires
        state.registry.dom().contains(key_in(state, request.nullifier)),
    ensures
        state.refuses(request).is_some(),
        state.after(request) == state,
        ({
            let unrecorded = SubmitProofView { registry: Map::empty(), ..state }.refuses(request);
            unrecorded.is_none() || unrecorded == Some(CensusError::ArithmeticOverflow)
        }) <==> state.refuses(request) == Some(CensusError::DuplicateNullifier),
{
}

/// A registration that is turned down, for whatever reason, leaves the
/// figures of the census and the records of the registry as they were.
pub proof fn law_refusal_changes_nothing(state: SubmitProofView, request: Registration)
    requires
        state.refuses(request).is_some(),
    ensures
        state.after(request) == state,
{
}

/// Aggregate consistency. Where the counters of a census agree, they agree
/// after any row of registrations.
pub proof fn law_counters_agree(start: SubmitProofView, requests: Seq<Registration>)
    requires
        start.census.consistent(),
    ensures
        run(start, requests).census.consistent(),
        run(start, requests).census.enable_location == start.census.enable_location,
    decreases requests.len(),
{
    if requests.len() > 0 {
        let front = requests.drop_last();
        let request = requests.last();
        law_counters_agree(start, front);
        let before = run(start, front);
        if before.refuses(request).is_none() {
            lemma_counted_consistent(
                before.census,
                request.age_range,
                request.continent,
                request.now,
            );
        }
    }
}

/// What the agreement of the counters comes to in sums: the age brackets sum
/// to the number of members; the continents sum to the number of members
/// where locations are tracked, and to zero where they are not. So the
/// continents sum to the number of members exactly when locations are
/// tracked or there is no member.
pub proof fn law_sums(census: CensusView)
    requires
        census.consistent(),
    ensures
        total(census.age_distribution) == census.total_members,
        census.enable_location ==> total(census.continent_distribution) == census.total_members,
        !census.enable_location ==> total(census.continent_distribution) == 0,
        total(census.continent_distribution) == census.total_members <==> (census.enable_location
            || census.total_members == 0),
{
    if !census.enable_location {
        lemma_total_of_zeros(census.continent_distribution);
    }
}

} // verus!
