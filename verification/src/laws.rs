//! What holds of the registry across calls: the store invariant is kept by
//! every operation, identifiers come out gapless, verification is idempotent,
//! and a failed call leaves the store untouched.

use vstd::prelude::*;

use crate::state::RegistryState;
use crate::state::spec_plant_result;
use crate::state::spec_plant_state;
use crate::state::spec_verify_result;
use crate::state::spec_verify_state;
use crate::state::verified_count;
use crate::types::RegistryError;
use crate::types::TreeCertificate;

verus! {

/// At most `n` of the identifiers `1 ..= n` hold verified records.
pub proof fn lemma_verified_count_le(m: Map<u64, TreeCertificate>, n: u64)
    ensures
        verified_count(m, n) <= n,
    decreases n,
{
    if n > 0 {
        lemma_verified_count_le(m, (n - 1) as u64);
    }
}

/// The count over `1 ..= n` reads only whether each of those identifiers
/// holds a verified record.
pub proof fn lemma_verified_count_agree(
    m1: Map<u64, TreeCertificate>,
    m2: Map<u64, TreeCertificate>,
    n: u64,
)
    requires
        forall|id: u64|
            #![trigger m1.dom().contains(id)]
            #![trigger m2.dom().contains(id)]
            1 <= id <= n ==> ((m1.dom().contains(id) && m1[id].verified) <==> (m2.dom().contains(
                id,
            ) && m2[id].verified)),
    ensures
        verified_count(m1, n) == verified_count(m2, n),
    decreases n,
{
    if n > 0 {
        lemma_verified_count_agree(m1, m2, (n - 1) as u64);
    }
}

/// Setting the verified flag of an unverified record at `id` raises the count
/// over `1 ..= n` by exactly one.
pub proof fn lemma_verified_count_set(
    m: Map<u64, TreeCertificate>,
    n: u64,
    id: u64,
    c: TreeCertificate,
)
    requires
        1 <= id <= n,
        m.dom().contains(id),
        !m[id].verified,
        c.verified,
    ensures
        verified_count(m.insert(id, c), n) == verified_count(m, n) + 1,
    decreases n,
{
    if n == id {
        lemma_verified_count_agree(m, m.insert(id, c), (n - 1) as u64);
    } else {
        lemma_verified_count_set(m, (n - 1) as u64, id, c);
    }
}

/// Filing a record above `n` leaves the count over `1 ..= n` unchanged.
pub proof fn lemma_verified_count_above(
    m: Map<u64, TreeCertificate>,
    n: u64,
    id: u64,
    c: TreeCertificate,
)
    requires
        id > n,
    ensures
        verified_count(m.insert(id, c), n) == verified_count(m, n),
{
    lemma_verified_count_agree(m, m.insert(id, c), n);
}

/// A count of `n` over `1 ..= n` means every one of those identifiers holds a
/// verified record.
pub proof fn lemma_verified_count_full(m: Map<u64, TreeCertificate>, n: u64)
    requires
        verified_count(m, n) == n,
    ensures
        forall|id: u64| 1 <= id <= n ==> #[trigger] m.dom().contains(id) && m[id].verified,
    decreases n,
{
    if n > 0 {
        lemma_verified_count_le(m, (n - 1) as u64);
        lemma_verified_count_full(m, (n - 1) as u64);
    }
}

/// In a consistent store that still holds an unverified record, fewer than
/// `u64::MAX` records are verified, so the verified count has room to grow.
pub proof fn lemma_consistent_verify_bound(s: RegistryState, id: u64)
    requires
        s.consistent(),
        s.records.dom().contains(id),
        !s.records[id].verified,
    ensures
        s.stats.verified_certificates < u64::MAX,
{
    lemma_verified_count_le(s.records, s.counter);
    if s.stats.verified_certificates == u64::MAX {
        lemma_verified_count_full(s.records, s.counter);
    }
}

/// A store that was never written is consistent.
pub proof fn lemma_empty_consistent()
    ensures
        RegistryState::empty().consistent(),
{
}

/// Creation keeps the store invariant.
pub proof fn lemma_plant_preserves_consistent(
    s: RegistryState,
    owner: String,
    species: String,
    location: String,
    planting_time: u64,
)
    requires
        s.consistent(),
    ensures
        spec_plant_state(s, owner, species, location, planting_time).consistent(),
{
    if s.counter != u64::MAX {
        let id = (s.counter + 1) as u64;
        let post = spec_plant_state(s, owner, species, location, planting_time);
        lemma_verified_count_above(s.records, s.counter, id, post.records[id]);
        assert(verified_count(post.records, id) == verified_count(post.records, s.counter));
    }
}

/// Identifier allocation is gapless: in a consistent store a creation either
/// fails with `Overflow` — exactly when the counter is exhausted — leaving
/// the store untouched, or returns one more than the number of records
/// created so far and counts the new record. Starting from the empty store
/// the returned identifiers are therefore 1, 2, 3, … with no gaps or
/// repeats, and `total_certificates` equals the number of successful
/// creations throughout.
pub proof fn lemma_plant_sequential(
    s: RegistryState,
    owner: String,
    species: String,
    location: String,
    planting_time: u64,
)
    requires
        s.consistent(),
    ensures
        s.counter == u64::MAX ==> spec_plant_result(s) == Err::<u64, RegistryError>(
            RegistryError::Overflow,
        ) && spec_plant_state(s, owner, species, location, planting_time) == s,
        s.counter < u64::MAX ==> spec_plant_result(s) == Ok::<u64, RegistryError>(
            ((s.stats.total_certificates + 1) as u64),
        ),
        s.counter < u64::MAX ==> spec_plant_state(
            s,
            owner,
            species,
            location,
            planting_time,
        ).stats.total_certificates == s.stats.total_certificates + 1,
        spec_plant_state(s, owner, species, location, planting_time).consistent(),
{
    lemma_plant_preserves_consistent(s, owner, species, location, planting_time);
}

/// Verification keeps the store invariant.
pub proof fn lemma_verify_preserves_consistent(s: RegistryState, id: u64)
    requires
        s.consistent(),
    ensures
        spec_verify_state(s, id).consistent(),
{
    if s.records.dom().contains(id) && !s.records[id].verified {
        lemma_consistent_verify_bound(s, id);
        let post = spec_verify_state(s, id);
        lemma_verified_count_set(s.records, s.counter, id, post.records[id]);
    }
}

/// Verification is idempotent: verifying the same identifier a second time
/// changes nothing, so two calls raise `verified_certificates` by exactly one
/// in total when the record existed unverified, and by nothing otherwise.
pub proof fn lemma_verify_idempotent(s: RegistryState, id: u64)
    requires
        s.consistent(),
    ensures
        spec_verify_state(spec_verify_state(s, id), id) == spec_verify_state(s, id),
        s.records.dom().contains(id) && !s.records[id].verified ==> spec_verify_state(
            s,
            id,
        ).stats.verified_certificates == s.stats.verified_certificates + 1,
        !(s.records.dom().contains(id) && !s.records[id].verified) ==> spec_verify_state(s, id)
            == s,
        spec_verify_state(s, id).consistent(),
{
    lemma_verify_preserves_consistent(s, id);
    if s.records.dom().contains(id) && !s.records[id].verified {
        lemma_consistent_verify_bound(s, id);
        assert(spec_verify_state(s, id).records[id].verified);
    }
}

/// A verification aimed at an identifier that was never allocated fails with
/// `NotFound` and leaves the store — records and statistics — unchanged.
pub proof fn lemma_verify_missing(s: RegistryState, id: u64)
    requires
        !s.records.dom().contains(id),
    ensures
        spec_verify_result(s, id) == Err::<(), RegistryError>(RegistryError::NotFound),
        spec_verify_state(s, id) == s,
{
}

} // verus!
