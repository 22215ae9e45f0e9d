//! The registry: per-call decision functions from plain store contents to
//! plain results, and a registry that owns the store contents and applies
//! those decisions.
//!
//! The host that persists the store, stamps the time, extends the store's
//! lifetime and authorizes callers stands outside: it hands each operation
//! the values it read and writes back what the operation returns.

use vstd::hash_map::HashMapWithView;
use vstd::prelude::*;

use crate::state::RegistryState;
use crate::state::records_map;
use crate::state::spec_new_certificate;
use crate::state::spec_plant_result;
use crate::state::spec_plant_state;
use crate::state::spec_verify_result;
use crate::state::spec_verify_state;
use crate::types::CertificateStats;
use crate::types::RegistryError;
use crate::types::TreeCertificate;
use crate::types::is_sentinel;
use crate::types::sentinel_certificate;

verus! {

/// What a creation makes of the store it found: the new record and the
/// updated statistics.
pub open spec fn spec_plant_outcome(
    counter: u64,
    stats: CertificateStats,
    owner: String,
    species: String,
    location: String,
    planting_time: u64,
) -> Result<(TreeCertificate, CertificateStats), RegistryError> {
    if counter == u64::MAX {
        Err(RegistryError::Overflow)
    } else {
        Ok(
            (
                spec_new_certificate((counter + 1) as u64, owner, species, location, planting_time),
                CertificateStats {
                    total_certificates: (stats.total_certificates + 1) as u64,
                    verified_certificates: stats.verified_certificates,
                    total_tree_species: stats.total_tree_species,
                },
            ),
        )
    }
}

/// Decides a creation from the store contents the host read: fails with
/// `Overflow` exactly when the counter is exhausted, and otherwise yields the
/// record to file under identifier `counter + 1` together with the updated
/// statistics. The record's identifier doubles as the counter to write back.
pub fn plant_decision(
    counter: u64,
    stats: CertificateStats,
    owner: String,
    species: String,
    location: String,
    planting_time: u64,
) -> (r: Result<(TreeCertificate, CertificateStats), RegistryError>)
    requires
        counter == u64::MAX || stats.total_certificates < u64::MAX,
    ensures
        r == spec_plant_outcome(counter, stats, owner, species, location, planting_time),
{
    if counter == u64::MAX {
        Err(RegistryError::Overflow)
    } else {
        let id = counter + 1;
        let certificate = TreeCertificate {
            certificate_id: id,
            tree_owner: owner,
            tree_species: species,
            location: location,
            planting_date: planting_time,
            verified: false,
        };
        let new_stats = CertificateStats {
            total_certificates: stats.total_certificates + 1,
            verified_certificates: stats.verified_certificates,
            total_tree_species: stats.total_tree_species,
        };
        Ok((certificate, new_stats))
    }
}

/// What a verification makes of the record and statistics the host read.
pub open spec fn spec_verify_outcome(
    found: Option<TreeCertificate>,
    stats: CertificateStats,
) -> Result<Option<(TreeCertificate, CertificateStats)>, RegistryError> {
    match found {
        None => Err(RegistryError::NotFound),
        Some(c) => {
            if c.verified {
                Ok(None)
            } else {
                Ok(
                    Some(
                        (
                            TreeCertificate {
                                certificate_id: c.certificate_id,
                                tree_owner: c.tree_owner,
                                tree_species: c.tree_species,
                                location: c.location,
                                planting_date: c.planting_date,
                                verified: true,
                            },
                            CertificateStats {
                                total_certificates: stats.total_certificates,
                                verified_certificates: (stats.verified_certificates + 1) as u64,
                                total_tree_species: stats.total_tree_species,
                            },
                        ),
                    ),
                )
            }
        },
    }
}

/// Decides a verification from what the host read under the identifier:
/// `NotFound` when no record exists, a silent no-op (`Ok(None)`) when the
/// record is already verified, and otherwise the verified record with the
/// updated statistics to write back.
pub fn verify_decision(
    found: Option<TreeCertificate>,
    stats: CertificateStats,
) -> (r: Result<Option<(TreeCertificate, CertificateStats)>, RegistryError>)
    requires
        found matches Some(c) && !c.verified ==> stats.verified_certificates < u64::MAX,
    ensures
        r == spec_verify_outcome(found, stats),
{
    match found {
        None => Err(RegistryError::NotFound),
        Some(c) => {
            if c.verified {
                Ok(None)
            } else {
                let updated = TreeCertificate {
                    certificate_id: c.certificate_id,
                    tree_owner: c.tree_owner,
                    tree_species: c.tree_species,
                    location: c.location,
                    planting_date: c.planting_date,
                    verified: true,
                };
                let new_stats = CertificateStats {
                    total_certificates: stats.total_certificates,
                    verified_certificates: stats.verified_certificates + 1,
                    total_tree_species: stats.total_tree_species,
                };
                Ok(Some((updated, new_stats)))
            }
        },
    }
}

/// Decides a by-id read from what the host found: the record itself, or the
/// not-found sentinel when no record exists under the identifier.
pub fn view_decision(found: Option<TreeCertificate>) -> (r: TreeCertificate)
    ensures
        found matches Some(c) ==> r == c,
        found is None ==> is_sentinel(r),
{
    match found {
        Some(c) => c,
        None => sentinel_certificate(),
    }
}

/// The record registry: owns the store contents — counter, statistics and the
/// records keyed by identifier — and applies one decision per call.
pub struct TreePlantingCertificate {
    counter: u64,
    stats: CertificateStats,
    records: HashMapWithView<u64, TreeCertificate>,
}

impl View for TreePlantingCertificate {
    type V = RegistryState;

    closed spec fn view(&self) -> RegistryState {
        RegistryState { counter: self.counter, stats: self.stats, records: self.records@ }
    }
}

impl TreePlantingCertificate {
    /// A registry over a store that was never written: counter 0, all-zero
    /// statistics, no records.
    pub fn new() -> (r: Self)
        ensures
            r@ == RegistryState::empty(),
    {
        broadcast use vstd::std_specs::hash::axiom_u64_obeys_hash_table_key_model;

        TreePlantingCertificate {
            counter: 0,
            stats: CertificateStats::default(),
            records: HashMapWithView::new(),
        }
    }

    /// A registry over a store that already holds the given contents: a
    /// counter and statistics as persisted earlier, and the records to file,
    /// each under its own identifier.
    pub fn from_parts(counter: u64, stats: CertificateStats, records: Vec<TreeCertificate>) -> (r:
        Self)
        ensures
            r@.counter == counter,
            r@.stats == stats,
            r@.records == records_map(records@),
    {
        broadcast use vstd::std_specs::hash::axiom_u64_obeys_hash_table_key_model;

        let mut filed: HashMapWithView<u64, TreeCertificate> = HashMapWithView::new();
        let mut i: usize = 0;
        while i < records.len()
            invariant
                i <= records@.len(),
                filed@ == records_map(records@.take(i as int)),
            decreases records@.len() - i,
        {
            let certificate = records[i].clone();
            filed.insert(certificate.certificate_id, certificate);
            i = i + 1;
            proof {
                assert(records@.take(i as int).drop_last() =~= records@.take(i - 1));
                assert(records@.take(i as int).last() == records@[i - 1]);
            }
        }
        proof {
            assert(records@.take(records@.len() as int) =~= records@);
        }
        TreePlantingCertificate { counter, stats, records: filed }
    }

    /// Creates a new certificate: allocates the next identifier, files the
    /// record unverified under it, and counts it in the statistics. Fails
    /// with `Overflow` exactly when the counter is exhausted, leaving the
    /// store untouched.
    pub fn plant_tree(
        &mut self,
        owner: String,
        species: String,
        location: String,
        planting_time: u64,
    ) -> (r: Result<u64, RegistryError>)
        requires
            old(self)@.counter == u64::MAX || old(self)@.stats.total_certificates < u64::MAX,
        ensures
            r == spec_plant_result(old(self)@),
            final(self)@ == spec_plant_state(old(self)@, owner, species, location, planting_time),
    {
        match plant_decision(self.counter, self.stats, owner, species, location, planting_time) {
            Err(e) => Err(e),
            Ok((certificate, new_stats)) => {
                let id = certificate.certificate_id;
                self.records.insert(id, certificate);
                self.counter = id;
                self.stats = new_stats;
                Ok(id)
            },
        }
    }

    /// Marks the record under the identifier verified, exactly once: fails
    /// with `NotFound` when no record exists, leaves everything untouched
    /// when the record is already verified, and otherwise sets the flag and
    /// counts it in the statistics.
    pub fn verify_certificate(&mut self, certificate_id: u64) -> (r: Result<(), RegistryError>)
        requires
            old(self)@.records.dom().contains(certificate_id)
                && !old(self)@.records[certificate_id].verified
                ==> old(self)@.stats.verified_certificates < u64::MAX,
        ensures
            r == spec_verify_result(old(self)@, certificate_id),
            final(self)@ == spec_verify_state(old(self)@, certificate_id),
    {
        let found: Option<TreeCertificate> = match self.records.get(&certificate_id) {
            Some(c) => Some(c.clone()),
            None => None,
        };
        match verify_decision(found, self.stats) {
            Err(e) => Err(e),
            Ok(None) => Ok(()),
            Ok(Some((updated, new_stats))) => {
                self.records.insert(certificate_id, updated);
                self.stats = new_stats;
                Ok(())
            },
        }
    }

    /// Reads the record under the identifier. Total: when no record exists
    /// it returns the not-found sentinel instead of failing, so a returned
    /// identifier 0 is the not-found signal.
    pub fn view_certificate(&self, certificate_id: u64) -> (r: TreeCertificate)
        ensures
            self@.records.dom().contains(certificate_id) ==> r == self@.records[certificate_id],
            !self@.records.dom().contains(certificate_id) ==> is_sentinel(r),
    {
        let found: Option<TreeCertificate> = match self.records.get(&certificate_id) {
            Some(c) => Some(c.clone()),
            None => None,
        };
        view_decision(found)
    }

    /// Reads the aggregate statistics.
    pub fn get_stats(&self) -> (r: CertificateStats)
        ensures
            r == self@.stats,
    {
        self.stats
    }
}

} // verus!
