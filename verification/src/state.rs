//! The mathematical model of the registry: the contents of the persistent
//! store as a ghost state, and the transition each operation performs on it.

use vstd::prelude::*;

use crate::types::CertificateStats;
use crate::types::RegistryError;
use crate::types::TreeCertificate;

verus! {

/// Everything the registry keeps in the persistent store: the last-assigned
/// identifier, the aggregate statistics, and the records keyed by identifier.
#[verifier::ext_equal]
pub struct RegistryState {
    pub counter: u64,
    pub stats: CertificateStats,
    pub records: Map<u64, TreeCertificate>,
}

/// The record a successful creation files: the given identifier and payload,
/// not yet verified.
pub open spec fn spec_new_certificate(
    id: u64,
    owner: String,
    species: String,
    location: String,
    planting_time: u64,
) -> TreeCertificate {
    TreeCertificate {
        certificate_id: id,
        tree_owner: owner,
        tree_species: species,
        location: location,
        planting_date: planting_time,
        verified: false,
    }
}

/// What a creation returns: the next identifier, or `Overflow` exactly when
/// the counter has no successor.
pub open spec fn spec_plant_result(s: RegistryState) -> Result<u64, RegistryError> {
    if s.counter == u64::MAX {
        Err(RegistryError::Overflow)
    } else {
        Ok((s.counter + 1) as u64)
    }
}

/// The store after a creation: on `Overflow` nothing changes; otherwise the
/// counter advances by one, the new unverified record is filed under the new
/// identifier, and `total_certificates` grows by one.
pub open spec fn spec_plant_state(
    s: RegistryState,
    owner: String,
    species: String,
    location: String,
    planting_time: u64,
) -> RegistryState {
    if s.counter == u64::MAX {
        s
    } else {
        let id = (s.counter + 1) as u64;
        RegistryState {
            counter: id,
            stats: CertificateStats {
                total_certificates: (s.stats.total_certificates + 1) as u64,
                verified_certificates: s.stats.verified_certificates,
                total_tree_species: s.stats.total_tree_species,
            },
            records: s.records.insert(
                id,
                spec_new_certificate(id, owner, species, location, planting_time),
            ),
        }
    }
}

/// What a verification returns: `Ok` exactly when a record exists under the
/// identifier, `NotFound` otherwise.
pub open spec fn spec_verify_result(s: RegistryState, id: u64) -> Result<(), RegistryError> {
    if s.records.dom().contains(id) {
        Ok(())
    } else {
        Err(RegistryError::NotFound)
    }
}

/// The store after a verification: nothing changes unless a record exists
/// under the identifier and is not yet verified; in that one case its flag is
/// set and `verified_certificates` grows by one.
pub open spec fn spec_verify_state(s: RegistryState, id: u64) -> RegistryState {
    if s.records.dom().contains(id) && !s.records[id].verified {
        RegistryState {
            counter: s.counter,
            stats: CertificateStats {
                total_certificates: s.stats.total_certificates,
                verified_certificates: (s.stats.verified_certificates + 1) as u64,
                total_tree_species: s.stats.total_tree_species,
            },
            records: s.records.insert(
                id,
                TreeCertificate {
                    certificate_id: s.records[id].certificate_id,
                    tree_owner: s.records[id].tree_owner,
                    tree_species: s.records[id].tree_species,
                    location: s.records[id].location,
                    planting_date: s.records[id].planting_date,
                    verified: true,
                },
            ),
        }
    } else {
        s
    }
}

/// How many of the records filed under identifiers `1 ..= n` are verified.
pub open spec fn verified_count(m: Map<u64, TreeCertificate>, n: u64) -> nat
    decreases n,
{
    if n == 0 {
        0
    } else {
        verified_count(m, (n - 1) as u64) + (if m.dom().contains(n) && m[n].verified {
            1nat
        } else {
            0nat
        })
    }
}

/// The store a sequence of records loads into: each record filed under its
/// own identifier, later entries winning.
pub open spec fn records_map(s: Seq<TreeCertificate>) -> Map<u64, TreeCertificate>
    decreases s.len(),
{
    if s.len() == 0 {
        Map::empty()
    } else {
        records_map(s.drop_last()).insert(s.last().certificate_id, s.last())
    }
}

impl RegistryState {
    /// The invariant the registry maintains over the store: exactly the
    /// identifiers `1 ..= counter` are filed, each record carries the
    /// identifier it is filed under, `total_certificates` equals the number
    /// of records ever created, and `verified_certificates` equals the
    /// number of verified records.
    pub open spec fn consistent(self) -> bool {
        &&& self.stats.total_certificates == self.counter
        &&& self.stats.verified_certificates == verified_count(self.records, self.counter)
        &&& forall|id: u64|
            #![trigger self.records.dom().contains(id)]
            self.records.dom().contains(id) <==> 1 <= id <= self.counter
        &&& forall|id: u64|
            self.records.dom().contains(id) ==> (#[trigger] self.records[id]).certificate_id == id
    }

    /// The store before anything was ever written: every key absent, which
    /// the registry reads as counter 0 and all-zero statistics.
    pub open spec fn empty() -> RegistryState {
        RegistryState {
            counter: 0,
            stats: CertificateStats {
                total_certificates: 0,
                verified_certificates: 0,
                total_tree_species: 0,
            },
            records: Map::empty(),
        }
    }
}

} // verus!
