//! The registry's data types: the record itself, the aggregate statistics,
//! the key namespace of the persistent store, and the error taxonomy.

use vstd::prelude::*;

verus! {

/// The two ways a mutating registry operation can fail: `NotFound` when a
/// verification targets an identifier that was never allocated, `Overflow`
/// when the identifier counter has reached the maximum representable value.
#[derive(Clone, Copy, Debug, PartialEq, Eq, Structural)]
pub enum RegistryError {
    NotFound,
    Overflow,
}

/// A single registered tree-planting certificate. The identifier, owner,
/// metadata and planting date are immutable after creation; `verified`
/// starts `false` and is flipped to `true` at most once.
#[derive(Debug, PartialEq, Eq)]
pub struct TreeCertificate {
    pub certificate_id: u64,
    pub tree_owner: String,
    pub tree_species: String,
    pub location: String,
    pub planting_date: u64,
    pub verified: bool,
}

impl Clone for TreeCertificate {
    fn clone(&self) -> (r: Self)
        ensures
            r == *self,
    {
        TreeCertificate {
            certificate_id: self.certificate_id,
            tree_owner: self.tree_owner.clone(),
            tree_species: self.tree_species.clone(),
            location: self.location.clone(),
            planting_date: self.planting_date,
            verified: self.verified,
        }
    }
}

/// The marker every metadata field of the not-found sentinel carries.
pub open spec fn sentinel_marker() -> Seq<char> {
    "Not Found"@
}

/// The sentinel a by-id lookup returns when no record was ever created under
/// the requested identifier: identifier 0 (never allocated, so callers can
/// tell it apart from every real record), unverified, zero timestamp, and
/// every metadata field set to the literal not-found marker.
pub open spec fn is_sentinel(c: TreeCertificate) -> bool {
    &&& c.certificate_id == 0
    &&& c.tree_owner@ == sentinel_marker()
    &&& c.tree_species@ == sentinel_marker()
    &&& c.location@ == sentinel_marker()
    &&& c.planting_date == 0
    &&& !c.verified
}

/// Builds the not-found sentinel record.
pub fn sentinel_certificate() -> (r: TreeCertificate)
    ensures
        is_sentinel(r),
{
    TreeCertificate {
        certificate_id: 0,
        tree_owner: "Not Found".to_owned(),
        tree_species: "Not Found".to_owned(),
        location: "Not Found".to_owned(),
        planting_date: 0,
        verified: false,
    }
}

/// The key namespace under which records are filed in the persistent store:
/// one `Certificate(id)` key per allocated identifier.
#[derive(Clone, Copy, Debug, PartialEq, Eq, Structural)]
pub enum CertificateBook {
    Certificate(u64),
}

/// Aggregate counts maintained in lock-step with the record population:
/// `total_certificates` counts every record ever created,
/// `verified_certificates` those whose `verified` flag is set.
#[derive(Clone, Copy, Debug, PartialEq, Eq, Structural)]
pub struct CertificateStats {
    pub total_certificates: u64,
    pub verified_certificates: u64,
    pub total_tree_species: u64,
}

impl Default for CertificateStats {
    /// The all-zero statistics an absent store entry stands for.
    fn default() -> (r: Self)
        ensures
            r == (CertificateStats {
                total_certificates: 0,
                verified_certificates: 0,
                total_tree_species: 0,
            }),
    {
        CertificateStats { total_certificates: 0, verified_certificates: 0, total_tree_species: 0 }
    }
}

} // verus!
