//! A verified on-chain record registry: callers submit records, the registry
//! assigns each a monotonically increasing identifier, persists it in a keyed
//! store, tracks aggregate counts, and marks records verified exactly once.

pub mod laws;
pub mod registry;
pub mod state;
pub mod types;

pub use registry::TreePlantingCertificate;
pub use registry::plant_decision;
pub use registry::verify_decision;
pub use registry::view_decision;
pub use state::RegistryState;
pub use types::CertificateBook;
pub use types::CertificateStats;
pub use types::RegistryError;
pub use types::TreeCertificate;
pub use types::is_sentinel;
