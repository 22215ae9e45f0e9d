use tree_registry::CertificateStats;
use tree_registry::RegistryError;
use tree_registry::TreeCertificate;
use tree_registry::plant_decision;
use tree_registry::verify_decision;
use tree_registry::view_decision;

fn zero_stats() -> CertificateStats {
    CertificateStats::default()
}

fn cert(id: u64, verified: bool) -> TreeCertificate {
    TreeCertificate {
        certificate_id: id,
        tree_owner: "Owner".to_string(),
        tree_species: "Oak".to_string(),
        location: "Grove".to_string(),
        planting_date: 77,
        verified,
    }
}

#[test]
fn default_stats_are_zero() {
    let s = CertificateStats::default();
    assert_eq!(s.total_certificates, 0);
    assert_eq!(s.verified_certificates, 0);
    assert_eq!(s.total_tree_species, 0);
}

#[test]
fn plant_decision_allocates_next_id() {
    let r = plant_decision(
        0,
        zero_stats(),
        "Owner".to_string(),
        "Oak".to_string(),
        "Grove".to_string(),
        77,
    );
    let (c, s) = r.unwrap();
    assert_eq!(c, cert(1, false));
    assert_eq!(s.total_certificates, 1);
    assert_eq!(s.verified_certificates, 0);

    let r = plant_decision(
        41,
        CertificateStats {
            total_certificates: 41,
            verified_certificates: 3,
            total_tree_species: 0,
        },
        "Owner".to_string(),
        "Oak".to_string(),
        "Grove".to_string(),
        77,
    );
    let (c, s) = r.unwrap();
    assert_eq!(c.certificate_id, 42);
    assert!(!c.verified);
    assert_eq!(s.total_certificates, 42);
    assert_eq!(s.verified_certificates, 3);
}

#[test]
fn plant_decision_overflow_at_max() {
    let r = plant_decision(
        u64::MAX,
        zero_stats(),
        "Owner".to_string(),
        "Oak".to_string(),
        "Grove".to_string(),
        77,
    );
    assert_eq!(r, Err(RegistryError::Overflow));
}

#[test]
fn verify_decision_missing_record() {
    assert_eq!(
        verify_decision(None, zero_stats()),
        Err(RegistryError::NotFound)
    );
}

#[test]
fn verify_decision_first_verification() {
    let s = CertificateStats {
        total_certificates: 4,
        verified_certificates: 1,
        total_tree_species: 0,
    };
    let r = verify_decision(Some(cert(3, false)), s);
    let (c, s) = r.unwrap().unwrap();
    assert_eq!(c, cert(3, true));
    assert_eq!(s.total_certificates, 4);
    assert_eq!(s.verified_certificates, 2);
}

#[test]
fn verify_decision_already_verified_is_noop() {
    let s = CertificateStats {
        total_certificates: 4,
        verified_certificates: 2,
        total_tree_species: 0,
    };
    assert_eq!(verify_decision(Some(cert(3, true)), s), Ok(None));
}

#[test]
fn view_decision_passes_record_through() {
    assert_eq!(view_decision(Some(cert(5, true))), cert(5, true));
}

#[test]
fn view_decision_missing_gives_sentinel() {
    let c = view_decision(None);
    assert_eq!(c.certificate_id, 0);
    assert_eq!(c.tree_owner, "Not Found");
    assert_eq!(c.tree_species, "Not Found");
    assert_eq!(c.location, "Not Found");
    assert_eq!(c.planting_date, 0);
    assert!(!c.verified);
}
