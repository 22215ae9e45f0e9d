use tree_registry::CertificateStats;
use tree_registry::RegistryError;
use tree_registry::TreeCertificate;
use tree_registry::TreePlantingCertificate;

fn stats(total: u64, verified: u64) -> CertificateStats {
    CertificateStats {
        total_certificates: total,
        verified_certificates: verified,
        total_tree_species: 0,
    }
}

fn assert_is_sentinel(c: &TreeCertificate) {
    assert_eq!(c.certificate_id, 0);
    assert_eq!(c.tree_owner, "Not Found");
    assert_eq!(c.tree_species, "Not Found");
    assert_eq!(c.location, "Not Found");
    assert_eq!(c.planting_date, 0);
    assert!(!c.verified);
}

#[test]
fn round_trip_create_verify() {
    let mut r = TreePlantingCertificate::new();
    let id = r.plant_tree(
        "Alice".to_string(),
        "Oak".to_string(),
        "Riverside".to_string(),
        1111,
    );
    assert_eq!(id, Ok(1));

    let c = r.view_certificate(1);
    assert_eq!(c.certificate_id, 1);
    assert_eq!(c.tree_owner, "Alice");
    assert_eq!(c.tree_species, "Oak");
    assert_eq!(c.location, "Riverside");
    assert_eq!(c.planting_date, 1111);
    assert!(!c.verified);

    assert_eq!(r.verify_certificate(1), Ok(()));

    let c = r.view_certificate(1);
    assert!(c.verified);
    assert_eq!(c.certificate_id, 1);
    assert_eq!(c.tree_owner, "Alice");
    assert_eq!(c.tree_species, "Oak");
    assert_eq!(c.location, "Riverside");
    assert_eq!(c.planting_date, 1111);

    assert_eq!(r.get_stats(), stats(1, 1));
}

#[test]
fn sequential_ids_no_gaps() {
    let mut r = TreePlantingCertificate::new();
    for expected in 1..=5u64 {
        let id = r.plant_tree(
            "Owner".to_string(),
            "Pine".to_string(),
            "Hill".to_string(),
            expected * 10,
        );
        assert_eq!(id, Ok(expected));
        assert_eq!(r.get_stats().total_certificates, expected);
    }
    assert_eq!(r.get_stats(), stats(5, 0));
}

#[test]
fn verify_twice_counts_once() {
    let mut r = TreePlantingCertificate::new();
    r.plant_tree("Bob".to_string(), "Elm".to_string(), "Park".to_string(), 5)
        .unwrap();
    assert_eq!(r.verify_certificate(1), Ok(()));
    assert_eq!(r.get_stats(), stats(1, 1));
    assert_eq!(r.verify_certificate(1), Ok(()));
    assert_eq!(r.get_stats(), stats(1, 1));
    assert!(r.view_certificate(1).verified);
}

#[test]
fn verify_unknown_id_not_found() {
    let mut r = TreePlantingCertificate::new();
    r.plant_tree("Bob".to_string(), "Elm".to_string(), "Park".to_string(), 5)
        .unwrap();
    assert_eq!(r.verify_certificate(5), Err(RegistryError::NotFound));
    assert_eq!(r.verify_certificate(0), Err(RegistryError::NotFound));
    assert_eq!(r.get_stats(), stats(1, 0));
    assert!(!r.view_certificate(1).verified);
}

#[test]
fn view_unknown_id_returns_sentinel() {
    let mut r = TreePlantingCertificate::new();
    assert_is_sentinel(&r.view_certificate(1));
    r.plant_tree(
        "Carol".to_string(),
        "Ash".to_string(),
        "Field".to_string(),
        42,
    )
    .unwrap();
    assert_is_sentinel(&r.view_certificate(2));
    assert_is_sentinel(&r.view_certificate(0));
    let c = r.view_certificate(1);
    assert!(!c.verified);
    assert_eq!(c.tree_owner, "Carol");
    assert_eq!(c.tree_species, "Ash");
    assert_eq!(c.location, "Field");
}

#[test]
fn three_records_verify_second() {
    let mut r = TreePlantingCertificate::new();
    for (owner, species) in [("A", "Oak"), ("B", "Elm"), ("C", "Fir")] {
        r.plant_tree(
            owner.to_string(),
            species.to_string(),
            "Grove".to_string(),
            9,
        )
        .unwrap();
    }
    assert_eq!(r.verify_certificate(2), Ok(()));
    assert_eq!(r.get_stats(), stats(3, 1));
    assert_is_sentinel(&r.view_certificate(4));
    assert!(!r.view_certificate(1).verified);
    assert!(r.view_certificate(2).verified);
    assert!(!r.view_certificate(3).verified);
}

#[test]
fn counter_at_maximum_overflows() {
    let mut r = TreePlantingCertificate::from_parts(u64::MAX, stats(0, 0), Vec::new());
    let id = r.plant_tree(
        "Dan".to_string(),
        "Yew".to_string(),
        "Moor".to_string(),
        3,
    );
    assert_eq!(id, Err(RegistryError::Overflow));
    assert_eq!(r.get_stats(), stats(0, 0));
    assert_is_sentinel(&r.view_certificate(1));
}

#[test]
fn from_parts_files_records_by_id() {
    let records = vec![
        TreeCertificate {
            certificate_id: 1,
            tree_owner: "A".to_string(),
            tree_species: "Oak".to_string(),
            location: "North".to_string(),
            planting_date: 10,
            verified: true,
        },
        TreeCertificate {
            certificate_id: 2,
            tree_owner: "B".to_string(),
            tree_species: "Elm".to_string(),
            location: "South".to_string(),
            planting_date: 20,
            verified: false,
        },
    ];
    let mut r = TreePlantingCertificate::from_parts(2, stats(2, 1), records);
    assert_eq!(r.get_stats(), stats(2, 1));
    assert_eq!(r.view_certificate(1).tree_owner, "A");
    assert!(r.view_certificate(1).verified);
    assert_eq!(r.view_certificate(2).location, "South");
    assert!(!r.view_certificate(2).verified);
    assert_is_sentinel(&r.view_certificate(3));

    let id = r.plant_tree(
        "C".to_string(),
        "Fir".to_string(),
        "East".to_string(),
        30,
    );
    assert_eq!(id, Ok(3));
    assert_eq!(r.get_stats(), stats(3, 1));
}

#[test]
fn empty_strings_are_accepted() {
    let mut r = TreePlantingCertificate::new();
    let id = r.plant_tree(String::new(), String::new(), String::new(), 0);
    assert_eq!(id, Ok(1));
    let c = r.view_certificate(1);
    assert_eq!(c.tree_owner, "");
    assert_eq!(c.tree_species, "");
    assert_eq!(c.location, "");
}
