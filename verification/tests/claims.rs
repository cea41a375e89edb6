use sol_atlas_core::claims::{
    AtlasClaim, ClaimId, ClaimStatus, Confidence, ConfidenceError, EvidenceClass, Provenance,
};
use sol_atlas_core::entity::AtlasEntityId;
use sol_atlas_core::types::DataKind;

fn confidence(value: f32) -> Confidence {
    Confidence::new(value.to_bits()).unwrap()
}

#[test]
fn confidence_rejects_invalid_values_and_invalid_wire_data() {
    assert_eq!(Confidence::new((-0.01f32).to_bits()), Err(ConfidenceError::OutOfRange));
    assert_eq!(Confidence::new(1.01f32.to_bits()), Err(ConfidenceError::OutOfRange));
    assert_eq!(Confidence::new(f32::NAN.to_bits()), Err(ConfidenceError::NonFinite));
    // Wire data is read as an f32 and then validated.
    let wire: f32 = serde_json::from_str("1.2").unwrap();
    assert!(Confidence::new(wire.to_bits()).is_err());
}

#[test]
fn competing_claims_can_coexist_for_one_subject() {
    let subject = AtlasEntityId::new("atlas:hospital-1");
    let a = AtlasClaim::new(
        "claim:a".into(),
        subject.clone(),
        "icu_beds_available",
        serde_json::Value::from(7),
        confidence(0.8),
        Provenance::new("hospital-feed", EvidenceClass::Observed),
    );
    let b = AtlasClaim::new(
        "claim:b".into(),
        subject.clone(),
        "icu_beds_available",
        serde_json::Value::from(5),
        confidence(0.6),
        Provenance::new("community-report", EvidenceClass::Estimated),
    );

    assert_eq!(a.subject, b.subject);
    assert_eq!(a.predicate, b.predicate);
    assert_ne!(a.value, b.value);
}

#[test]
fn verification_does_not_imply_authority() {
    let claim = AtlasClaim::new(
        "claim:verified".into(),
        "atlas:bridge-1".into(),
        "structural_condition",
        serde_json::Value::from("serviceable"),
        Confidence::certain(),
        Provenance::new("inspection-evidence", EvidenceClass::Verified),
    );
    assert!(claim.authority.is_none());
    assert_eq!(claim.status, ClaimStatus::Active);
}

#[test]
fn existing_layer_provenance_has_a_lossless_class_bridge() {
    assert_eq!(EvidenceClass::from(DataKind::Observed), EvidenceClass::Observed);
    assert_eq!(EvidenceClass::from(DataKind::Curated), EvidenceClass::Curated);
    assert_eq!(EvidenceClass::from(DataKind::Scenario), EvidenceClass::Scenario);
}

#[test]
fn confidence_accepts_the_closed_unit_interval() {
    assert_eq!(Confidence::new(0.0f32.to_bits()).unwrap().value(), 0.0f32.to_bits());
    assert_eq!(Confidence::new(1.0f32.to_bits()).unwrap().value(), 1.0f32.to_bits());
    assert!(Confidence::new((-0.0f32).to_bits()).is_ok());
    assert_eq!(Confidence::new(f32::INFINITY.to_bits()), Err(ConfidenceError::NonFinite));
    assert_eq!(Confidence::new(f32::NEG_INFINITY.to_bits()), Err(ConfidenceError::NonFinite));
    assert_eq!(Confidence::new((-1.0f32).to_bits()), Err(ConfidenceError::OutOfRange));
    assert_eq!(f32::from_bits(Confidence::certain().value()), 1.0);
    assert_eq!(f32::from_bits(confidence(0.92).value()), 0.92);
}

#[test]
fn confidence_error_messages() {
    assert_eq!(ConfidenceError::NonFinite.message(), "confidence must be finite");
    assert_eq!(ConfidenceError::OutOfRange.message(), "confidence must be within [0, 1]");
}

#[test]
fn new_claim_is_active_and_keeps_its_inputs() {
    let provenance = Provenance::new("sensor-network", EvidenceClass::Observed);
    assert_eq!(provenance.source, "sensor-network");
    assert!(provenance.source_record_id.is_none());
    let claim = AtlasClaim::new(
        ClaimId::new("claim:1"),
        AtlasEntityId::new("atlas:river-1"),
        "flow_m3_s",
        serde_json::Value::from(112.4),
        confidence(0.92),
        provenance.clone(),
    );
    assert_eq!(claim.id, ClaimId::from("claim:1"));
    assert_eq!(claim.subject.as_str(), "atlas:river-1");
    assert_eq!(claim.predicate, "flow_m3_s");
    assert_eq!(claim.provenance, provenance);
    assert_eq!(claim.value, serde_json::Value::from(112.4));
}

#[test]
fn identifiers_convert_from_text() {
    assert_eq!(ClaimId::from("claim:x"), ClaimId("claim:x".to_string()));
    assert_eq!(ClaimId::from("claim:y".to_string()), ClaimId::new("claim:y"));
    assert_eq!(AtlasEntityId::from("atlas:a".to_string()), AtlasEntityId::new("atlas:a"));
    assert_eq!(AtlasEntityId::from("atlas:b").as_str(), "atlas:b");
}

#[test]
fn confidences_compare_as_numbers() {
    assert_eq!(confidence(0.0), confidence(-0.0));
    assert_ne!(confidence(0.5), confidence(0.25));
    assert!(confidence(0.25) < confidence(0.5));
    assert!(confidence(1.0) > confidence(0.5));
    assert!(confidence(-0.0) >= confidence(0.0));
    assert_eq!(
        confidence(0.5).partial_cmp(&confidence(0.5)),
        Some(std::cmp::Ordering::Equal)
    );
    assert_eq!(Confidence::certain(), confidence(1.0));
}
