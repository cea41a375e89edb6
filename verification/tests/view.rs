use sol_atlas_core::claims::{Confidence, EvidenceClass};
use sol_atlas_core::view::{AtlasActivity, AtlasLens, AtlasScope, AtlasTime, AtlasViewContext, TrustFilter};

fn confidence(value: f32) -> Confidence {
    Confidence::new(value.to_bits()).unwrap()
}

#[test]
fn personal_is_a_scope_not_a_parallel_activity_model() {
    let observe = AtlasViewContext::personal(AtlasActivity::Observe);
    let simulate = AtlasViewContext::personal(AtlasActivity::Simulate);
    let coordinate = AtlasViewContext::personal(AtlasActivity::Coordinate);

    assert_eq!(observe.scope, AtlasScope::Personal);
    assert_eq!(simulate.scope, AtlasScope::Personal);
    assert_eq!(coordinate.scope, AtlasScope::Personal);
    assert_ne!(observe.activity, simulate.activity);
}

#[test]
fn lenses_are_open_and_deduplicated() {
    let mut view = AtlasViewContext::earth_observe();
    view.add_lens("water");
    view.add_lens("water");
    view.add_lens("accessibility");
    assert_eq!(view.lenses.len(), 2);
    assert_eq!(view.lenses[0], AtlasLens::new("water"));
    assert_eq!(view.lenses[1], AtlasLens::from("accessibility"));
}

#[test]
fn grounded_view_requires_explicit_scenario_opt_in() {
    let trust = TrustFilter::grounded();
    let confidence = Confidence::certain();
    assert!(trust.allows(EvidenceClass::Observed, confidence));
    assert!(trust.allows(EvidenceClass::Contested, confidence));
    assert!(!trust.allows(EvidenceClass::Predicted, confidence));
    assert!(!trust.allows(EvidenceClass::Scenario, confidence));
}

#[test]
fn minimum_confidence_is_enforced() {
    let mut trust = TrustFilter::grounded();
    trust.minimum_confidence = Some(confidence(0.8));
    assert!(trust.allows(EvidenceClass::Observed, confidence(0.9)));
    assert!(!trust.allows(EvidenceClass::Observed, confidence(0.7)));
}

#[test]
fn grounded_filter_admits_exactly_five_classes_at_any_confidence() {
    let trust = TrustFilter::grounded();
    let low = confidence(0.0);
    for class in [
        EvidenceClass::Observed,
        EvidenceClass::Verified,
        EvidenceClass::Curated,
        EvidenceClass::Estimated,
        EvidenceClass::Contested,
    ] {
        assert!(trust.allows(class, low));
    }
    assert!(!trust.allows(EvidenceClass::Predicted, low));
    assert!(!trust.allows(EvidenceClass::Scenario, low));
}

#[test]
fn minimum_confidence_admits_equal_values_and_treats_negative_zero_as_zero() {
    let mut trust = TrustFilter::grounded();
    trust.minimum_confidence = Some(confidence(0.8));
    assert!(trust.allows(EvidenceClass::Observed, confidence(0.8)));
    trust.minimum_confidence = Some(confidence(0.0));
    assert!(trust.allows(EvidenceClass::Observed, confidence(-0.0)));
    trust.allowed_classes = vec![];
    assert!(!trust.allows(EvidenceClass::Observed, Confidence::certain()));
}

#[test]
fn earth_observe_is_planetary_now() {
    let view = AtlasViewContext::earth_observe();
    assert_eq!(view.scope, AtlasScope::Earth);
    assert_eq!(view.activity, AtlasActivity::Observe);
    assert_eq!(view.time, AtlasTime::Now);
    assert!(view.lenses.is_empty());
    assert_eq!(view.trust, TrustFilter::grounded());
}

#[test]
fn lenses_convert_from_text() {
    assert_eq!(AtlasLens::from("water"), AtlasLens::new("water"));
    assert_eq!(AtlasLens::from("energy".to_string()), AtlasLens("energy".to_string()));
}
