use h3o::{LatLng, Resolution};
use sol_atlas_core::confluence::LoadedCells;
use sol_atlas_core::entity::{GeoPoint, SpatialExtent};
use sol_atlas_core::evidence::EvidenceBearingNaturalEvent;
use sol_atlas_core::evidence_confluence::{
    admit_record, compute_evidence_aware, EvidenceConfluenceAudit, EventAdmissionPolicy,
};
use sol_atlas_core::planetary::{
    EnvironmentalObservation, EvidenceClass, ExternalEvidenceRef, TemporalExtent, Uncertainty,
};
use sol_atlas_core::types::{DisplayMagnitude, Layer, NaturalEvent, NaturalEventType};

fn cell(lat: f64, lon: f64) -> Option<u64> {
    LatLng::new(lat, lon)
        .ok()
        .map(|ll| u64::from(ll.to_cell(Resolution::Two)))
}

fn event(
    event_type: NaturalEventType,
    class: EvidenceClass,
    lat: f64,
    lon: f64,
    id: &str,
) -> EvidenceBearingNaturalEvent {
    EvidenceBearingNaturalEvent {
        event: NaturalEvent {
            lat: lat.to_bits(),
            lon: lon.to_bits(),
            event_type,
            magnitude: DisplayMagnitude::Value(1.0f64.to_bits()),
            name: id.to_string(),
        },
        observation: EnvironmentalObservation::new(
            format!("atlas:{id}"),
            "natural_event",
            class,
            None,
            SpatialExtent::Point(GeoPoint::wgs84(lat.to_bits(), lon.to_bits(), None).unwrap()),
            TemporalExtent::Unspecified,
            Uncertainty::Unspecified,
            vec![ExternalEvidenceRef {
                source_system: "test".to_string(),
                resource_id: id.to_string(),
                content_digest: Some(format!("sha256:{id}")),
                retrieved_at: None,
                license: None,
            }],
        )
        .unwrap(),
    }
}

fn cells_of(records: &[EvidenceBearingNaturalEvent]) -> Vec<Option<u64>> {
    records
        .iter()
        .map(|r| cell(f64::from_bits(r.event.lat), f64::from_bits(r.event.lon)))
        .collect()
}

#[test]
fn synthetic_fire_never_enters_real_confluence() {
    let data = LoadedCells {
        nuclear_sites: vec![cell(-26.2, 28.0)],
        ..Default::default()
    };
    let records = vec![event(
        NaturalEventType::Fire,
        EvidenceClass::Scenario,
        -26.2001,
        28.0001,
        "synthetic-fire",
    )];
    let result = compute_evidence_aware(
        &data,
        &records,
        &cells_of(&records),
        2,
        EventAdmissionPolicy::ObservedOrReported,
    );
    assert!(result.cells.is_empty());
    assert_eq!(result.audit.excluded_scenario, 1);
    assert_eq!(result.audit.admitted_total(), 0);
}

#[test]
fn observed_wildfire_can_participate_even_when_same_layer_has_synthetic_records() {
    let data = LoadedCells {
        nuclear_sites: vec![cell(-26.2, 28.0)],
        ..Default::default()
    };
    let records = vec![
        event(NaturalEventType::Fire, EvidenceClass::Scenario, -26.2001, 28.0001, "demo-fire"),
        event(NaturalEventType::Fire, EvidenceClass::Observed, -26.2002, 28.0002, "eonet-fire"),
    ];
    let result = compute_evidence_aware(
        &data,
        &records,
        &cells_of(&records),
        2,
        EventAdmissionPolicy::ObservedOrReported,
    );
    assert_eq!(result.cells.len(), 1);
    assert!(result.cells[0].layers.contains(&Layer::Nuclear));
    assert!(result.cells[0].layers.contains(&Layer::Fires));
    assert_eq!(result.audit.admitted_observed, 1);
    assert_eq!(result.audit.excluded_scenario, 1);
}

#[test]
fn reported_events_are_policy_controlled() {
    let data = LoadedCells {
        chokepoints: vec![cell(19.42, -155.28)],
        ..Default::default()
    };
    let records = vec![event(
        NaturalEventType::Volcano,
        EvidenceClass::Reported,
        19.421,
        -155.287,
        "gvp-kilauea",
    )];
    let strict = compute_evidence_aware(
        &data,
        &records,
        &cells_of(&records),
        2,
        EventAdmissionPolicy::ObservedOnly,
    );
    assert!(strict.cells.is_empty());
    assert_eq!(strict.audit.excluded_reported_by_policy, 1);

    let inclusive = compute_evidence_aware(
        &data,
        &records,
        &cells_of(&records),
        2,
        EventAdmissionPolicy::ObservedOrReported,
    );
    assert_eq!(inclusive.cells.len(), 1);
    assert_eq!(inclusive.audit.admitted_reported, 1);
    assert!(inclusive.cells[0].layers.contains(&Layer::Volcanoes));
}

#[test]
fn derived_forecast_and_inferred_products_are_not_double_counted_as_physical_events() {
    let records = vec![
        event(NaturalEventType::Storm, EvidenceClass::Derived, 0.0, 0.0, "derived"),
        event(NaturalEventType::Storm, EvidenceClass::Forecast, 0.0, 0.0, "forecast"),
        event(NaturalEventType::Storm, EvidenceClass::Inferred, 0.0, 0.0, "inferred"),
    ];
    let result = compute_evidence_aware(
        &LoadedCells::default(),
        &records,
        &cells_of(&records),
        1,
        EventAdmissionPolicy::ObservedOrReported,
    );
    assert!(result.cells.is_empty());
    assert_eq!(result.audit.excluded_derived, 1);
    assert_eq!(result.audit.excluded_forecast, 1);
    assert_eq!(result.audit.excluded_inferred, 1);
}

#[test]
fn legacy_natural_event_cells_are_ignored() {
    let here = cell(35.0, 139.0);
    let data = LoadedCells {
        nuclear_sites: vec![here],
        natural_events: vec![sol_atlas_core::confluence::EventCell {
            cell: here,
            event_type: NaturalEventType::Earthquake,
        }],
        ..Default::default()
    };
    let records: Vec<EvidenceBearingNaturalEvent> = Vec::new();
    let result = compute_evidence_aware(
        &data,
        &records,
        &Vec::new(),
        2,
        EventAdmissionPolicy::ObservedOrReported,
    );
    assert!(result.cells.is_empty());
    assert_eq!(result.audit, EvidenceConfluenceAudit::default());
}

#[test]
fn audit_counts_every_record_once() {
    let records = vec![
        event(NaturalEventType::Earthquake, EvidenceClass::Observed, 1.0, 1.0, "a"),
        event(NaturalEventType::Earthquake, EvidenceClass::Reported, 1.0, 1.0, "b"),
        event(NaturalEventType::Earthquake, EvidenceClass::Scenario, 1.0, 1.0, "c"),
        event(NaturalEventType::Earthquake, EvidenceClass::Reported, 1.0, 1.0, "d"),
    ];
    let result = compute_evidence_aware(
        &LoadedCells::default(),
        &records,
        &cells_of(&records),
        1,
        EventAdmissionPolicy::ObservedOnly,
    );
    assert_eq!(result.audit.admitted_total() + result.audit.excluded_total(), 4);
    assert_eq!(result.audit.admitted_observed, 1);
    assert_eq!(result.audit.excluded_reported_by_policy, 2);
    assert_eq!(result.cells.len(), 1);
    assert_eq!(result.cells[0].entity_count, 1);
}

#[test]
fn admit_record_follows_the_policy() {
    let mut audit = EvidenceConfluenceAudit::default();
    assert!(admit_record(EvidenceClass::Observed, EventAdmissionPolicy::ObservedOnly, &mut audit));
    assert!(!admit_record(EvidenceClass::Reported, EventAdmissionPolicy::ObservedOnly, &mut audit));
    assert!(admit_record(EvidenceClass::Reported, EventAdmissionPolicy::ObservedOrReported, &mut audit));
    assert!(!admit_record(EvidenceClass::Forecast, EventAdmissionPolicy::ObservedOrReported, &mut audit));
    assert_eq!(audit.admitted_observed, 1);
    assert_eq!(audit.admitted_reported, 1);
    assert_eq!(audit.excluded_reported_by_policy, 1);
    assert_eq!(audit.excluded_forecast, 1);
    assert_eq!(EventAdmissionPolicy::default(), EventAdmissionPolicy::ObservedOrReported);
}

#[test]
fn removing_an_excluded_record_anywhere_keeps_the_cells() {
    let data = LoadedCells {
        nuclear_sites: vec![cell(-26.2, 28.0)],
        ..Default::default()
    };
    let all = vec![
        event(NaturalEventType::Fire, EvidenceClass::Observed, -26.2002, 28.0002, "a"),
        event(NaturalEventType::Storm, EvidenceClass::Forecast, -26.2001, 28.0001, "b"),
        event(NaturalEventType::Volcano, EvidenceClass::Reported, -26.2003, 28.0003, "c"),
    ];
    let kept = vec![all[0].clone(), all[2].clone()];
    for policy in [EventAdmissionPolicy::ObservedOnly, EventAdmissionPolicy::ObservedOrReported] {
        let a = compute_evidence_aware(&data, &all, &cells_of(&all), 2, policy);
        let b = compute_evidence_aware(&data, &kept, &cells_of(&kept), 2, policy);
        assert_eq!(a.cells, b.cells);
    }
}

#[test]
fn removing_several_excluded_records_at_once_keeps_the_cells() {
    let data = LoadedCells {
        chokepoints: vec![cell(19.42, -155.28)],
        ..Default::default()
    };
    let all = vec![
        event(NaturalEventType::Storm, EvidenceClass::Scenario, 19.421, -155.287, "s"),
        event(NaturalEventType::Volcano, EvidenceClass::Observed, 19.421, -155.287, "o"),
        event(NaturalEventType::Storm, EvidenceClass::Derived, 19.421, -155.287, "d"),
        event(NaturalEventType::Fire, EvidenceClass::Inferred, 19.421, -155.287, "i"),
    ];
    let kept = vec![all[1].clone()];
    let a = compute_evidence_aware(&data, &all, &cells_of(&all), 2, EventAdmissionPolicy::ObservedOnly);
    let b = compute_evidence_aware(&data, &kept, &cells_of(&kept), 2, EventAdmissionPolicy::ObservedOnly);
    assert_eq!(a.cells, b.cells);
    assert_eq!(a.cells.len(), 1);
}
