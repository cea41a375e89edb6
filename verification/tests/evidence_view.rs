use sol_atlas_core::entity::{GeoPoint, SpatialExtent};
use sol_atlas_core::evidence::EvidenceBearingNaturalEvent;
use sol_atlas_core::evidence_view::{
    class_label, format_unix, summarize_event_evidence, temporal_label,
};
use sol_atlas_core::planetary::{
    EnvironmentalObservation, EvidenceClass, ExternalEvidenceRef, Measurement, TemporalExtent,
    Uncertainty,
};
use sol_atlas_core::types::{DisplayMagnitude, NaturalEvent, NaturalEventType};

fn record(class: EvidenceClass, measurement: Option<Measurement>) -> EvidenceBearingNaturalEvent {
    EvidenceBearingNaturalEvent {
        event: NaturalEvent {
            lat: (-5.2f64).to_bits(),
            lon: (-80.5f64).to_bits(),
            event_type: NaturalEventType::Earthquake,
            magnitude: DisplayMagnitude::Value(5.1f64.to_bits()),
            name: "Peru".to_string(),
        },
        observation: EnvironmentalObservation::new(
            "atlas:test".to_string(),
            "earthquake",
            class,
            measurement,
            SpatialExtent::Point(
                GeoPoint::wgs84((-5.2f64).to_bits(), (-80.5f64).to_bits(), None).unwrap(),
            ),
            TemporalExtent::instant(1_758_591_159),
            Uncertainty::Unspecified,
            vec![ExternalEvidenceRef {
                source_system: "USGS".to_string(),
                resource_id: "event:test".to_string(),
                content_digest: None,
                retrieved_at: None,
                license: None,
            }],
        )
        .unwrap(),
    }
}

#[test]
fn summary_surfaces_source_class_time_and_unit() {
    let record = record(
        EvidenceClass::Observed,
        Some(Measurement::new(5.1f64.to_bits(), "Mw").unwrap()),
    );
    let summary =
        summarize_event_evidence(&record, "5.10".to_string(), "not supplied".to_string());
    assert_eq!(summary.class, "observed");
    assert_eq!(summary.source, "USGS");
    assert_eq!(summary.measurement_unit.as_deref(), Some("Mw"));
    assert!(summary.source_time.contains("UTC"));
    assert_eq!(summary.source_time, "2025-09-23 01:32:39 UTC");
    assert_eq!(summary.measurement_value.as_deref(), Some("5.10"));
    assert_eq!(summary.resource, "event:test");
    assert_eq!(summary.observation_id, "atlas:test");
}

#[test]
fn absent_measurement_remains_absent() {
    let summary = summarize_event_evidence(
        &record(EvidenceClass::Reported, None),
        "unused".to_string(),
        "not supplied".to_string(),
    );
    assert!(summary.measurement_value.is_none());
    assert!(summary.measurement_unit.is_none());
    assert_eq!(summary.class, "reported");
    assert_eq!(summary.uncertainty, "not supplied");
}

#[test]
fn unix_times_are_written_in_utc_or_as_raw_seconds() {
    assert_eq!(format_unix(0), "1970-01-01 00:00:00 UTC");
    assert_eq!(format_unix(-1), "1969-12-31 23:59:59 UTC");
    assert_eq!(format_unix(i64::MAX), format!("Unix {}", i64::MAX));
    assert_eq!(format_unix(i64::MIN), format!("Unix {}", i64::MIN));
}

#[test]
fn temporal_labels() {
    assert_eq!(temporal_label(TemporalExtent::Unspecified), "source time not supplied");
    assert_eq!(temporal_label(TemporalExtent::Instant(0)), "1970-01-01 00:00:00 UTC");
    assert_eq!(
        temporal_label(TemporalExtent::Interval { start: 0, end: 60 }),
        "1970-01-01 00:00:00 UTC to 1970-01-01 00:01:00 UTC"
    );
}

#[test]
fn class_labels_are_lowercase_names() {
    assert_eq!(class_label(EvidenceClass::Reported), "reported");
    assert_eq!(class_label(EvidenceClass::Observed), "observed");
    assert_eq!(class_label(EvidenceClass::Derived), "derived");
    assert_eq!(class_label(EvidenceClass::Inferred), "inferred");
    assert_eq!(class_label(EvidenceClass::Forecast), "forecast");
    assert_eq!(class_label(EvidenceClass::Scenario), "scenario");
}

#[test]
fn unspecified_uncertainty_reads_not_supplied_whatever_the_caller_passes() {
    let summary = summarize_event_evidence(
        &record(EvidenceClass::Observed, None),
        "unused".to_string(),
        "caller text".to_string(),
    );
    assert_eq!(summary.uncertainty, "not supplied");
    let mut specified = record(EvidenceClass::Observed, None);
    specified.observation.uncertainty = Uncertainty::StandardDeviation(0.5f64.to_bits());
    let summary = summarize_event_evidence(&specified, "unused".to_string(), "σ = 0.500".to_string());
    assert_eq!(summary.uncertainty, "σ = 0.500");
}
