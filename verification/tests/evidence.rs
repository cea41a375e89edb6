use sol_atlas_core::evidence::{dataset_rejections, record_rejection, RecordRejection};
use sol_atlas_core::geojson::{Feature, Properties};
use sol_atlas_core::evidence::{
    classify_event_type, classify_evidence, parse_dataset, parse_natural_event_records,
    parse_source_time, phenomenon_for,
};
use sol_atlas_core::entity::{ReferenceFrame, SpatialExtent};
use sol_atlas_core::planetary::{EvidenceClass, TemporalExtent};
use sol_atlas_core::types::NaturalEventType;

#[test]
fn usgs_earthquake_becomes_observed_mw_evidence() {
    let json = r#"{
      "features": [{
        "properties": {
          "source": "USGS",
          "magnitude": 5.1,
          "place": "Peru",
          "time": "2025-09-16T01:05:59.070000",
          "data_lineage": ["USGS", "Seismic Network", "Real-time"]
        },
        "geometry": {"coordinates": [-80.5, -5.2, 10]}
      }]
    }"#;
    let records = parse_dataset("usgs-earthquakes", json, NaturalEventType::Earthquake);
    assert_eq!(records.len(), 1);
    let record = &records[0];
    assert_eq!(record.event.event_type, NaturalEventType::Earthquake);
    assert_eq!(record.observation.class, EvidenceClass::Observed);
    let measurement = record.observation.measurement.as_ref().unwrap();
    assert_eq!(measurement.unit, "Mw");
    assert!((f64::from_bits(measurement.value) - 5.1).abs() < 0.001);
    assert!(matches!(record.observation.temporal, TemporalExtent::Instant(_)));
}

#[test]
fn synthetic_firms_record_is_scenario_not_observed() {
    let json = r#"{
      "features": [{
        "properties": {
          "source": "Demo Data",
          "brightness": 387.6,
          "detection_time": "2025-09-16T02:39:42.850887",
          "data_lineage": ["Demo", "Synthetic", "Generated"]
        },
        "geometry": {"coordinates": [-117.3, 33.3]}
      }]
    }"#;
    let records = parse_dataset("nasa-firms-demo", json, NaturalEventType::Fire);
    assert_eq!(records[0].observation.class, EvidenceClass::Scenario);
    assert_eq!(records[0].observation.measurement.as_ref().unwrap().unit, "K");
}

#[test]
fn eonet_category_overrides_storm_fallback() {
    let json = r#"{
      "features": [{
        "properties": {
          "source": "NASA EONET",
          "title": "Prescribed Fire",
          "categories": ["Wildfires"],
          "event_id": "EONET_1",
          "magnitude": 1047.0,
          "magnitude_unit": "acres",
          "date": "2025-09-11T09:06:00Z",
          "data_lineage": ["NASA", "EONET", "Satellite Observation"]
        },
        "geometry": {"coordinates": [-84.0, 30.0]}
      }]
    }"#;
    let records = parse_dataset("nasa-eonet", json, NaturalEventType::Storm);
    assert_eq!(records[0].event.event_type, NaturalEventType::Fire);
    assert_eq!(records[0].observation.class, EvidenceClass::Observed);
    assert_eq!(records[0].observation.measurement.as_ref().unwrap().unit, "acres");
}

#[test]
fn expert_reviewed_volcano_needs_no_fake_scalar_or_time() {
    let json = r#"{
      "features": [{
        "properties": {
          "source": "Smithsonian GVP",
          "name": "Kilauea",
          "data_lineage": ["Smithsonian", "Global Volcanism Program", "Expert Review"]
        },
        "geometry": {"coordinates": [-155.287, 19.421]}
      }]
    }"#;
    let records = parse_dataset("smithsonian-gvp", json, NaturalEventType::Volcano);
    assert_eq!(records[0].observation.class, EvidenceClass::Reported);
    assert!(records[0].observation.measurement.is_none());
    assert_eq!(records[0].observation.temporal, TemporalExtent::Unspecified);
}

#[test]
fn invalid_coordinates_are_rejected_not_repaired() {
    let json = r#"{
      "features": [{
        "properties": {"source": "USGS", "magnitude": 4.0},
        "geometry": {"coordinates": [0.0, 91.0]}
      }]
    }"#;
    assert!(parse_dataset("usgs-earthquakes", json, NaturalEventType::Earthquake).is_empty());
}

#[test]
fn record_ids_and_sources_follow_the_fallback_chain() {
    let json = r#"{"features": [
        {"properties": {"event_id": "E1", "link": "https://example.org/e1"}, "geometry": {"coordinates": [1.0, 2.0]}},
        {"id": "F2", "properties": {}, "geometry": {"coordinates": [1.0, 2.0]}},
        {"properties": {"time": "2025-09-11T09:06:00Z"}, "geometry": {"coordinates": [1.0, 2.0]}},
        {"properties": {"source": "Local"}, "geometry": {"coordinates": [1.0, 2.0]}}
    ]}"#;
    let records = parse_dataset("ds", json, NaturalEventType::Storm);
    assert_eq!(records.len(), 4);
    let ids: Vec<&str> = records.iter().map(|r| r.observation.id.as_str()).collect();
    assert_eq!(ids, vec!["atlas:ds:E1", "atlas:ds:F2", "atlas:ds:2025-09-11T09:06:00Z:2", "atlas:ds:3"]);
    assert_eq!(records[0].observation.evidence[0].resource_id, "https://example.org/e1");
    assert_eq!(records[1].observation.evidence[0].resource_id, "ds:F2");
    assert_eq!(records[0].observation.evidence[0].source_system, "ds");
    assert_eq!(records[3].observation.evidence[0].source_system, "Local");
    assert_eq!(records[2].observation.temporal, TemporalExtent::Instant(1757581560));
    assert_eq!(records[0].observation.phenomenon, "severe_storm");
    assert_eq!(records[0].event.name, "Unknown");
    assert!(records[0].observation.evidence[0].content_digest.is_none());
}

#[test]
fn source_times_parse_rfc3339_and_offsetless_iso() {
    assert_eq!(parse_source_time("2025-09-11T09:06:00Z"), Some(1757581560));
    assert_eq!(parse_source_time("2025-09-11T11:06:00+02:00"), Some(1757581560));
    assert_eq!(parse_source_time("2025-09-16T01:05:59.070000"), Some(1757984759));
    assert_eq!(parse_source_time("2025-09-16T02:39:42.850887"), Some(1757990382));
    assert_eq!(parse_source_time("yesterday"), None);
    assert_eq!(parse_source_time(""), None);
}

#[test]
fn classification_rules() {
    let cats = |v: &[&str]| v.iter().map(|s| s.to_string()).collect::<Vec<String>>();
    assert_eq!(classify_event_type(&cats(&["Severe Storms"]), NaturalEventType::Fire), NaturalEventType::Storm);
    assert_eq!(classify_event_type(&cats(&["Volcanoes", "Wildfires"]), NaturalEventType::Storm), NaturalEventType::Volcano);
    assert_eq!(classify_event_type(&cats(&["Floods", "SEISMIC activity"]), NaturalEventType::Storm), NaturalEventType::Earthquake);
    assert_eq!(classify_event_type(&cats(&["Tropical Cyclone"]), NaturalEventType::Fire), NaturalEventType::Storm);
    assert_eq!(classify_event_type(&cats(&["Floods"]), NaturalEventType::Volcano), NaturalEventType::Volcano);
    assert_eq!(classify_event_type(&cats(&[]), NaturalEventType::Earthquake), NaturalEventType::Earthquake);

    let none: Option<String> = None;
    assert_eq!(classify_evidence(&Some("DEMO feed".into()), &cats(&[]), NaturalEventType::Storm), EvidenceClass::Scenario);
    assert_eq!(classify_evidence(&none, &cats(&["Model", "GENERATED"]), NaturalEventType::Storm), EvidenceClass::Scenario);
    assert_eq!(classify_evidence(&none, &cats(&["Expert", "Review"]), NaturalEventType::Storm), EvidenceClass::Reported);
    assert_eq!(classify_evidence(&none, &cats(&[]), NaturalEventType::Volcano), EvidenceClass::Reported);
    assert_eq!(classify_evidence(&Some("USGS".into()), &cats(&["Real-time"]), NaturalEventType::Earthquake), EvidenceClass::Observed);
    assert_eq!(classify_evidence(&none, &cats(&["Synthetic"]), NaturalEventType::Volcano), EvidenceClass::Scenario);
}

#[test]
fn phenomena_are_named() {
    assert_eq!(phenomenon_for(NaturalEventType::Earthquake), "earthquake");
    assert_eq!(phenomenon_for(NaturalEventType::Fire), "fire");
    assert_eq!(phenomenon_for(NaturalEventType::Storm), "severe_storm");
    assert_eq!(phenomenon_for(NaturalEventType::Volcano), "volcanic_activity");
}

#[test]
fn measurements_need_a_finite_value_and_a_unit() {
    let json = r#"{"features": [
        {"properties": {"magnitude": 12.0, "magnitude_unit": ""}, "geometry": {"coordinates": [1.0, 2.0]}},
        {"properties": {"magnitude": 12.0}, "geometry": {"coordinates": [1.0, 2.0]}},
        {"properties": {"magnitude": 12.0, "magnitude_unit": "kts"}, "geometry": {"coordinates": [1.0, 2.0]}},
        {"properties": {"brightness": 300.0, "magnitude": 2.0, "magnitude_unit": "kts"}, "geometry": {"coordinates": [1.0, 2.0]}}
    ]}"#;
    let records = parse_dataset("ds", json, NaturalEventType::Storm);
    assert!(records[0].observation.measurement.is_none());
    assert!(records[1].observation.measurement.is_none());
    assert_eq!(records[2].observation.measurement.as_ref().unwrap().unit, "kts");
    let m = records[3].observation.measurement.as_ref().unwrap();
    assert_eq!(m.unit, "K");
    assert_eq!(f64::from_bits(m.value), 300.0);
}

#[test]
fn all_four_datasets_are_read_in_order() {
    let one = |place: &str| format!(r#"{{"features": [{{"properties": {{"place": "{place}"}}, "geometry": {{"coordinates": [1.0, 2.0]}}}}]}}"#);
    let records = parse_natural_event_records(&one("a"), &one("b"), &one("c"), &one("d"));
    let ids: Vec<&str> = records.iter().map(|r| r.observation.id.as_str()).collect();
    assert_eq!(
        ids,
        vec!["atlas:usgs-earthquakes:0", "atlas:nasa-firms-demo:0", "atlas:nasa-eonet:0", "atlas:smithsonian-gvp:0"]
    );
    assert_eq!(records[3].observation.class, EvidenceClass::Reported);
}

#[test]
fn every_record_carries_its_valid_point_and_one_source() {
    let json = r#"{"features": [
        {"properties": {"source": "USGS", "magnitude": 4.0}, "geometry": {"coordinates": [-181.0, 0.0]}},
        {"properties": {"source": "USGS", "magnitude": 4.0}, "geometry": {"coordinates": [180.0, -90.0]}},
        {"properties": {"source": "USGS", "magnitude": 4.0}, "geometry": {"coordinates": [10.0]}},
        {"properties": {"source": "USGS", "magnitude": 4.5}, "geometry": {"coordinates": [139.7, 35.7, 10.0]}}
    ]}"#;
    let records = parse_natural_event_records(json, "[]", "[]", "[]");
    assert_eq!(records.len(), 2);
    for record in &records {
        let lat = f64::from_bits(record.event.lat);
        let lon = f64::from_bits(record.event.lon);
        assert!((-90.0..=90.0).contains(&lat));
        assert!((-180.0..=180.0).contains(&lon));
        match &record.observation.spatial {
            SpatialExtent::Point(p) => {
                assert_eq!(p.lat, record.event.lat);
                assert_eq!(p.lon, record.event.lon);
                assert_eq!(p.altitude_m, None);
                assert_eq!(p.reference_frame, ReferenceFrame::EarthWgs84);
            }
            other => panic!("expected a point, got {other:?}"),
        }
        assert_eq!(record.observation.evidence.len(), 1);
        assert_eq!(record.observation.phenomenon, "earthquake");
    }
    assert_eq!(f64::from_bits(records[1].event.lat), 35.7);
}

#[test]
fn rejected_features_are_reported_with_their_reason() {
    let json = r#"{"features": [
        {"properties": {}, "geometry": {"coordinates": [10.0]}},
        {"properties": {}, "geometry": {"coordinates": [0.0, 91.0]}},
        {"properties": {}, "geometry": {"coordinates": [181.0, 0.0]}},
        {"properties": {}, "geometry": {"coordinates": [1.0, 2.0]}},
        {"properties": {}, "geometry": {"coordinates": [1.0, 95.0, 3.0]}}
    ]}"#;
    assert_eq!(
        dataset_rejections(json),
        Some(vec![
            (0, RecordRejection::NoPointCoordinates),
            (1, RecordRejection::LatitudeOutOfRange),
            (2, RecordRejection::LongitudeOutOfRange),
            (4, RecordRejection::LatitudeOutOfRange),
        ])
    );
    assert_eq!(dataset_rejections("not json"), None);
    assert_eq!(dataset_rejections("{}"), None);
    assert_eq!(dataset_rejections(r#"{"features": []}"#), Some(vec![]));
}

#[test]
fn a_non_finite_marker_scale_is_a_rejection() {
    let mut properties = Properties::default();
    properties.magnitude = Some(f64::INFINITY.to_bits());
    let feature = Feature {
        id: None,
        properties,
        coordinates: vec![1.0f64.to_bits(), 2.0f64.to_bits()],
    };
    assert_eq!(record_rejection(&feature), Some(RecordRejection::NonFiniteMagnitude));
    let mut fine = feature.clone();
    fine.properties.magnitude = None;
    fine.properties.brightness = Some(f64::NAN.to_bits());
    assert_eq!(record_rejection(&fine), Some(RecordRejection::NonFiniteMagnitude));
    fine.properties.brightness = Some(350.0f64.to_bits());
    assert_eq!(record_rejection(&fine), None);
}
