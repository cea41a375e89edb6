use sol_atlas_core::data::parse_natural_events;
use sol_atlas_core::types::{DisplayMagnitude, NaturalEventType};

fn shown(m: DisplayMagnitude) -> f64 {
    match m {
        DisplayMagnitude::Value(bits) => f64::from_bits(bits),
        DisplayMagnitude::Brightness(bits) => f64::from_bits(bits) / 100.0,
        DisplayMagnitude::Default => 1.0,
    }
}

#[test]
fn parse_geojson_earthquakes() {
    let json = r#"{
        "type": "FeatureCollection",
        "features": [
            {
                "type": "Feature",
                "properties": {"magnitude": 5.1, "place": "Peru", "source": "USGS", "type": "earthquake"},
                "geometry": {"type": "Point", "coordinates": [-80.5, -5.2, 10]}
            },
            {
                "type": "Feature",
                "properties": {"magnitude": 3.2, "place": "Japan", "source": "USGS"},
                "geometry": {"type": "Point", "coordinates": [139.7, 35.7, 5]}
            }
        ]
    }"#;
    let events = parse_natural_events(json, "[]", "[]", "[]");
    assert_eq!(events.len(), 2);
    assert_eq!(events[0].event_type, NaturalEventType::Earthquake);
    assert!((f64::from_bits(events[0].lat) - (-5.2)).abs() < 0.01);
    assert!((shown(events[0].magnitude) - 5.1).abs() < 0.01);
    assert_eq!(events[0].name, "Peru");
}

#[test]
fn parse_geojson_fires_preserves_renderer_brightness_scale() {
    let json = r#"{
        "type": "FeatureCollection",
        "features": [
            {
                "type": "Feature",
                "properties": {"brightness": 387.0, "confidence": 94, "source": "Demo Data", "type": "fire"},
                "geometry": {"type": "Point", "coordinates": [25.0, -30.0]}
            }
        ]
    }"#;
    let events = parse_natural_events("[]", json, "[]", "[]");
    assert_eq!(events.len(), 1);
    assert_eq!(events[0].event_type, NaturalEventType::Fire);
    assert!((shown(events[0].magnitude) - 3.87).abs() < 0.01);
}

#[test]
fn eonet_wildfire_is_not_misclassified_as_storm() {
    let json = r#"{
        "features": [{
            "properties": {
                "source": "NASA EONET",
                "title": "Prescribed Fire",
                "categories": ["Wildfires"],
                "event_id": "EONET_1",
                "magnitude": 1047.0,
                "magnitude_unit": "acres"
            },
            "geometry": {"coordinates": [-84.0, 30.0]}
        }]
    }"#;
    let events = parse_natural_events("[]", "[]", json, "[]");
    assert_eq!(events.len(), 1);
    assert_eq!(events[0].event_type, NaturalEventType::Fire);
}

#[test]
fn parse_geojson_empty() {
    let events = parse_natural_events("[]", "[]", "[]", "[]");
    assert!(events.is_empty());
}

#[test]
fn parse_geojson_invalid() {
    let events = parse_natural_events("not json", "{}", "null", "");
    assert!(events.is_empty());
}

#[test]
fn datasets_keep_their_order_and_fallback_types() {
    let point = |name: &str, lon: f64, lat: f64| {
        format!(
            r#"{{"features": [{{"properties": {{"name": "{name}"}}, "geometry": {{"coordinates": [{lon}, {lat}]}}}}]}}"#
        )
    };
    let events = parse_natural_events(
        &point("quake", 1.0, 2.0),
        &point("fire", 3.0, 4.0),
        &point("storm", 5.0, 6.0),
        &point("volcano", 7.0, 8.0),
    );
    let names: Vec<&str> = events.iter().map(|e| e.name.as_str()).collect();
    assert_eq!(names, vec!["quake", "fire", "storm", "volcano"]);
    let types: Vec<NaturalEventType> = events.iter().map(|e| e.event_type).collect();
    assert_eq!(
        types,
        vec![
            NaturalEventType::Earthquake,
            NaturalEventType::Fire,
            NaturalEventType::Storm,
            NaturalEventType::Volcano
        ]
    );
    assert_eq!(events[0].magnitude, DisplayMagnitude::Default);
    assert_eq!(f64::from_bits(events[3].lon), 7.0);
}

#[test]
fn a_wrongly_typed_member_makes_the_dataset_unreadable() {
    let good = r#"{"properties": {"place": "A"}, "geometry": {"coordinates": [1.0, 2.0]}}"#;
    let bad = r#"{"properties": {"place": 5}, "geometry": {"coordinates": [1.0, 2.0]}}"#;
    let ok = format!(r#"{{"features": [{good}, {good}]}}"#);
    let broken = format!(r#"{{"features": [{good}, {bad}]}}"#);
    assert_eq!(parse_natural_events(&ok, "[]", "[]", "[]").len(), 2);
    assert!(parse_natural_events(&broken, "[]", "[]", "[]").is_empty());
    let null_member = format!(r#"{{"features": [{{"properties": {{"place": null, "categories": []}}, "geometry": {{"coordinates": [1.0, 2.0]}}}}]}}"#);
    assert_eq!(parse_natural_events(&null_member, "[]", "[]", "[]")[0].name, "Unknown");
    let missing_geometry = r#"{"features": [{"properties": {}}]}"#;
    assert!(parse_natural_events(missing_geometry, "[]", "[]", "[]").is_empty());
}

#[test]
fn short_or_invalid_points_are_skipped_alone() {
    let json = r#"{"features": [
        {"properties": {"place": "one"}, "geometry": {"coordinates": [1.0]}},
        {"properties": {"place": "two"}, "geometry": {"coordinates": [200.0, 10.0]}},
        {"properties": {"place": "three"}, "geometry": {"coordinates": [10.0, 20.0]}}
    ]}"#;
    let events = parse_natural_events(json, "[]", "[]", "[]");
    assert_eq!(events.len(), 1);
    assert_eq!(events[0].name, "three");
}

#[test]
fn records_written_as_arrays_are_read_by_field_order() {
    let json = r#"[[
        [null, [4.5, null, null, "Quake"], [[139.7, 35.7]]],
        {"id": "F2", "properties": [], "geometry": [[10.0, 20.0, 5.0]]}
    ]]"#;
    let events = parse_natural_events(json, "[]", "[]", "[]");
    assert_eq!(events.len(), 2);
    assert_eq!(events[0].name, "Quake");
    assert_eq!(shown(events[0].magnitude), 4.5);
    assert_eq!(f64::from_bits(events[0].lat), 35.7);
    assert_eq!(events[1].name, "Unknown");
    assert_eq!(f64::from_bits(events[1].lon), 10.0);
}

#[test]
fn record_arrays_that_are_too_long_or_too_short_are_unreadable() {
    let too_long = r#"[[[null, {}, [[1.0, 2.0]], "extra"]]]"#;
    assert!(parse_natural_events(too_long, "[]", "[]", "[]").is_empty());
    let missing_geometry = r#"[[[null, {}]]]"#;
    assert!(parse_natural_events(missing_geometry, "[]", "[]", "[]").is_empty());
    let no_features = "[]";
    assert!(parse_natural_events(no_features, "[]", "[]", "[]").is_empty());
    let collection_too_long = r#"[[], 1]"#;
    assert!(parse_natural_events(collection_too_long, "[]", "[]", "[]").is_empty());
}

#[test]
fn a_repeated_member_is_read_with_its_last_occurrence() {
    let json = r#"{"features": [
        {"properties": {"place": "First", "place": "Second"}, "geometry": {"coordinates": [1.0, 2.0]}}
    ]}"#;
    let events = parse_natural_events(json, "[]", "[]", "[]");
    assert_eq!(events.len(), 1);
    assert_eq!(events[0].name, "Second");
}
