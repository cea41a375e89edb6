use sol_atlas_core::entity::{
    AtlasEntity, AtlasEntityId, Audience, CoordinateError, ExternalId, GeoPoint, ReferenceFrame,
    Relationship, SpatialExtent, TemporalExtent, VisibilityPolicy,
};

fn wgs84(lat: f64, lon: f64) -> Result<GeoPoint, CoordinateError> {
    GeoPoint::wgs84(lat.to_bits(), lon.to_bits(), None)
}

#[test]
fn wgs84_rejects_impossible_coordinates() {
    assert_eq!(wgs84(90.1, 0.0), Err(CoordinateError::LatitudeOutOfRange));
    assert_eq!(wgs84(0.0, 180.1), Err(CoordinateError::LongitudeOutOfRange));
}

#[test]
fn wgs84_accepts_the_closed_ranges_and_rejects_nan() {
    for (lat, lon) in [(90.0, 180.0), (-90.0, -180.0), (0.0, 0.0), (-0.0, -0.0), (36.0156, -114.7378)] {
        let point = wgs84(lat, lon).unwrap();
        assert_eq!(f64::from_bits(point.lat), lat);
        assert_eq!(f64::from_bits(point.lon), lon);
        assert_eq!(point.reference_frame, ReferenceFrame::EarthWgs84);
    }
    assert_eq!(wgs84(f64::NAN, 0.0), Err(CoordinateError::LatitudeOutOfRange));
    assert_eq!(wgs84(0.0, f64::NAN), Err(CoordinateError::LongitudeOutOfRange));
    assert_eq!(wgs84(-90.0000001, 0.0), Err(CoordinateError::LatitudeOutOfRange));
    assert_eq!(wgs84(0.0, -180.0000001), Err(CoordinateError::LongitudeOutOfRange));
    assert_eq!(wgs84(f64::INFINITY, 0.0), Err(CoordinateError::LatitudeOutOfRange));
    // Latitude is checked first.
    assert_eq!(wgs84(95.0, 200.0), Err(CoordinateError::LatitudeOutOfRange));
}

#[test]
fn in_frame_keeps_the_frame() {
    let frame = ReferenceFrame::CelestialBody { body: "moon".into(), frame: "selenographic".into() };
    let p = GeoPoint::in_frame(120.0f64.to_bits(), 500.0f64.to_bits(), Some(3.0f64.to_bits()), frame.clone());
    assert_eq!(p.reference_frame, frame);
    assert_eq!(f64::from_bits(p.lat), 120.0);
}

#[test]
fn kinds_and_external_ids_are_deduplicated() {
    let mut entity = AtlasEntity::new("atlas:test", VisibilityPolicy::private());
    entity.add_kind("hospital");
    entity.add_kind("hospital");
    entity.add_external_id(ExternalId::new("gers", "123"));
    entity.add_external_id(ExternalId::new("gers", "123"));

    assert_eq!(entity.kinds, vec!["hospital"]);
    assert_eq!(entity.external_ids.len(), 1);
    assert_eq!(entity.visibility.audience, Audience::Private);
}

#[test]
fn entity_identity_can_bridge_external_namespaces() {
    let mut entity = AtlasEntity::new("atlas:hoover-dam", VisibilityPolicy::public());
    entity.display_name = Some("Hoover Dam".into());
    entity.add_kind("dam");
    entity.add_kind("power_plant");
    entity.add_external_id(ExternalId::new("wikidata", "Q12516"));
    entity.relationships.push(Relationship::new("located_in", AtlasEntityId::new("atlas:nevada")));
    entity.spatial = Some(SpatialExtent::Point(wgs84(36.0156, -114.7378).unwrap()));

    assert_eq!(entity.kinds, vec!["dam", "power_plant"]);
    assert_eq!(entity.external_ids[0].namespace, "wikidata");
    assert_eq!(entity.relationships[0].target.as_str(), "atlas:nevada");
    assert_eq!(entity.id, AtlasEntityId::from("atlas:hoover-dam"));
}

#[test]
fn distinct_external_ids_are_all_kept_in_order() {
    let mut entity = AtlasEntity::new("atlas:x", VisibilityPolicy::public());
    entity.add_external_id(ExternalId::new("gers", "1"));
    entity.add_external_id(ExternalId::new("osm-node", "1"));
    entity.add_external_id(ExternalId::new("gers", "2"));
    entity.add_external_id(ExternalId::new("gers", "1"));
    assert_eq!(
        entity.external_ids,
        vec![ExternalId::new("gers", "1"), ExternalId::new("osm-node", "1"), ExternalId::new("gers", "2")]
    );
}

#[test]
fn new_entity_is_empty_and_timeless() {
    let entity = AtlasEntity::new("atlas:y", VisibilityPolicy::public());
    assert!(entity.display_name.is_none());
    assert!(entity.kinds.is_empty());
    assert!(entity.spatial.is_none());
    assert_eq!(entity.temporal, TemporalExtent::timeless());
    assert_eq!(entity.temporal.valid_from_unix_ms, None);
    assert!(entity.visibility.redisclosure_allowed);
    assert!(!VisibilityPolicy::private().redisclosure_allowed);
    assert_eq!(VisibilityPolicy::public().audience, Audience::Public);
}
