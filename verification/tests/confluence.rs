use h3o::{CellIndex, LatLng, Resolution};
use sol_atlas_core::confluence::{
    bin_placements, compute, ConfluenceCell, EventCell, LoadedCells, CONFLUENCE_RESOLUTION,
};
use sol_atlas_core::evidence::audited_layer_provenance;
use sol_atlas_core::types::{DataKind, Layer, NaturalEventType};

fn cell(lat: f64, lon: f64) -> Option<u64> {
    assert_eq!(CONFLUENCE_RESOLUTION, 2);
    LatLng::new(lat, lon)
        .ok()
        .map(|ll| u64::from(ll.to_cell(Resolution::Two)))
}

fn event(lat: f64, lon: f64, event_type: NaturalEventType) -> EventCell {
    EventCell { cell: cell(lat, lon), event_type }
}

#[test]
fn no_confluence_below_min_layers() {
    let data = LoadedCells {
        sites: vec![cell(10.0, 10.0), cell(10.001, 10.001)],
        ..Default::default()
    };
    assert!(compute(&data, 2).is_empty());
}

#[test]
fn three_distinct_real_layers_co_locate() {
    let data = LoadedCells {
        nuclear_sites: vec![cell(35.0, 139.0)],
        natural_events: vec![event(35.0001, 139.0001, NaturalEventType::Earthquake)],
        chokepoints: vec![cell(35.0002, 139.0002)],
        ..Default::default()
    };
    let result = compute(&data, 2);
    assert_eq!(result.len(), 1);
    let c = &result[0];
    assert_eq!(c.layers.len(), 3);
    assert!(c.layers.contains(&Layer::Nuclear));
    assert!(c.layers.contains(&Layer::Earthquakes));
    assert!(c.layers.contains(&Layer::Chokepoints));
    assert_eq!(c.entity_count, 3);
    assert!(c.summary().contains("3 real systems"));
}

#[test]
fn mixed_fire_layer_cannot_influence_real_confluence() {
    let data = LoadedCells {
        nuclear_sites: vec![cell(35.0, 139.0)],
        natural_events: vec![event(35.0001, 139.0001, NaturalEventType::Fire)],
        ..Default::default()
    };
    assert!(compute(&data, 2).is_empty());
}

#[test]
fn scenario_data_never_appears_even_at_identical_coordinates() {
    let data = LoadedCells {
        nuclear_sites: vec![cell(9.145, 40.49)],
        chokepoints: vec![cell(9.1451, 40.4901)],
        ..Default::default()
    };
    let result = compute(&data, 2);
    assert_eq!(result.len(), 1);
    for layer in &result[0].layers {
        assert_ne!(audited_layer_provenance(*layer).kind, DataKind::Scenario);
    }
}

#[test]
fn far_apart_entities_do_not_merge() {
    let data = LoadedCells {
        nuclear_sites: vec![cell(35.0, 139.0)],
        chokepoints: vec![cell(-33.0, 151.0)],
        ..Default::default()
    };
    assert!(compute(&data, 2).is_empty());
}

#[test]
fn cell_center_is_a_valid_coordinate() {
    let data = LoadedCells {
        nuclear_sites: vec![cell(35.0, 139.0)],
        critical_infrastructure: vec![cell(35.0, 139.0)],
        ..Default::default()
    };
    let result = compute(&data, 2);
    assert_eq!(result.len(), 1);
    let centre = LatLng::from(CellIndex::try_from(result[0].cell).unwrap());
    assert!(centre.lat().abs() <= 90.0);
    assert!(centre.lng().abs() <= 180.0);
}

#[test]
fn records_without_a_cell_are_skipped() {
    let data = LoadedCells {
        nuclear_sites: vec![cell(35.0, 139.0), None],
        chokepoints: vec![None, cell(35.0, 139.0)],
        ..Default::default()
    };
    let result = compute(&data, 2);
    assert_eq!(result.len(), 1);
    assert_eq!(result[0].entity_count, 2);
}

#[test]
fn layers_are_sorted_by_label_and_counted_once() {
    let here = cell(35.0, 139.0);
    let data = LoadedCells {
        sites: vec![here, here],
        nuclear_sites: vec![here],
        major_cities: vec![here],
        climate_projects: vec![here],
        health_facilities: vec![here],
        emergency_shelters: vec![here],
        ..Default::default()
    };
    let result = compute(&data, 1);
    assert_eq!(result.len(), 1);
    let labels: Vec<&str> = result[0].layers.iter().map(|l| l.label()).collect();
    let mut sorted = labels.clone();
    sorted.sort();
    assert_eq!(labels, sorted);
    assert_eq!(result[0].layers.len(), 6);
    assert_eq!(result[0].entity_count, 7);
}

#[test]
fn min_layers_zero_or_one_reports_every_occupied_cell() {
    let data = LoadedCells {
        sites: vec![cell(35.0, 139.0), cell(-33.0, 151.0)],
        ..Default::default()
    };
    assert_eq!(compute(&data, 0).len(), 2);
    assert_eq!(compute(&data, 1).len(), 2);
    assert!(compute(&data, 2).is_empty());
}

#[test]
fn bin_placements_groups_by_cell() {
    let pts = vec![(7u64, Layer::Energy), (7, Layer::Nuclear), (9, Layer::Energy), (7, Layer::Energy)];
    let result = bin_placements(&pts, 2);
    assert_eq!(result.len(), 1);
    assert_eq!(result[0].cell, 7);
    assert_eq!(result[0].entity_count, 3);
    assert_eq!(result[0].layers.len(), 2);
}

#[test]
fn summary_text_is_exact() {
    let one = ConfluenceCell { cell: 1, layers: vec![Layer::Nuclear], entity_count: 4 };
    assert_eq!(one.summary(), format!("1 real system: {}", Layer::Nuclear.label()));
    let two = ConfluenceCell {
        cell: 1,
        layers: vec![Layer::Chokepoints, Layer::Nuclear],
        entity_count: 2,
    };
    assert_eq!(
        two.summary(),
        format!("2 real systems: {}, {}", Layer::Chokepoints.label(), Layer::Nuclear.label())
    );
    let none = ConfluenceCell { cell: 1, layers: vec![], entity_count: 0 };
    assert_eq!(none.summary(), "0 real systems: ");
}

#[test]
fn fire_events_change_nothing_wherever_they_lie() {
    let here = cell(35.0, 139.0);
    let base = LoadedCells {
        nuclear_sites: vec![here],
        natural_events: vec![event(35.0, 139.0, NaturalEventType::Storm)],
        ..Default::default()
    };
    let with_fires = LoadedCells {
        natural_events: vec![
            event(35.0, 139.0, NaturalEventType::Fire),
            event(35.0, 139.0, NaturalEventType::Storm),
            event(-33.0, 151.0, NaturalEventType::Fire),
        ],
        ..base.clone()
    };
    assert_eq!(compute(&with_fires, 1), compute(&base, 1));
    assert_eq!(compute(&with_fires, 2).len(), 1);
}
