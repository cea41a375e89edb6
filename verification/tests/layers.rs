use sol_atlas_core::confluence::eligible_real_layers;
use sol_atlas_core::evidence::audited_layer_provenance;
use sol_atlas_core::types::{DataKind, Layer};

#[test]
fn layer_count() {
    let all = Layer::all();
    assert!(all.len() >= 18, "Expected at least 18 layers, got {}", all.len());
    assert!(all.contains(&Layer::Infrastructure));
    assert!(all.contains(&Layer::Chokepoints));
}

#[test]
fn all_layers_have_labels() {
    for layer in Layer::all() {
        assert!(!layer.label().is_empty(), "Layer {layer:?} has empty label");
        assert!(!layer.css_color().is_empty(), "Layer {layer:?} has empty css_color");
        let rgb = layer.rgb();
        for channel in rgb {
            let component = channel as f32 / 255.0;
            assert!((0.0..=1.0).contains(&component), "Layer {layer:?} RGB out of range: {rgb:?}");
        }
    }
}

#[test]
fn eligible_layers_are_never_scenario() {
    for layer in eligible_real_layers() {
        assert_ne!(
            audited_layer_provenance(layer).kind,
            DataKind::Scenario,
            "{layer:?} is Scenario — must never be confluence-eligible"
        );
    }
    for layer in [Layer::Climate, Layer::Emergency, Layer::Health] {
        assert_ne!(audited_layer_provenance(layer).kind, DataKind::Scenario);
    }
}

#[test]
fn audited_fire_layer_no_longer_claims_pure_observed_firms() {
    let provenance = audited_layer_provenance(Layer::Fires);
    assert_eq!(provenance.kind, DataKind::Curated);
    assert!(provenance.source.contains("synthetic"));
    assert_eq!(provenance.snapshot_date, "2025-09");
}

#[test]
fn audit_overrides_only_the_natural_event_layers() {
    assert_eq!(audited_layer_provenance(Layer::Earthquakes).kind, DataKind::Observed);
    assert_eq!(audited_layer_provenance(Layer::Storms).kind, DataKind::Observed);
    assert_eq!(audited_layer_provenance(Layer::Volcanoes).kind, DataKind::Curated);
    assert_eq!(audited_layer_provenance(Layer::Volcanoes).snapshot_date, "");
    assert_eq!(Layer::Fires.provenance().kind, DataKind::Observed);
    for layer in Layer::all() {
        if !matches!(layer, Layer::Earthquakes | Layer::Fires | Layer::Storms | Layer::Volcanoes) {
            let audited = audited_layer_provenance(layer);
            let declared = layer.provenance();
            assert_eq!(audited.kind, declared.kind);
            assert_eq!(audited.source, declared.source);
            assert_eq!(audited.snapshot_date, declared.snapshot_date);
        }
    }
}

#[test]
fn label_rank_orders_layers_by_label() {
    let all = Layer::all();
    for a in all {
        for b in all {
            assert_eq!(a.label_rank() < b.label_rank(), a.label() < b.label(), "{a:?} {b:?}");
        }
    }
    let mut ranks: Vec<u8> = all.iter().map(|l| l.label_rank()).collect();
    ranks.sort();
    assert_eq!(ranks, (0..21).collect::<Vec<u8>>());
}

#[test]
fn css_color_is_the_hex_form_of_rgb() {
    for layer in Layer::all() {
        let [r, g, b] = layer.rgb();
        assert_eq!(layer.css_color(), format!("#{r:02x}{g:02x}{b:02x}"));
    }
}

#[test]
fn eligible_layers_exclude_the_mixed_fire_layer() {
    let eligible = eligible_real_layers();
    assert_eq!(eligible.len(), 9);
    assert!(!eligible.contains(&Layer::Fires));
    assert!(eligible.contains(&Layer::Earthquakes));
}

#[test]
fn eligible_layers_come_in_their_fixed_order() {
    assert_eq!(
        eligible_real_layers(),
        [
            Layer::Energy,
            Layer::Nuclear,
            Layer::FossilDeposits,
            Layer::Earthquakes,
            Layer::Storms,
            Layer::Volcanoes,
            Layer::MajorCities,
            Layer::Chokepoints,
            Layer::Infrastructure,
        ]
    );
}
