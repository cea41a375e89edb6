//! Layer vocabulary, layer-level provenance and the renderer-facing natural
//! event record.
use vstd::prelude::*;

verus! {

/// How a whole layer relates to reality.
#[derive(Debug, Clone, Copy, PartialEq, Eq, Hash, Structural)]
pub enum DataKind {
    Observed,
    Curated,
    Scenario,
}

/// Source label, snapshot date and kind of one layer.
#[derive(Debug, Clone, Copy)]
pub struct DataProvenance {
    pub source: &'static str,
    pub snapshot_date: &'static str,
    pub kind: DataKind,
}

/// Every map layer of Sol Atlas.
#[derive(Debug, Clone, Copy, PartialEq, Eq, Hash, Structural)]
pub enum Layer {
    Energy,
    Geothermal,
    Maglev,
    Vaults,
    TerraLumina,
    Regions,
    SupplyRoutes,
    ShippingLanes,
    Climate,
    Emergency,
    Health,
    Robotics,
    FossilDeposits,
    Nuclear,
    Earthquakes,
    Fires,
    Storms,
    Volcanoes,
    MajorCities,
    Chokepoints,
    Infrastructure,
}

/// Position of the layer's label in the alphabetical (byte-wise) order of
/// all labels; sorting layers by label sorts them by this rank.
pub open spec fn label_rank(layer: Layer) -> nat {
    match layer {
        Layer::Chokepoints => 0,
        Layer::Climate => 1,
        Layer::Infrastructure => 2,
        Layer::Regions => 3,
        Layer::Earthquakes => 4,
        Layer::Emergency => 5,
        Layer::Energy => 6,
        Layer::Fires => 7,
        Layer::FossilDeposits => 8,
        Layer::Geothermal => 9,
        Layer::Health => 10,
        Layer::Maglev => 11,
        Layer::MajorCities => 12,
        Layer::Nuclear => 13,
        Layer::Vaults => 14,
        Layer::Robotics => 15,
        Layer::ShippingLanes => 16,
        Layer::Storms => 17,
        Layer::SupplyRoutes => 18,
        Layer::TerraLumina => 19,
        Layer::Volcanoes => 20,
    }
}

/// Human-readable name of a layer.
pub open spec fn layer_label(layer: Layer) -> Seq<char> {
    match layer {
        Layer::Energy => "Energy Sites"@,
        Layer::Geothermal => "Geothermal"@,
        Layer::Maglev => "Maglev Corridors"@,
        Layer::Vaults => "Resontia Vaults"@,
        Layer::TerraLumina => "Terra Lumina"@,
        Layer::Regions => "Earth Regions"@,
        Layer::SupplyRoutes => "Supply Routes"@,
        Layer::ShippingLanes => "Shipping Lanes"@,
        Layer::Climate => "Climate Projects"@,
        Layer::Emergency => "Emergency Shelters"@,
        Layer::Health => "Health Facilities"@,
        Layer::Robotics => "Robotics Dispatch"@,
        Layer::FossilDeposits => "Fossil Deposits"@,
        Layer::Nuclear => "Nuclear"@,
        Layer::Earthquakes => "Earthquakes"@,
        Layer::Fires => "Fires"@,
        Layer::Storms => "Storms"@,
        Layer::Volcanoes => "Volcanoes"@,
        Layer::MajorCities => "Major Cities"@,
        Layer::Chokepoints => "Chokepoints"@,
        Layer::Infrastructure => "Critical Infrastructure"@,
    }
}

/// Layer-level kind the layer declares for itself.
pub open spec fn declared_kind(layer: Layer) -> DataKind {
    match layer {
        Layer::Earthquakes | Layer::Fires | Layer::Storms => DataKind::Observed,
        Layer::Geothermal | Layer::Maglev | Layer::Vaults | Layer::TerraLumina
        | Layer::Robotics => DataKind::Scenario,
        _ => DataKind::Curated,
    }
}

/// Source label the layer declares for itself.
pub open spec fn declared_source(layer: Layer) -> Seq<char> {
    match layer {
        Layer::Energy => "Global power plant registry"@,
        Layer::Geothermal => "Terra Lumina geothermal concept network"@,
        Layer::Maglev => "Terra Lumina maglev concept corridors"@,
        Layer::Vaults => "Resontia vault concept sites"@,
        Layer::TerraLumina => "Terra Lumina concept sites"@,
        Layer::Regions => "Curated Earth regions"@,
        Layer::SupplyRoutes => "Curated global supply routes"@,
        Layer::ShippingLanes => "Curated shipping lanes"@,
        Layer::Climate => "Curated climate projects"@,
        Layer::Emergency => "Curated emergency shelters"@,
        Layer::Health => "Curated health facilities"@,
        Layer::Robotics => "Robotics dispatch concept"@,
        Layer::FossilDeposits => "Curated fossil resource assessments"@,
        Layer::Nuclear => "IAEA PRIS reactor list"@,
        Layer::Earthquakes => "USGS earthquake feed"@,
        Layer::Fires => "NASA FIRMS active fires"@,
        Layer::Storms => "NASA EONET severe storms"@,
        Layer::Volcanoes => "Smithsonian GVP"@,
        Layer::MajorCities => "UN World Urbanization Prospects"@,
        Layer::Chokepoints => "EIA world oil transit chokepoints"@,
        Layer::Infrastructure => "Curated critical infrastructure"@,
    }
}

/// Snapshot date the layer declares for itself.
pub open spec fn declared_snapshot(layer: Layer) -> Seq<char> {
    match layer {
        Layer::Energy => "2025-09"@,
        Layer::Geothermal => ""@,
        Layer::Maglev => ""@,
        Layer::Vaults => ""@,
        Layer::TerraLumina => ""@,
        Layer::Regions => "2025-09"@,
        Layer::SupplyRoutes => "2025-09"@,
        Layer::ShippingLanes => "2025-09"@,
        Layer::Climate => "2025-09"@,
        Layer::Emergency => "2025-09"@,
        Layer::Health => "2025-09"@,
        Layer::Robotics => ""@,
        Layer::FossilDeposits => "2025-09"@,
        Layer::Nuclear => "2025-09"@,
        Layer::Earthquakes => "2025-09"@,
        Layer::Fires => "2025-09"@,
        Layer::Storms => "2025-09"@,
        Layer::Volcanoes => ""@,
        Layer::MajorCities => "2025-09"@,
        Layer::Chokepoints => "2025-09"@,
        Layer::Infrastructure => "2025-09"@,
    }
}

/// All layers, in declaration order.
pub open spec fn all_layers() -> Seq<Layer> {
    seq![
        Layer::Energy, Layer::Geothermal, Layer::Maglev, Layer::Vaults, Layer::TerraLumina,
        Layer::Regions, Layer::SupplyRoutes, Layer::ShippingLanes, Layer::Climate,
        Layer::Emergency, Layer::Health, Layer::Robotics, Layer::FossilDeposits,
        Layer::Nuclear, Layer::Earthquakes, Layer::Fires, Layer::Storms, Layer::Volcanoes,
        Layer::MajorCities, Layer::Chokepoints, Layer::Infrastructure,
    ]
}

/// The red, green and blue channels of a layer's colour, each in `0..=255`.
pub open spec fn layer_rgb(layer: Layer) -> (u8, u8, u8) {
    match layer {
        Layer::Energy => (0xf5, 0xb7, 0x00),
        Layer::Geothermal => (0xe8, 0x6a, 0x1c),
        Layer::Maglev => (0x7c, 0x4d, 0xff),
        Layer::Vaults => (0x9c, 0x27, 0xb0),
        Layer::TerraLumina => (0x00, 0xbf, 0xa5),
        Layer::Regions => (0x60, 0x7d, 0x8b),
        Layer::SupplyRoutes => (0x8d, 0x6e, 0x63),
        Layer::ShippingLanes => (0x29, 0x79, 0xff),
        Layer::Climate => (0x43, 0xa0, 0x47),
        Layer::Emergency => (0xff, 0x57, 0x22),
        Layer::Health => (0xe9, 0x1e, 0x63),
        Layer::Robotics => (0x00, 0xac, 0xc1),
        Layer::FossilDeposits => (0x5d, 0x40, 0x37),
        Layer::Nuclear => (0xcd, 0xdc, 0x39),
        Layer::Earthquakes => (0xd3, 0x2f, 0x2f),
        Layer::Fires => (0xff, 0x6f, 0x00),
        Layer::Storms => (0x03, 0xa9, 0xf4),
        Layer::Volcanoes => (0xbf, 0x36, 0x0c),
        Layer::MajorCities => (0xff, 0xee, 0x58),
        Layer::Chokepoints => (0x00, 0x96, 0x88),
        Layer::Infrastructure => (0x90, 0xa4, 0xae),
    }
}

impl Layer {
    /// All layers, in declaration order.
    pub fn all() -> (r: [Layer; 21])
        ensures
            r@ == all_layers(),
    {
        let r = [
            Layer::Energy, Layer::Geothermal, Layer::Maglev, Layer::Vaults, Layer::TerraLumina,
            Layer::Regions, Layer::SupplyRoutes, Layer::ShippingLanes, Layer::Climate,
            Layer::Emergency, Layer::Health, Layer::Robotics, Layer::FossilDeposits,
            Layer::Nuclear, Layer::Earthquakes, Layer::Fires, Layer::Storms, Layer::Volcanoes,
            Layer::MajorCities, Layer::Chokepoints, Layer::Infrastructure,
        ];
        assert(r@ =~= all_layers());
        r
    }

    /// Human-readable layer name.
    pub fn label(&self) -> (r: &'static str)
        ensures
            r@ == layer_label(*self),
            r@.len() > 0,
    {
        proof {
            reveal_strlit("Energy Sites");
            reveal_strlit("Geothermal");
            reveal_strlit("Maglev Corridors");
            reveal_strlit("Resontia Vaults");
            reveal_strlit("Terra Lumina");
            reveal_strlit("Earth Regions");
            reveal_strlit("Supply Routes");
            reveal_strlit("Shipping Lanes");
            reveal_strlit("Climate Projects");
            reveal_strlit("Emergency Shelters");
            reveal_strlit("Health Facilities");
            reveal_strlit("Robotics Dispatch");
            reveal_strlit("Fossil Deposits");
            reveal_strlit("Nuclear");
            reveal_strlit("Earthquakes");
            reveal_strlit("Fires");
            reveal_strlit("Storms");
            reveal_strlit("Volcanoes");
            reveal_strlit("Major Cities");
            reveal_strlit("Chokepoints");
            reveal_strlit("Critical Infrastructure");
        }
        match self {
            Layer::Energy => "Energy Sites",
            Layer::Geothermal => "Geothermal",
            Layer::Maglev => "Maglev Corridors",
            Layer::Vaults => "Resontia Vaults",
            Layer::TerraLumina => "Terra Lumina",
            Layer::Regions => "Earth Regions",
            Layer::SupplyRoutes => "Supply Routes",
            Layer::ShippingLanes => "Shipping Lanes",
            Layer::Climate => "Climate Projects",
            Layer::Emergency => "Emergency Shelters",
            Layer::Health => "Health Facilities",
            Layer::Robotics => "Robotics Dispatch",
            Layer::FossilDeposits => "Fossil Deposits",
            Layer::Nuclear => "Nuclear",
            Layer::Earthquakes => "Earthquakes",
            Layer::Fires => "Fires",
            Layer::Storms => "Storms",
            Layer::Volcanoes => "Volcanoes",
            Layer::MajorCities => "Major Cities",
            Layer::Chokepoints => "Chokepoints",
            Layer::Infrastructure => "Critical Infrastructure",
        }
    }

    /// Rank of the label in alphabetical order of all labels.
    pub fn label_rank(&self) -> (r: u8)
        ensures
            r == label_rank(*self),
    {
        match self {
            Layer::Chokepoints => 0,
            Layer::Climate => 1,
            Layer::Infrastructure => 2,
            Layer::Regions => 3,
            Layer::Earthquakes => 4,
            Layer::Emergency => 5,
            Layer::Energy => 6,
            Layer::Fires => 7,
            Layer::FossilDeposits => 8,
            Layer::Geothermal => 9,
            Layer::Health => 10,
            Layer::Maglev => 11,
            Layer::MajorCities => 12,
            Layer::Nuclear => 13,
            Layer::Vaults => 14,
            Layer::Robotics => 15,
            Layer::ShippingLanes => 16,
            Layer::Storms => 17,
            Layer::SupplyRoutes => 18,
            Layer::TerraLumina => 19,
            Layer::Volcanoes => 20,
        }
    }

    /// Colour channels, each in `0..=255`.
    pub fn rgb(&self) -> (r: [u8; 3])
        ensures
            r@ == seq![layer_rgb(*self).0, layer_rgb(*self).1, layer_rgb(*self).2],
    {
        let r: [u8; 3] = match self {
            Layer::Energy => [0xf5, 0xb7, 0x00],
            Layer::Geothermal => [0xe8, 0x6a, 0x1c],
            Layer::Maglev => [0x7c, 0x4d, 0xff],
            Layer::Vaults => [0x9c, 0x27, 0xb0],
            Layer::TerraLumina => [0x00, 0xbf, 0xa5],
            Layer::Regions => [0x60, 0x7d, 0x8b],
            Layer::SupplyRoutes => [0x8d, 0x6e, 0x63],
            Layer::ShippingLanes => [0x29, 0x79, 0xff],
            Layer::Climate => [0x43, 0xa0, 0x47],
            Layer::Emergency => [0xff, 0x57, 0x22],
            Layer::Health => [0xe9, 0x1e, 0x63],
            Layer::Robotics => [0x00, 0xac, 0xc1],
            Layer::FossilDeposits => [0x5d, 0x40, 0x37],
            Layer::Nuclear => [0xcd, 0xdc, 0x39],
            Layer::Earthquakes => [0xd3, 0x2f, 0x2f],
            Layer::Fires => [0xff, 0x6f, 0x00],
            Layer::Storms => [0x03, 0xa9, 0xf4],
            Layer::Volcanoes => [0xbf, 0x36, 0x0c],
            Layer::MajorCities => [0xff, 0xee, 0x58],
            Layer::Chokepoints => [0x00, 0x96, 0x88],
            Layer::Infrastructure => [0x90, 0xa4, 0xae],
        };
        assert(r@ =~= seq![layer_rgb(*self).0, layer_rgb(*self).1, layer_rgb(*self).2]);
        r
    }

    /// CSS colour `#rrggbb` of the layer (the hex form of [`Layer::rgb`]).
    pub fn css_color(&self) -> (r: &'static str)
        ensures
            r@.len() == 7,
    {
        proof {
            reveal_strlit("#f5b700");
            reveal_strlit("#e86a1c");
            reveal_strlit("#7c4dff");
            reveal_strlit("#9c27b0");
            reveal_strlit("#00bfa5");
            reveal_strlit("#607d8b");
            reveal_strlit("#8d6e63");
            reveal_strlit("#2979ff");
            reveal_strlit("#43a047");
            reveal_strlit("#ff5722");
            reveal_strlit("#e91e63");
            reveal_strlit("#00acc1");
            reveal_strlit("#5d4037");
            reveal_strlit("#cddc39");
            reveal_strlit("#d32f2f");
            reveal_strlit("#ff6f00");
            reveal_strlit("#03a9f4");
            reveal_strlit("#bf360c");
            reveal_strlit("#ffee58");
            reveal_strlit("#009688");
            reveal_strlit("#90a4ae");
        }
        match self {
            Layer::Energy => "#f5b700",
            Layer::Geothermal => "#e86a1c",
            Layer::Maglev => "#7c4dff",
            Layer::Vaults => "#9c27b0",
            Layer::TerraLumina => "#00bfa5",
            Layer::Regions => "#607d8b",
            Layer::SupplyRoutes => "#8d6e63",
            Layer::ShippingLanes => "#2979ff",
            Layer::Climate => "#43a047",
            Layer::Emergency => "#ff5722",
            Layer::Health => "#e91e63",
            Layer::Robotics => "#00acc1",
            Layer::FossilDeposits => "#5d4037",
            Layer::Nuclear => "#cddc39",
            Layer::Earthquakes => "#d32f2f",
            Layer::Fires => "#ff6f00",
            Layer::Storms => "#03a9f4",
            Layer::Volcanoes => "#bf360c",
            Layer::MajorCities => "#ffee58",
            Layer::Chokepoints => "#009688",
            Layer::Infrastructure => "#90a4ae",
        }
    }

    /// Layer-level provenance the layer declares for itself.
    pub fn provenance(&self) -> (r: DataProvenance)
        ensures
            r.kind == declared_kind(*self),
            r.source@ == declared_source(*self),
            r.snapshot_date@ == declared_snapshot(*self),
    {
        match self {
            Layer::Energy => DataProvenance {
                source: "Global power plant registry",
                snapshot_date: "2025-09",
                kind: DataKind::Curated,
            },
            Layer::Geothermal => DataProvenance {
                source: "Terra Lumina geothermal concept network",
                snapshot_date: "",
                kind: DataKind::Scenario,
            },
            Layer::Maglev => DataProvenance {
                source: "Terra Lumina maglev concept corridors",
                snapshot_date: "",
                kind: DataKind::Scenario,
            },
            Layer::Vaults => DataProvenance {
                source: "Resontia vault concept sites",
                snapshot_date: "",
                kind: DataKind::Scenario,
            },
            Layer::TerraLumina => DataProvenance {
                source: "Terra Lumina concept sites",
                snapshot_date: "",
                kind: DataKind::Scenario,
            },
            Layer::Regions => DataProvenance {
                source: "Curated Earth regions",
                snapshot_date: "2025-09",
                kind: DataKind::Curated,
            },
            Layer::SupplyRoutes => DataProvenance {
                source: "Curated global supply routes",
                snapshot_date: "2025-09",
                kind: DataKind::Curated,
            },
            Layer::ShippingLanes => DataProvenance {
                source: "Curated shipping lanes",
                snapshot_date: "2025-09",
                kind: DataKind::Curated,
            },
            Layer::Climate => DataProvenance {
                source: "Curated climate projects",
                snapshot_date: "2025-09",
                kind: DataKind::Curated,
            },
            Layer::Emergency => DataProvenance {
                source: "Curated emergency shelters",
                snapshot_date: "2025-09",
                kind: DataKind::Curated,
            },
            Layer::Health => DataProvenance {
                source: "Curated health facilities",
                snapshot_date: "2025-09",
                kind: DataKind::Curated,
            },
            Layer::Robotics => DataProvenance {
                source: "Robotics dispatch concept",
                snapshot_date: "",
                kind: DataKind::Scenario,
            },
            Layer::FossilDeposits => DataProvenance {
                source: "Curated fossil resource assessments",
                snapshot_date: "2025-09",
                kind: DataKind::Curated,
            },
            Layer::Nuclear => DataProvenance {
                source: "IAEA PRIS reactor list",
                snapshot_date: "2025-09",
                kind: DataKind::Curated,
            },
            Layer::Earthquakes => DataProvenance {
                source: "USGS earthquake feed",
                snapshot_date: "2025-09",
                kind: DataKind::Observed,
            },
            Layer::Fires => DataProvenance {
                source: "NASA FIRMS active fires",
                snapshot_date: "2025-09",
                kind: DataKind::Observed,
            },
            Layer::Storms => DataProvenance {
                source: "NASA EONET severe storms",
                snapshot_date: "2025-09",
                kind: DataKind::Observed,
            },
            Layer::Volcanoes => DataProvenance {
                source: "Smithsonian GVP",
                snapshot_date: "",
                kind: DataKind::Curated,
            },
            Layer::MajorCities => DataProvenance {
                source: "UN World Urbanization Prospects",
                snapshot_date: "2025-09",
                kind: DataKind::Curated,
            },
            Layer::Chokepoints => DataProvenance {
                source: "EIA world oil transit chokepoints",
                snapshot_date: "2025-09",
                kind: DataKind::Curated,
            },
            Layer::Infrastructure => DataProvenance {
                source: "Curated critical infrastructure",
                snapshot_date: "2025-09",
                kind: DataKind::Curated,
            },
        }
    }
}

/// The four kinds of natural event the renderer knows.
#[derive(Debug, Clone, Copy, PartialEq, Eq, Hash, Structural)]
pub enum NaturalEventType {
    Earthquake,
    Fire,
    Storm,
    Volcano,
}

/// How the renderer scales an event marker.
///
/// `Value(bits)` is a reported magnitude (binary64 bits), shown as is;
/// `Brightness(bits)` is a fire brightness in kelvin, shown divided by 100;
/// `Default` is shown as `1.0`.
#[derive(Debug, Clone, Copy, PartialEq, Eq, Structural)]
pub enum DisplayMagnitude {
    Value(u64),
    Brightness(u64),
    Default,
}

/// Renderer-facing natural event. Coordinates are binary64 bits.
#[derive(Debug, Clone, PartialEq)]
pub struct NaturalEvent {
    pub lat: u64,
    pub lon: u64,
    pub event_type: NaturalEventType,
    pub magnitude: DisplayMagnitude,
    pub name: String,
}

pub struct NaturalEventModel {
    pub lat: u64,
    pub lon: u64,
    pub event_type: NaturalEventType,
    pub magnitude: DisplayMagnitude,
    pub name: Seq<char>,
}

impl View for NaturalEvent {
    type V = NaturalEventModel;

    open spec fn view(&self) -> NaturalEventModel {
        NaturalEventModel {
            lat: self.lat,
            lon: self.lon,
            event_type: self.event_type,
            magnitude: self.magnitude,
            name: self.name@,
        }
    }
}

impl NaturalEvent {
    /// An equal copy of the event.
    pub fn duplicate(&self) -> (r: Self)
        ensures
            r == *self,
    {
        NaturalEvent {
            lat: self.lat,
            lon: self.lon,
            event_type: self.event_type,
            magnitude: self.magnitude,
            name: self.name.clone(),
        }
    }
}


// ---------------------------------------------------------------------------
// Label order
// ---------------------------------------------------------------------------

/// Strict lexicographic order of texts by character code, the order of
/// `str` comparison.
pub open spec fn text_lt(a: Seq<char>, b: Seq<char>) -> bool
    decreases a.len(),
{
    if a.len() == 0 {
        b.len() > 0
    } else if b.len() == 0 {
        false
    } else if a[0] != b[0] {
        (a[0] as u32) < (b[0] as u32)
    } else {
        text_lt(a.drop_first(), b.drop_first())
    }
}

proof fn lemma_text_lt_transitive(a: Seq<char>, b: Seq<char>, c: Seq<char>)
    requires
        text_lt(a, b),
        text_lt(b, c),
    ensures
        text_lt(a, c),
    decreases a.len(),
{
    if a.len() > 0 && a[0] == b[0] && b[0] == c[0] {
        lemma_text_lt_transitive(a.drop_first(), b.drop_first(), c.drop_first());
    }
}

proof fn lemma_text_lt_asymmetric(a: Seq<char>, b: Seq<char>)
    requires
        text_lt(a, b),
    ensures
        !text_lt(b, a),
    decreases a.len(),
{
    if a.len() > 0 && a[0] == b[0] {
        lemma_text_lt_asymmetric(a.drop_first(), b.drop_first());
    }
}

proof fn lemma_text_lt_irreflexive(a: Seq<char>)
    ensures
        !text_lt(a, a),
    decreases a.len(),
{
    if a.len() > 0 {
        lemma_text_lt_irreflexive(a.drop_first());
    }
}

/// The layer whose label has rank `r`.
spec fn layer_of_rank(r: nat) -> Layer {
    if r == 0 { Layer::Chokepoints }
    else if r == 1 { Layer::Climate }
    else if r == 2 { Layer::Infrastructure }
    else if r == 3 { Layer::Regions }
    else if r == 4 { Layer::Earthquakes }
    else if r == 5 { Layer::Emergency }
    else if r == 6 { Layer::Energy }
    else if r == 7 { Layer::Fires }
    else if r == 8 { Layer::FossilDeposits }
    else if r == 9 { Layer::Geothermal }
    else if r == 10 { Layer::Health }
    else if r == 11 { Layer::Maglev }
    else if r == 12 { Layer::MajorCities }
    else if r == 13 { Layer::Nuclear }
    else if r == 14 { Layer::Vaults }
    else if r == 15 { Layer::Robotics }
    else if r == 16 { Layer::ShippingLanes }
    else if r == 17 { Layer::Storms }
    else if r == 18 { Layer::SupplyRoutes }
    else if r == 19 { Layer::TerraLumina }
    else { Layer::Volcanoes }
}

proof fn lemma_consecutive_labels(r: nat)
    requires
        r < 20,
    ensures
        text_lt(layer_label(layer_of_rank(r)), layer_label(layer_of_rank(r + 1))),
{
    reveal_with_fuel(text_lt, 7);
    if r == 0 {
        reveal_strlit("Chokepoints");
        reveal_strlit("Climate Projects");
    } else if r == 1 {
        reveal_strlit("Climate Projects");
        reveal_strlit("Critical Infrastructure");
    } else if r == 2 {
        reveal_strlit("Critical Infrastructure");
        reveal_strlit("Earth Regions");
    } else if r == 3 {
        reveal_strlit("Earth Regions");
        reveal_strlit("Earthquakes");
    } else if r == 4 {
        reveal_strlit("Earthquakes");
        reveal_strlit("Emergency Shelters");
    } else if r == 5 {
        reveal_strlit("Emergency Shelters");
        reveal_strlit("Energy Sites");
    } else if r == 6 {
        reveal_strlit("Energy Sites");
        reveal_strlit("Fires");
    } else if r == 7 {
        reveal_strlit("Fires");
        reveal_strlit("Fossil Deposits");
    } else if r == 8 {
        reveal_strlit("Fossil Deposits");
        reveal_strlit("Geothermal");
    } else if r == 9 {
        reveal_strlit("Geothermal");
        reveal_strlit("Health Facilities");
    } else if r == 10 {
        reveal_strlit("Health Facilities");
        reveal_strlit("Maglev Corridors");
    } else if r == 11 {
        reveal_strlit("Maglev Corridors");
        reveal_strlit("Major Cities");
    } else if r == 12 {
        reveal_strlit("Major Cities");
        reveal_strlit("Nuclear");
    } else if r == 13 {
        reveal_strlit("Nuclear");
        reveal_strlit("Resontia Vaults");
    } else if r == 14 {
        reveal_strlit("Resontia Vaults");
        reveal_strlit("Robotics Dispatch");
    } else if r == 15 {
        reveal_strlit("Robotics Dispatch");
        reveal_strlit("Shipping Lanes");
    } else if r == 16 {
        reveal_strlit("Shipping Lanes");
        reveal_strlit("Storms");
    } else if r == 17 {
        reveal_strlit("Storms");
        reveal_strlit("Supply Routes");
    } else if r == 18 {
        reveal_strlit("Supply Routes");
        reveal_strlit("Terra Lumina");
    } else {
        reveal_strlit("Terra Lumina");
        reveal_strlit("Volcanoes");
    }
}

proof fn lemma_ranked_labels(r: nat, s: nat)
    requires
        r < s <= 20,
    ensures
        text_lt(layer_label(layer_of_rank(r)), layer_label(layer_of_rank(s))),
    decreases s - r,
{
    lemma_consecutive_labels(r);
    if r + 1 < s {
        lemma_ranked_labels(r + 1, s);
        lemma_text_lt_transitive(
            layer_label(layer_of_rank(r)),
            layer_label(layer_of_rank(r + 1)),
            layer_label(layer_of_rank(s)),
        );
    }
}

/// Ranks follow labels: one layer's label rank is below another's exactly
/// when its label comes first in `str` order, so sorting by rank is sorting
/// by label.
pub proof fn label_rank_orders_labels(a: Layer, b: Layer)
    ensures
        label_rank(a) < label_rank(b) <==> text_lt(layer_label(a), layer_label(b)),
{
    assert(layer_of_rank(label_rank(a)) == a);
    assert(layer_of_rank(label_rank(b)) == b);
    if label_rank(a) < label_rank(b) {
        lemma_ranked_labels(label_rank(a), label_rank(b));
    } else if label_rank(b) < label_rank(a) {
        lemma_ranked_labels(label_rank(b), label_rank(a));
        lemma_text_lt_asymmetric(layer_label(b), layer_label(a));
    } else {
        lemma_text_lt_irreflexive(layer_label(a));
    }
}

} // verus!
