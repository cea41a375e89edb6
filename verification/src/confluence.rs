//! Confluence: where real-world systems of different layers co-locate.
//!
//! Every point-like record is placed in a hexagonal grid cell (H3, at
//! [`CONFLUENCE_RESOLUTION`]); a cell is reported when at least `min_layers`
//! distinct layers have a record in it. Cells expose the distinct layers
//! (sorted by label) and a raw record count, never a weighted score.
//!
//! Computing a cell from a coordinate is floating-point work done by the
//! caller; this module receives each record's cell index (or `None` when the
//! coordinate is invalid) and does the binning.
use vstd::prelude::*;
use crate::text::{append_chars, chars_of, decimal, decimal_chars, string_of};
use crate::types::{label_rank, label_rank_orders_labels, layer_label, text_lt, DataKind, Layer, NaturalEventType};
use crate::evidence::audited_kind;

verus! {

/// H3 resolution of Confluence cells.
pub const CONFLUENCE_RESOLUTION: u8 = 2u8;

/// One reported cell.
#[derive(Debug, Clone, PartialEq)]
pub struct ConfluenceCell {
    /// H3 cell index.
    pub cell: u64,
    /// Distinct layers with a record in the cell, sorted by label.
    pub layers: Vec<Layer>,
    /// Number of records placed in the cell.
    pub entity_count: u32,
}

/// Cell of one natural event, with the event's type.
#[derive(Debug, Clone, Copy, PartialEq, Eq)]
pub struct EventCell {
    pub cell: Option<u64>,
    pub event_type: NaturalEventType,
}

/// The cell of every point-like record of the loaded data, by dataset, in
/// dataset order. `None` marks a record whose coordinate has no cell.
#[derive(Debug, Clone, Default)]
pub struct LoadedCells {
    pub sites: Vec<Option<u64>>,
    pub nuclear_sites: Vec<Option<u64>>,
    pub fossil_deposits: Vec<Option<u64>>,
    pub natural_events: Vec<EventCell>,
    pub major_cities: Vec<Option<u64>>,
    pub chokepoints: Vec<Option<u64>>,
    pub critical_infrastructure: Vec<Option<u64>>,
    pub climate_projects: Vec<Option<u64>>,
    pub emergency_shelters: Vec<Option<u64>>,
    pub health_facilities: Vec<Option<u64>>,
}

// ---------------------------------------------------------------------------
// Model of binning
// ---------------------------------------------------------------------------

/// Some placement puts a record in cell `c`.
pub open spec fn occupied(pts: Seq<(u64, Layer)>, c: u64) -> bool {
    exists|j: int| 0 <= j < pts.len() && #[trigger] pts[j].0 == c
}

/// The layers with a record in cell `c`.
pub open spec fn layer_set(pts: Seq<(u64, Layer)>, c: u64) -> Set<Layer> {
    Set::new(|l: Layer| exists|j: int| 0 <= j < pts.len() && #[trigger] pts[j] == (c, l))
}

/// Number of placements in cell `c`.
pub open spec fn cell_count(pts: Seq<(u64, Layer)>, c: u64) -> nat
    decreases pts.len(),
{
    if pts.len() == 0 {
        0
    } else {
        cell_count(pts.drop_last(), c) + if pts.last().0 == c { 1nat } else { 0nat }
    }
}

/// Strictly increasing label order (hence no layer twice).
pub open spec fn sorted_by_label(v: Seq<Layer>) -> bool {
    forall|i: int, j: int| 0 <= i < j < v.len() ==> label_rank(#[trigger] v[i]) < label_rank(
        #[trigger] v[j],
    )
}

/// `cell` is exactly what the placements put in its cell.
pub open spec fn describes_cell(pts: Seq<(u64, Layer)>, cell: ConfluenceCell) -> bool {
    &&& occupied(pts, cell.cell)
    &&& sorted_by_label(cell.layers@)
    &&& cell.layers@.to_set() == layer_set(pts, cell.cell)
    &&& cell.entity_count == cell_count(pts, cell.cell)
}

/// `out` lists, once each and in some order, exactly the occupied cells with at
/// least `min_layers` distinct layers.
pub open spec fn is_confluence(pts: Seq<(u64, Layer)>, min_layers: nat, out: Seq<ConfluenceCell>) -> bool {
    &&& forall|i: int| 0 <= i < out.len() ==> describes_cell(pts, #[trigger] out[i])
    &&& forall|i: int| 0 <= i < out.len() ==> (#[trigger] out[i]).layers@.len() >= min_layers
    &&& forall|i: int, j: int| 0 <= i < out.len() && 0 <= j < out.len() && i != j ==> (
    #[trigger] out[i]).cell != (#[trigger] out[j]).cell
    &&& forall|c: u64| occupied(pts, c) && layer_set(pts, c).len() >= min_layers ==> exists|i: int|
        0 <= i < out.len() && (#[trigger] out[i]).cell == c
}

/// Placements of the records of one dataset, all of one layer.
pub open spec fn placed(cells: Seq<Option<u64>>, layer: Layer) -> Seq<(u64, Layer)>
    decreases cells.len(),
{
    if cells.len() == 0 {
        Seq::empty()
    } else {
        let rest = placed(cells.drop_last(), layer);
        match cells.last() {
            Some(c) => rest.push((c, layer)),
            None => rest,
        }
    }
}

/// Layer a natural event contributes to in layer-level Confluence. Fires are
/// left out: that layer mixes synthetic and observed records.
pub open spec fn confluence_event_layer(t: NaturalEventType) -> Option<Layer> {
    match t {
        NaturalEventType::Earthquake => Some(Layer::Earthquakes),
        NaturalEventType::Fire => None,
        NaturalEventType::Storm => Some(Layer::Storms),
        NaturalEventType::Volcano => Some(Layer::Volcanoes),
    }
}

pub open spec fn placed_events(events: Seq<EventCell>) -> Seq<(u64, Layer)>
    decreases events.len(),
{
    if events.len() == 0 {
        Seq::empty()
    } else {
        let rest = placed_events(events.drop_last());
        let e = events.last();
        match (e.cell, confluence_event_layer(e.event_type)) {
            (Some(c), Some(l)) => rest.push((c, l)),
            _ => rest,
        }
    }
}

/// Placements of the non-natural point layers, in dataset order.
pub open spec fn point_layer_placements(d: LoadedCells) -> Seq<(u64, Layer)> {
    placed(d.sites@, Layer::Energy) + placed(d.nuclear_sites@, Layer::Nuclear) + placed(
        d.fossil_deposits@,
        Layer::FossilDeposits,
    ) + placed(d.major_cities@, Layer::MajorCities) + placed(d.chokepoints@, Layer::Chokepoints)
        + placed(d.critical_infrastructure@, Layer::Infrastructure) + placed(
        d.climate_projects@,
        Layer::Climate,
    ) + placed(d.emergency_shelters@, Layer::Emergency) + placed(
        d.health_facilities@,
        Layer::Health,
    )
}

/// All placements of layer-level Confluence.
pub open spec fn placements(d: LoadedCells) -> Seq<(u64, Layer)> {
    point_layer_placements(d) + placed_events(d.natural_events@)
}

/// Number of records of the non-natural point layers.
pub open spec fn point_record_count(d: LoadedCells) -> nat {
    (d.sites@.len() + d.nuclear_sites@.len() + d.fossil_deposits@.len() + d.major_cities@.len()
        + d.chokepoints@.len() + d.critical_infrastructure@.len() + d.climate_projects@.len()
        + d.emergency_shelters@.len() + d.health_facilities@.len()) as nat
}

/// The two loaded data have the same non-natural point-layer cells.
pub open spec fn same_point_layers(a: LoadedCells, b: LoadedCells) -> bool {
    &&& a.sites@ == b.sites@
    &&& a.nuclear_sites@ == b.nuclear_sites@
    &&& a.fossil_deposits@ == b.fossil_deposits@
    &&& a.major_cities@ == b.major_cities@
    &&& a.chokepoints@ == b.chokepoints@
    &&& a.critical_infrastructure@ == b.critical_infrastructure@
    &&& a.climate_projects@ == b.climate_projects@
    &&& a.emergency_shelters@ == b.emergency_shelters@
    &&& a.health_facilities@ == b.health_facilities@
}

/// The event is not a fire.
pub open spec fn not_fire(e: EventCell) -> bool {
    e.event_type != NaturalEventType::Fire
}

/// The layers of layer-level Confluence.
pub open spec fn eligible_layer(l: Layer) -> bool {
    l == Layer::Energy || l == Layer::Nuclear || l == Layer::FossilDeposits || l
        == Layer::Earthquakes || l == Layer::Storms || l == Layer::Volcanoes || l
        == Layer::MajorCities || l == Layer::Chokepoints || l == Layer::Infrastructure
}

// ---------------------------------------------------------------------------
// Lemmas on the model
// ---------------------------------------------------------------------------

proof fn lemma_place_push(pts: Seq<(u64, Layer)>, p: (u64, Layer), c: u64)
    ensures
        occupied(pts.push(p), c) == (occupied(pts, c) || p.0 == c),
        layer_set(pts.push(p), c) == (if p.0 == c {
            layer_set(pts, c).insert(p.1)
        } else {
            layer_set(pts, c)
        }),
        cell_count(pts.push(p), c) == cell_count(pts, c) + (if p.0 == c { 1nat } else { 0nat }),
{
    let q = pts.push(p);
    assert(q.drop_last() =~= pts);
    if occupied(q, c) {
        let j = choose|j: int| 0 <= j < q.len() && #[trigger] q[j].0 == c;
        if j < pts.len() {
            assert(pts[j].0 == c);
        }
    }
    if occupied(pts, c) {
        let j = choose|j: int| 0 <= j < pts.len() && #[trigger] pts[j].0 == c;
        assert(q[j].0 == c);
    }
    if p.0 == c {
        assert(q[pts.len() as int].0 == c);
    }
    let expected = if p.0 == c { layer_set(pts, c).insert(p.1) } else { layer_set(pts, c) };
    assert forall|l: Layer| #[trigger] layer_set(q, c).contains(l) == expected.contains(l) by {
        if layer_set(q, c).contains(l) {
            let j = choose|j: int| 0 <= j < q.len() && #[trigger] q[j] == (c, l);
            if j < pts.len() {
                assert(pts[j] == (c, l));
            }
        }
        if layer_set(pts, c).contains(l) {
            let j = choose|j: int| 0 <= j < pts.len() && #[trigger] pts[j] == (c, l);
            assert(q[j] == (c, l));
        }
        if p.0 == c && l == p.1 {
            assert(q[pts.len() as int] == (c, l));
        }
    }
    assert(layer_set(q, c) =~= expected);
}

/// Two layers with the same label rank are the same layer.
pub proof fn lemma_label_rank_injective(a: Layer, b: Layer)
    requires
        label_rank(a) == label_rank(b),
    ensures
        a == b,
{
    match a {
        Layer::Energy => { assert(b == Layer::Energy) },
        Layer::Geothermal => { assert(b == Layer::Geothermal) },
        Layer::Maglev => { assert(b == Layer::Maglev) },
        Layer::Vaults => { assert(b == Layer::Vaults) },
        Layer::TerraLumina => { assert(b == Layer::TerraLumina) },
        Layer::Regions => { assert(b == Layer::Regions) },
        Layer::SupplyRoutes => { assert(b == Layer::SupplyRoutes) },
        Layer::ShippingLanes => { assert(b == Layer::ShippingLanes) },
        Layer::Climate => { assert(b == Layer::Climate) },
        Layer::Emergency => { assert(b == Layer::Emergency) },
        Layer::Health => { assert(b == Layer::Health) },
        Layer::Robotics => { assert(b == Layer::Robotics) },
        Layer::FossilDeposits => { assert(b == Layer::FossilDeposits) },
        Layer::Nuclear => { assert(b == Layer::Nuclear) },
        Layer::Earthquakes => { assert(b == Layer::Earthquakes) },
        Layer::Fires => { assert(b == Layer::Fires) },
        Layer::Storms => { assert(b == Layer::Storms) },
        Layer::Volcanoes => { assert(b == Layer::Volcanoes) },
        Layer::MajorCities => { assert(b == Layer::MajorCities) },
        Layer::Chokepoints => { assert(b == Layer::Chokepoints) },
        Layer::Infrastructure => { assert(b == Layer::Infrastructure) },
    }
}

proof fn lemma_sorted_no_duplicates(v: Seq<Layer>)
    requires
        sorted_by_label(v),
    ensures
        v.no_duplicates(),
        v.to_set().len() == v.len(),
{
    assert forall|i: int, j: int| 0 <= i < v.len() && 0 <= j < v.len() && i != j implies v[i]
        != v[j] by {
        if i < j {
            assert(label_rank(v[i]) < label_rank(v[j]));
        } else {
            assert(label_rank(v[j]) < label_rank(v[i]));
        }
    }
    v.unique_seq_to_set();
}

proof fn lemma_count_bounded(pts: Seq<(u64, Layer)>, c: u64)
    ensures
        cell_count(pts, c) <= pts.len(),
    decreases pts.len(),
{
    if pts.len() > 0 {
        lemma_count_bounded(pts.drop_last(), c);
    }
}

// ---------------------------------------------------------------------------
// Binning
// ---------------------------------------------------------------------------

/// Inserts `l` into a label-sorted layer list unless it is already there.
fn insert_layer(v: &mut Vec<Layer>, l: Layer)
    requires
        sorted_by_label(old(v)@),
    ensures
        sorted_by_label(final(v)@),
        final(v)@.to_set() == old(v)@.to_set().insert(l),
{
    let ghost before = v@;
    let rank = l.label_rank();
    let mut p: usize = 0;
    while p < v.len()
        invariant
            v@ == before,
            p <= v.len(),
            rank == label_rank(l),
            forall|k: int| 0 <= k < p ==> label_rank(#[trigger] v@[k]) < label_rank(l),
        ensures
            v@ == before,
            p <= v.len(),
            forall|k: int| 0 <= k < p ==> label_rank(#[trigger] v@[k]) < label_rank(l),
            p < v.len() ==> label_rank(v@[p as int]) >= label_rank(l),
        decreases v.len() - p,
    {
        if v[p].label_rank() >= rank {
            break;
        }
        p = p + 1;
    }
    if p < v.len() && v[p] == l {
        assert(before.to_set().insert(l) =~= before.to_set()) by {
            assert(before.contains(l));
        }
        return;
    }
    proof {
        if p < v.len() && label_rank(v@[p as int]) == label_rank(l) {
            lemma_label_rank_injective(v@[p as int], l);
        }
    }
    v.insert(p, l);
    proof {
        let after = v@;
        assert(after == before.insert(p as int, l));
        assert forall|i: int, j: int| 0 <= i < j < after.len() implies label_rank(
            #[trigger] after[i],
        ) < label_rank(#[trigger] after[j]) by {
            if j < p {
            } else if j == p {
            } else if i < p {
                assert(after[j] == before[j - 1]);
                if p < before.len() {
                    assert(label_rank(before[p as int]) > label_rank(l));
                    if j - 1 > p {
                        assert(label_rank(before[p as int]) < label_rank(before[j - 1]));
                    }
                }
            } else if i == p {
                assert(after[j] == before[j - 1]);
                assert(label_rank(before[p as int]) > label_rank(l));
                if j - 1 > p {
                    assert(label_rank(before[p as int]) < label_rank(before[j - 1]));
                }
            } else {
                assert(after[i] == before[i - 1]);
                assert(after[j] == before[j - 1]);
            }
        }
        assert forall|x: Layer| #[trigger] after.to_set().contains(x) == before.to_set().insert(
            l,
        ).contains(x) by {
            if after.contains(x) {
                let k = choose|k: int| 0 <= k < after.len() && after[k] == x;
                if k < p {
                    assert(before[k] == x);
                } else if k > p {
                    assert(before[k - 1] == x);
                }
            }
            if before.contains(x) {
                let k = choose|k: int| 0 <= k < before.len() && before[k] == x;
                if k < p {
                    assert(after[k] == x);
                } else {
                    assert(after[k + 1] == x);
                }
            }
            if x == l {
                assert(after[p as int] == x);
            }
        }
        assert(after.to_set() =~= before.to_set().insert(l));
    }
}

fn find_cell(bins: &Vec<ConfluenceCell>, c: u64) -> (r: Option<usize>)
    ensures
        match r {
            Some(k) => k < bins.len() && bins@[k as int].cell == c,
            None => forall|k: int| 0 <= k < bins.len() ==> (#[trigger] bins@[k]).cell != c,
        },
{
    let mut k: usize = 0;
    while k < bins.len()
        invariant
            k <= bins.len(),
            forall|i: int| 0 <= i < k ==> (#[trigger] bins@[i]).cell != c,
        decreases bins.len() - k,
    {
        if bins[k].cell == c {
            return Some(k);
        }
        k = k + 1;
    }
    None
}

/// Bins placements `(cell, layer)` and reports the cells with at least
/// `min_layers` distinct layers.
pub fn bin_placements(pts: &Vec<(u64, Layer)>, min_layers: usize) -> (out: Vec<ConfluenceCell>)
    requires
        pts.len() <= u32::MAX,
    ensures
        is_confluence(pts@, min_layers as nat, out@),
{
    let mut bins: Vec<ConfluenceCell> = Vec::new();
    let mut i: usize = 0;
    while i < pts.len()
        invariant
            i <= pts.len(),
            pts.len() <= u32::MAX,
            forall|k: int| 0 <= k < bins.len() ==> describes_cell(
                pts@.subrange(0, i as int),
                #[trigger] bins@[k],
            ),
            forall|k: int| 0 <= k < bins.len() ==> (#[trigger] bins@[k]).entity_count <= i,
            forall|a: int, b: int|
                0 <= a < bins.len() && 0 <= b < bins.len() && a != b ==> (#[trigger] bins@[a]).cell
                    != (#[trigger] bins@[b]).cell,
            forall|c: u64| occupied(pts@.subrange(0, i as int), c) ==> exists|k: int|
                0 <= k < bins.len() && (#[trigger] bins@[k]).cell == c,
        decreases pts.len() - i,
    {
        let ghost prefix = pts@.subrange(0, i as int);
        let ghost old_bins = bins@;
        let (c, l) = pts[i];
        proof {
            assert(pts@.subrange(0, i + 1) =~= prefix.push((c, l)));
            assert forall|x: u64| true implies {
                &&& occupied(prefix.push((c, l)), x) == (occupied(prefix, x) || c == x)
                &&& layer_set(prefix.push((c, l)), x) == (if c == x {
                    layer_set(prefix, x).insert(l)
                } else {
                    layer_set(prefix, x)
                })
                &&& cell_count(prefix.push((c, l)), x) == cell_count(prefix, x) + (if c == x {
                    1nat
                } else {
                    0nat
                })
            } by {
                lemma_place_push(prefix, (c, l), x);
            }
        }
        match find_cell(&bins, c) {
            Some(k) => {
                let mut bin = bins.remove(k);
                insert_layer(&mut bin.layers, l);
                bin.entity_count = bin.entity_count + 1;
                bins.insert(k, bin);
                assert(bins@ =~= old_bins.update(k as int, bin));
                proof {
                    let next = pts@.subrange(0, i + 1);
                    assert forall|m: int| 0 <= m < bins.len() implies describes_cell(
                        next,
                        #[trigger] bins@[m],
                    ) by {
                        if m != k {
                            assert(bins@[m] == old_bins[m]);
                        }
                    }
                    assert forall|x: u64| occupied(next, x) implies exists|m: int|
                        0 <= m < bins.len() && (#[trigger] bins@[m]).cell == x by {
                        if x == c {
                            assert(bins@[k as int].cell == x);
                        } else {
                            lemma_place_push(prefix, (c, l), x);
                            assert(occupied(prefix, x));
                            let m = choose|m: int|
                                0 <= m < old_bins.len() && (#[trigger] old_bins[m]).cell == x;
                            assert(bins@[m].cell == old_bins[m].cell);
                            assert(bins@[m].cell == x);
                        }
                    }
                    assert forall|a: int, b: int|
                        0 <= a < bins.len() && 0 <= b < bins.len() && a != b implies (
                    #[trigger] bins@[a]).cell != (#[trigger] bins@[b]).cell by {
                        assert(bins@[a].cell == old_bins[a].cell);
                        assert(bins@[b].cell == old_bins[b].cell);
                    }
                }
            },
            None => {
                let mut layers: Vec<Layer> = Vec::new();
                layers.push(l);
                let cell = ConfluenceCell { cell: c, layers, entity_count: 1 };
                bins.push(cell);
                proof {
                    let next = pts@.subrange(0, i + 1);
                    let nb = bins@.len() - 1;
                    assert(!occupied(prefix, c)) by {
                        if occupied(prefix, c) {
                            let m = choose|m: int|
                                0 <= m < old_bins.len() && (#[trigger] old_bins[m]).cell == c;
                            assert(old_bins[m].cell != c);
                        }
                    }
                    assert(cell_count(prefix, c) == 0) by {
                        if cell_count(prefix, c) > 0 {
                            lemma_count_occupied(prefix, c);
                        }
                    }
                    assert(layer_set(prefix, c) =~= Set::empty()) by {
                        assert forall|x: Layer| !#[trigger] layer_set(prefix, c).contains(x) by {
                            if layer_set(prefix, c).contains(x) {
                                let j = choose|j: int|
                                    0 <= j < prefix.len() && #[trigger] prefix[j] == (c, x);
                                assert(prefix[j].0 == c);
                            }
                        }
                    }
                    lemma_place_push(prefix, (c, l), c);
                    assert(bins@[nb].layers@ =~= seq![l]);
                    assert(seq![l].to_set() =~= Set::empty().insert(l)) by {
                        assert forall|x: Layer| #[trigger] seq![l].to_set().contains(x) == (x == l) by {
                            if x == l {
                                assert(seq![l][0] == x);
                            }
                        }
                    }
                    assert(describes_cell(next, bins@[nb]));
                    assert forall|m: int| 0 <= m < bins.len() implies describes_cell(
                        next,
                        #[trigger] bins@[m],
                    ) by {
                        if m < nb {
                            assert(bins@[m] == old_bins[m]);
                        }
                    }
                    assert forall|m: int| 0 <= m < bins.len() implies (
                    #[trigger] bins@[m]).entity_count <= i + 1 by {
                        if m < nb {
                            assert(bins@[m] == old_bins[m]);
                        }
                    }
                    assert forall|x: u64| occupied(next, x) implies exists|m: int|
                        0 <= m < bins.len() && (#[trigger] bins@[m]).cell == x by {
                        if x == c {
                            assert(bins@[nb].cell == x);
                        } else {
                            lemma_place_push(prefix, (c, l), x);
                            assert(occupied(prefix, x));
                            let m = choose|m: int|
                                0 <= m < old_bins.len() && (#[trigger] old_bins[m]).cell == x;
                            assert(bins@[m].cell == x);
                        }
                    }
                    assert forall|a: int, b: int|
                        0 <= a < bins.len() && 0 <= b < bins.len() && a != b implies (
                    #[trigger] bins@[a]).cell != (#[trigger] bins@[b]).cell by {
                        if a < nb && b < nb {
                            assert(bins@[a] == old_bins[a]);
                            assert(bins@[b] == old_bins[b]);
                        } else if a < nb {
                            assert(bins@[a] == old_bins[a]);
                        } else {
                            assert(bins@[b] == old_bins[b]);
                        }
                    }
                }
            },
        }
        i = i + 1;
    }
    proof {
        assert(pts@.subrange(0, pts.len() as int) =~= pts@);
    }
    let ghost all = bins@;
    let mut out: Vec<ConfluenceCell> = Vec::new();
    while bins.len() > 0
        invariant
            forall|k: int| 0 <= k < all.len() ==> describes_cell(pts@, #[trigger] all[k]),
            forall|a: int, b: int|
                0 <= a < all.len() && 0 <= b < all.len() && a != b ==> (#[trigger] all[a]).cell
                    != (#[trigger] all[b]).cell,
            forall|c: u64| occupied(pts@, c) ==> exists|k: int|
                0 <= k < all.len() && (#[trigger] all[k]).cell == c,
            bins@ == all.subrange(0, bins.len() as int),
            bins.len() <= all.len(),
            forall|k: int| 0 <= k < out.len() ==> describes_cell(pts@, #[trigger] out@[k]),
            forall|k: int| 0 <= k < out.len() ==> (#[trigger] out@[k]).layers@.len() >= min_layers,
            forall|k: int| 0 <= k < out.len() ==> exists|m: int|
                bins.len() <= m < all.len() && (#[trigger] out@[k]).cell == all[m].cell,
            forall|a: int, b: int|
                0 <= a < out.len() && 0 <= b < out.len() && a != b ==> (#[trigger] out@[a]).cell
                    != (#[trigger] out@[b]).cell,
            forall|m: int|
                bins.len() <= m < all.len() && (#[trigger] all[m]).layers@.len() >= min_layers
                    ==> exists|k: int| 0 <= k < out.len() && (#[trigger] out@[k]).cell == all[m].cell,
        decreases bins.len(),
    {
        let ghost n = bins.len() - 1;
        let bin = bins.pop().unwrap();
        assert(bin == all[n as int]);
        if bin.layers.len() >= min_layers {
            let ghost old_out = out@;
            out.push(bin);
            proof {
                assert forall|k: int| 0 <= k < out.len() implies exists|m: int|
                    bins.len() <= m < all.len() && (#[trigger] out@[k]).cell == all[m].cell by {
                    if k < old_out.len() {
                        let m = choose|m: int|
                            n + 1 <= m < all.len() && (#[trigger] old_out[k]).cell == all[m].cell;
                        assert(out@[k] == old_out[k]);
                    } else {
                        assert(out@[k].cell == all[n as int].cell);
                    }
                }
                assert forall|a: int, b: int|
                    0 <= a < out.len() && 0 <= b < out.len() && a != b implies (
                #[trigger] out@[a]).cell != (#[trigger] out@[b]).cell by {
                    if a < old_out.len() && b < old_out.len() {
                        assert(out@[a] == old_out[a]);
                        assert(out@[b] == old_out[b]);
                    } else if a < old_out.len() {
                        let m = choose|m: int|
                            n + 1 <= m < all.len() && (#[trigger] old_out[a]).cell == all[m].cell;
                        assert(out@[a] == old_out[a]);
                        assert(all[m].cell != all[n as int].cell);
                    } else if b < old_out.len() {
                        let m = choose|m: int|
                            n + 1 <= m < all.len() && (#[trigger] old_out[b]).cell == all[m].cell;
                        assert(out@[b] == old_out[b]);
                        assert(all[m].cell != all[n as int].cell);
                    }
                }
                assert forall|m: int|
                    bins.len() <= m < all.len() && (#[trigger] all[m]).layers@.len() >= min_layers
                    implies exists|k: int|
                    0 <= k < out.len() && (#[trigger] out@[k]).cell == all[m].cell by {
                    if m == n {
                        assert(out@[old_out.len() as int].cell == all[m].cell);
                    } else {
                        let k = choose|k: int|
                            0 <= k < old_out.len() && (#[trigger] old_out[k]).cell == all[m].cell;
                        assert(out@[k] == old_out[k]);
                    }
                }
            }
        }
    }
    proof {
        assert forall|c: u64| occupied(pts@, c) && layer_set(pts@, c).len() >= min_layers implies exists|
            i: int,
        | 0 <= i < out.len() && (#[trigger] out@[i]).cell == c by {
            let m = choose|m: int| 0 <= m < all.len() && (#[trigger] all[m]).cell == c;
            lemma_sorted_no_duplicates(all[m].layers@);
        }
    }
    out
}

proof fn lemma_count_occupied(pts: Seq<(u64, Layer)>, c: u64)
    requires
        cell_count(pts, c) > 0,
    ensures
        occupied(pts, c),
    decreases pts.len(),
{
    if pts.last().0 == c {
        assert(pts[pts.len() - 1].0 == c);
    } else {
        lemma_count_occupied(pts.drop_last(), c);
        let j = choose|j: int| 0 <= j < pts.drop_last().len() && #[trigger] pts.drop_last()[j].0 == c;
        assert(pts[j].0 == c);
    }
}

// ---------------------------------------------------------------------------
// Layer-level Confluence
// ---------------------------------------------------------------------------

/// Appends the placements of one dataset, all of one layer.
pub fn place_dataset(out: &mut Vec<(u64, Layer)>, cells: &Vec<Option<u64>>, layer: Layer)
    ensures
        final(out)@ == old(out)@ + placed(cells@, layer),
        final(out)@.len() <= old(out)@.len() + cells@.len(),
{
    let ghost start = out@;
    let mut i: usize = 0;
    while i < cells.len()
        invariant
            i <= cells.len(),
            out@ == start + placed(cells@.subrange(0, i as int), layer),
            out@.len() <= start.len() + i,
        decreases cells.len() - i,
    {
        proof {
            assert(cells@.subrange(0, i + 1).drop_last() =~= cells@.subrange(0, i as int));
        }
        match cells[i] {
            Some(c) => {
                out.push((c, layer));
            },
            None => {},
        }
        i = i + 1;
    }
    proof {
        assert(cells@.subrange(0, cells@.len() as int) =~= cells@);
    }
}

fn event_layer(t: NaturalEventType) -> (r: Option<Layer>)
    ensures
        r == confluence_event_layer(t),
{
    match t {
        NaturalEventType::Earthquake => Some(Layer::Earthquakes),
        NaturalEventType::Fire => None,
        NaturalEventType::Storm => Some(Layer::Storms),
        NaturalEventType::Volcano => Some(Layer::Volcanoes),
    }
}

fn place_events(out: &mut Vec<(u64, Layer)>, events: &Vec<EventCell>)
    ensures
        final(out)@ == old(out)@ + placed_events(events@),
        final(out)@.len() <= old(out)@.len() + events@.len(),
{
    let ghost start = out@;
    let mut i: usize = 0;
    while i < events.len()
        invariant
            i <= events.len(),
            out@ == start + placed_events(events@.subrange(0, i as int)),
            out@.len() <= start.len() + i,
        decreases events.len() - i,
    {
        proof {
            assert(events@.subrange(0, i + 1).drop_last() =~= events@.subrange(0, i as int));
        }
        let e = events[i];
        match (e.cell, event_layer(e.event_type)) {
            (Some(c), Some(l)) => {
                out.push((c, l));
            },
            _ => {},
        }
        i = i + 1;
    }
    proof {
        assert(events@.subrange(0, events@.len() as int) =~= events@);
    }
}

/// Appends the placements of the non-natural point layers.
pub fn place_point_layers(out: &mut Vec<(u64, Layer)>, data: &LoadedCells)
    ensures
        final(out)@ == old(out)@ + point_layer_placements(*data),
        final(out)@.len() <= old(out)@.len() + point_record_count(*data),
{
    let ghost start = out@;
    place_dataset(out, &data.sites, Layer::Energy);
    place_dataset(out, &data.nuclear_sites, Layer::Nuclear);
    place_dataset(out, &data.fossil_deposits, Layer::FossilDeposits);
    place_dataset(out, &data.major_cities, Layer::MajorCities);
    place_dataset(out, &data.chokepoints, Layer::Chokepoints);
    place_dataset(out, &data.critical_infrastructure, Layer::Infrastructure);
    place_dataset(out, &data.climate_projects, Layer::Climate);
    place_dataset(out, &data.emergency_shelters, Layer::Emergency);
    place_dataset(out, &data.health_facilities, Layer::Health);
    proof {
        assert(out@ =~= start + point_layer_placements(*data));
    }
}

/// Layer-level Confluence: the cells where at least `min_layers` distinct
/// real layers have a record. Fire events are left out (the fire layer mixes
/// synthetic and observed records); other natural events count as their
/// layer.
pub fn compute(data: &LoadedCells, min_layers: usize) -> (out: Vec<ConfluenceCell>)
    requires
        point_record_count(*data) + data.natural_events@.len() <= u32::MAX,
    ensures
        is_confluence(placements(*data), min_layers as nat, out@),
{
    let mut pts: Vec<(u64, Layer)> = Vec::new();
    place_point_layers(&mut pts, data);
    place_events(&mut pts, &data.natural_events);
    proof {
        assert(pts@ =~= placements(*data));
    }
    bin_placements(&pts, min_layers)
}

/// Point-like layers whose loaded records can all be treated as real. Fires
/// are absent: that layer is mixed.
pub fn eligible_real_layers() -> (r: [Layer; 9])
    ensures
        r@ == seq![
            Layer::Energy,
            Layer::Nuclear,
            Layer::FossilDeposits,
            Layer::Earthquakes,
            Layer::Storms,
            Layer::Volcanoes,
            Layer::MajorCities,
            Layer::Chokepoints,
            Layer::Infrastructure,
        ],
        forall|i: int| 0 <= i < 9 ==> eligible_layer(#[trigger] r@[i]),
        forall|l: Layer| eligible_layer(l) ==> r@.contains(l),
{
    let r = [
        Layer::Energy,
        Layer::Nuclear,
        Layer::FossilDeposits,
        Layer::Earthquakes,
        Layer::Storms,
        Layer::Volcanoes,
        Layer::MajorCities,
        Layer::Chokepoints,
        Layer::Infrastructure,
    ];
    proof {
        assert(r@ =~= seq![
            Layer::Energy,
            Layer::Nuclear,
            Layer::FossilDeposits,
            Layer::Earthquakes,
            Layer::Storms,
            Layer::Volcanoes,
            Layer::MajorCities,
            Layer::Chokepoints,
            Layer::Infrastructure,
        ]);
        assert forall|l: Layer| eligible_layer(l) implies r@.contains(l) by {
            if l == Layer::Energy { assert(r@[0] == l); }
            else if l == Layer::Nuclear { assert(r@[1] == l); }
            else if l == Layer::FossilDeposits { assert(r@[2] == l); }
            else if l == Layer::Earthquakes { assert(r@[3] == l); }
            else if l == Layer::Storms { assert(r@[4] == l); }
            else if l == Layer::Volcanoes { assert(r@[5] == l); }
            else if l == Layer::MajorCities { assert(r@[6] == l); }
            else if l == Layer::Chokepoints { assert(r@[7] == l); }
            else { assert(r@[8] == l); }
        }
    }
    r
}

/// Labels of the layers joined with `, `.
pub open spec fn joined_labels(layers: Seq<Layer>) -> Seq<char>
    decreases layers.len(),
{
    if layers.len() == 0 {
        Seq::empty()
    } else if layers.len() == 1 {
        layer_label(layers[0])
    } else {
        joined_labels(layers.drop_last()) + ", "@ + layer_label(layers.last())
    }
}

/// `"<n> real system(s): <labels>"`.
pub open spec fn summary_text(layers: Seq<Layer>) -> Seq<char> {
    decimal(layers.len()) + " real system"@ + (if layers.len() == 1 {
        Seq::empty()
    } else {
        seq!['s']
    }) + ": "@ + joined_labels(layers)
}

impl ConfluenceCell {
    /// One line naming how many real systems co-locate and which.
    pub fn summary(&self) -> (r: String)
        ensures
            r@ == summary_text(self.layers@),
    {
        let mut out = decimal_chars(self.layers.len() as u64);
        let part = chars_of(" real system");
        append_chars(&mut out, &part);
        if self.layers.len() != 1 {
            out.push('s');
        }
        let part = chars_of(": ");
        append_chars(&mut out, &part);
        let ghost head = out@;
        let sep = chars_of(", ");
        let mut i: usize = 0;
        while i < self.layers.len()
            invariant
                i <= self.layers.len(),
                sep@ == ", "@,
                out@ == head + joined_labels(self.layers@.subrange(0, i as int)),
            decreases self.layers.len() - i,
        {
            if i > 0 {
                append_chars(&mut out, &sep);
            }
            let label = chars_of(self.layers[i].label());
            append_chars(&mut out, &label);
            proof {
                let sub = self.layers@.subrange(0, i + 1);
                assert(sub.drop_last() =~= self.layers@.subrange(0, i as int));
                if i == 0 {
                    assert(sub.len() == 1);
                }
            }
            i = i + 1;
        }
        proof {
            assert(self.layers@.subrange(0, self.layers@.len() as int) =~= self.layers@);
            assert(out@ =~= summary_text(self.layers@));
        }
        string_of(&out)
    }
}

// ---------------------------------------------------------------------------
// Laws
// ---------------------------------------------------------------------------

/// The layers layer-level Confluence bins: the eligible real layers and the
/// curated climate, emergency and health layers.
pub open spec fn confluence_layer(l: Layer) -> bool {
    eligible_layer(l) || l == Layer::Climate || l == Layer::Emergency || l == Layer::Health
}

proof fn lemma_placed_layer(cells: Seq<Option<u64>>, layer: Layer)
    ensures
        forall|j: int| 0 <= j < placed(cells, layer).len() ==> (#[trigger] placed(cells, layer)[j]).1
            == layer,
    decreases cells.len(),
{
    if cells.len() > 0 {
        lemma_placed_layer(cells.drop_last(), layer);
    }
}

proof fn lemma_placed_events_layer(events: Seq<EventCell>)
    ensures
        forall|j: int| 0 <= j < placed_events(events).len() ==> {
            let l = (#[trigger] placed_events(events)[j]).1;
            l == Layer::Earthquakes || l == Layer::Storms || l == Layer::Volcanoes
        },
    decreases events.len(),
{
    if events.len() > 0 {
        lemma_placed_events_layer(events.drop_last());
    }
}

/// Point-layer placements are all of Confluence layers other than the
/// natural-event layers.
pub proof fn lemma_point_placements_real(d: LoadedCells)
    ensures
        all_confluence_layers(point_layer_placements(d)),
        forall|j: int| 0 <= j < point_layer_placements(d).len() ==> (
        #[trigger] point_layer_placements(d)[j]).1 != Layer::Fires,
{
    lemma_placements_layers(d);
    let pts = placements(d);
    let a = point_layer_placements(d);
    assert forall|j: int| 0 <= j < a.len() implies confluence_layer((#[trigger] a[j]).1) && a[j].1 != Layer::Fires by {
        assert(pts[j] == a[j]);
    }
}

proof fn lemma_placements_layers(d: LoadedCells)
    ensures
        all_confluence_layers(placements(d)),
{
    lemma_placed_layer(d.sites@, Layer::Energy);
    lemma_placed_layer(d.nuclear_sites@, Layer::Nuclear);
    lemma_placed_layer(d.fossil_deposits@, Layer::FossilDeposits);
    lemma_placed_layer(d.major_cities@, Layer::MajorCities);
    lemma_placed_layer(d.chokepoints@, Layer::Chokepoints);
    lemma_placed_layer(d.critical_infrastructure@, Layer::Infrastructure);
    lemma_placed_layer(d.climate_projects@, Layer::Climate);
    lemma_placed_layer(d.emergency_shelters@, Layer::Emergency);
    lemma_placed_layer(d.health_facilities@, Layer::Health);
    lemma_placed_events_layer(d.natural_events@);
    let a1 = placed(d.sites@, Layer::Energy);
    let a2 = placed(d.nuclear_sites@, Layer::Nuclear);
    let a3 = placed(d.fossil_deposits@, Layer::FossilDeposits);
    let a4 = placed(d.major_cities@, Layer::MajorCities);
    let a5 = placed(d.chokepoints@, Layer::Chokepoints);
    let a6 = placed(d.critical_infrastructure@, Layer::Infrastructure);
    let a7 = placed(d.climate_projects@, Layer::Climate);
    let a8 = placed(d.emergency_shelters@, Layer::Emergency);
    let a9 = placed(d.health_facilities@, Layer::Health);
    let e = placed_events(d.natural_events@);
    lemma_concat_real(a1, a2);
    lemma_concat_real(a1 + a2, a3);
    lemma_concat_real(a1 + a2 + a3, a4);
    lemma_concat_real(a1 + a2 + a3 + a4, a5);
    lemma_concat_real(a1 + a2 + a3 + a4 + a5, a6);
    lemma_concat_real(a1 + a2 + a3 + a4 + a5 + a6, a7);
    lemma_concat_real(a1 + a2 + a3 + a4 + a5 + a6 + a7, a8);
    lemma_concat_real(a1 + a2 + a3 + a4 + a5 + a6 + a7 + a8, a9);
    lemma_concat_real(a1 + a2 + a3 + a4 + a5 + a6 + a7 + a8 + a9, e);
}

/// Every placement is of a Confluence layer.
pub open spec fn all_confluence_layers(s: Seq<(u64, Layer)>) -> bool {
    forall|j: int| 0 <= j < s.len() ==> confluence_layer((#[trigger] s[j]).1)
}

proof fn lemma_concat_real(a: Seq<(u64, Layer)>, b: Seq<(u64, Layer)>)
    requires
        all_confluence_layers(a),
        all_confluence_layers(b),
    ensures
        all_confluence_layers(a + b),
{
    assert forall|j: int| 0 <= j < (a + b).len() implies confluence_layer((#[trigger] (a + b)[j]).1) by {
        if j < a.len() {
            assert((a + b)[j] == a[j]);
        } else {
            assert((a + b)[j] == b[j - a.len()]);
        }
    }
}

/// A reported layer has a placement in its cell.
pub proof fn lemma_reported_layer_placed(pts: Seq<(u64, Layer)>, cell: ConfluenceCell, k: int)
    requires
        describes_cell(pts, cell),
        0 <= k < cell.layers@.len(),
    ensures
        exists|j: int| 0 <= j < pts.len() && #[trigger] pts[j] == (cell.cell, cell.layers@[k]),
{
    assert(cell.layers@.to_set().contains(cell.layers@[k]));
    assert(layer_set(pts, cell.cell).contains(cell.layers@[k]));
}

/// Layer-level Confluence never reports Scenario data or the mixed fire
/// layer: every reported layer is a point layer known to be real.
pub proof fn confluence_reports_only_real_layers(d: LoadedCells, min_layers: nat, out: Seq<ConfluenceCell>)
    requires
        is_confluence(placements(d), min_layers, out),
    ensures
        forall|i: int, k: int|
            0 <= i < out.len() && 0 <= k < out[i].layers@.len() ==> {
                let l = #[trigger] out[i].layers@[k];
                &&& confluence_layer(l)
                &&& l != Layer::Fires
                &&& audited_kind(l) != DataKind::Scenario
            },
{
    lemma_placements_layers(d);
    assert forall|i: int, k: int| 0 <= i < out.len() && 0 <= k < out[i].layers@.len() implies {
        let l = #[trigger] out[i].layers@[k];
        &&& confluence_layer(l)
        &&& l != Layer::Fires
        &&& audited_kind(l) != DataKind::Scenario
    } by {
        assert(describes_cell(placements(d), out[i]));
        lemma_reported_layer_placed(placements(d), out[i], k);
        let j = choose|j: int| 0 <= j < placements(d).len() && #[trigger] placements(d)[j] == (out[i].cell, out[i].layers@[k]);
        assert(confluence_layer(placements(d)[j].1));
    }
}

proof fn lemma_layer_set_bounded(pts: Seq<(u64, Layer)>, c: u64)
    ensures
        layer_set(pts, c).finite(),
        layer_set(pts, c).len() <= cell_count(pts, c),
    decreases pts.len(),
{
    if pts.len() == 0 {
        assert(layer_set(pts, c) =~= Set::empty());
    } else {
        let rest = pts.drop_last();
        lemma_layer_set_bounded(rest, c);
        assert(rest.push(pts.last()) =~= pts);
        lemma_place_push(rest, pts.last(), c);
        if pts.last().0 == c {
            assert(layer_set(rest, c).insert(pts.last().1).len() <= layer_set(rest, c).len() + 1);
        }
    }
}

/// Every reported cell counts at least one record per reported layer.
pub proof fn confluence_counts_cover_layers(pts: Seq<(u64, Layer)>, min_layers: nat, out: Seq<ConfluenceCell>)
    requires
        is_confluence(pts, min_layers, out),
    ensures
        forall|i: int| 0 <= i < out.len() ==> (#[trigger] out[i]).layers@.len() <= out[i].entity_count,
{
    assert forall|i: int| 0 <= i < out.len() implies (#[trigger] out[i]).layers@.len() <= out[i].entity_count by {
        assert(describes_cell(pts, out[i]));
        lemma_sorted_no_duplicates(out[i].layers@);
        lemma_layer_set_bounded(pts, out[i].cell);
    }
}


proof fn lemma_fire_events_dropped(events: Seq<EventCell>)
    ensures
        placed_events(events) == placed_events(events.filter(|e: EventCell| not_fire(e))),
    decreases events.len(),
{
    if events.len() > 0 {
        reveal(Seq::filter);
        lemma_fire_events_dropped(events.drop_last());
        let pred = |e: EventCell| not_fire(e);
        let rest = events.drop_last().filter(pred);
        if not_fire(events.last()) {
            assert(events.filter(pred) == rest.push(events.last()));
            assert(rest.push(events.last()).drop_last() =~= rest);
        } else {
            assert(events.filter(pred) == rest);
        }
    }
}

/// Fire events, wherever they lie, never influence layer-level Confluence:
/// data that differ only by their fire events have the same placements.
pub proof fn fire_events_never_count(with_fires: LoadedCells, without_fires: LoadedCells)
    requires
        same_point_layers(with_fires, without_fires),
        without_fires.natural_events@ == with_fires.natural_events@.filter(|e: EventCell| not_fire(e)),
    ensures
        placements(with_fires) == placements(without_fires),
{
    lemma_fire_events_dropped(with_fires.natural_events@);
    lemma_fire_events_dropped(without_fires.natural_events@);
}


/// Reported layers come in strictly increasing `str` order of their labels.
pub proof fn confluence_layers_follow_label_order(pts: Seq<(u64, Layer)>, min_layers: nat, out: Seq<ConfluenceCell>)
    requires
        is_confluence(pts, min_layers, out),
    ensures
        forall|i: int, j: int, k: int|
            0 <= i < out.len() && 0 <= j < k < out[i].layers@.len() ==> text_lt(
                layer_label(#[trigger] out[i].layers@[j]),
                layer_label(#[trigger] out[i].layers@[k]),
            ),
{
    assert forall|i: int, j: int, k: int|
        0 <= i < out.len() && 0 <= j < k < out[i].layers@.len() implies text_lt(
            layer_label(#[trigger] out[i].layers@[j]),
            layer_label(#[trigger] out[i].layers@[k]),
        ) by {
        assert(describes_cell(pts, out[i]));
        label_rank_orders_labels(out[i].layers@[j], out[i].layers@[k]);
    }
}


/// No layer eligible for real-data Confluence is a Scenario layer, under the
/// audited layer provenance.
pub proof fn eligible_layers_are_never_scenario(l: Layer)
    requires
        eligible_layer(l),
    ensures
        audited_kind(l) != DataKind::Scenario,
{
}


/// What a reported cell says: its index, its layers and its record count.
pub open spec fn cell_model(c: ConfluenceCell) -> (u64, Seq<Layer>, u32) {
    (c.cell, c.layers@, c.entity_count)
}

/// What the reported cells say, in output order.
pub open spec fn cell_models(out: Seq<ConfluenceCell>) -> Seq<(u64, Seq<Layer>, u32)> {
    out.map_values(|c: ConfluenceCell| cell_model(c))
}

proof fn lemma_sorted_unique(a: Seq<Layer>, b: Seq<Layer>)
    requires
        sorted_by_label(a),
        sorted_by_label(b),
        a.to_set() == b.to_set(),
    ensures
        a == b,
    decreases a.len(),
{
    if a.len() == 0 {
        if b.len() > 0 {
            assert(b.to_set().contains(b[0]));
        }
        assert(a =~= b);
    } else {
        assert(a.to_set().contains(a[0]));
        assert(b.len() > 0);
        assert(b.to_set().contains(b[0]));
        let j = choose|j: int| 0 <= j < b.len() && b[j] == a[0];
        let i = choose|i: int| 0 <= i < a.len() && a[i] == b[0];
        if j > 0 {
            assert(label_rank(b[0]) < label_rank(b[j]));
            if i > 0 {
                assert(label_rank(a[0]) < label_rank(a[i]));
            }
        }
        assert(a[0] == b[0]);
        let ra = a.drop_first();
        let rb = b.drop_first();
        assert(sorted_by_label(ra)) by {
            assert forall|x: int, y: int| 0 <= x < y < ra.len() implies label_rank(#[trigger] ra[x])
                < label_rank(#[trigger] ra[y]) by {
                assert(ra[x] == a[x + 1] && ra[y] == a[y + 1]);
            }
        }
        assert(sorted_by_label(rb)) by {
            assert forall|x: int, y: int| 0 <= x < y < rb.len() implies label_rank(#[trigger] rb[x])
                < label_rank(#[trigger] rb[y]) by {
                assert(rb[x] == b[x + 1] && rb[y] == b[y + 1]);
            }
        }
        assert forall|l: Layer| ra.to_set().contains(l) implies rb.to_set().contains(l) by {
            let x = choose|x: int| 0 <= x < ra.len() && ra[x] == l;
            assert(a[x + 1] == l);
            assert(label_rank(a[0]) < label_rank(a[x + 1]));
            assert(a.to_set().contains(l));
            let y = choose|y: int| 0 <= y < b.len() && b[y] == l;
            if y == 0 {
                assert(false);
            }
            assert(rb[y - 1] == l);
        }
        assert forall|l: Layer| rb.to_set().contains(l) implies ra.to_set().contains(l) by {
            let x = choose|x: int| 0 <= x < rb.len() && rb[x] == l;
            assert(b[x + 1] == l);
            assert(label_rank(b[0]) < label_rank(b[x + 1]));
            assert(b.to_set().contains(l));
            let y = choose|y: int| 0 <= y < a.len() && a[y] == l;
            if y == 0 {
                assert(false);
            }
            assert(ra[y - 1] == l);
        }
        assert(ra.to_set() =~= rb.to_set());
        lemma_sorted_unique(ra, rb);
        assert(a =~= b) by {
            assert forall|k: int| 0 <= k < a.len() implies a[k] == b[k] by {
                if k > 0 {
                    assert(a[k] == ra[k - 1] && b[k] == rb[k - 1]);
                }
            }
        }
    }
}

/// Two cells that both describe the same cell of the same placements say the
/// same thing.
proof fn lemma_cell_determined(pts: Seq<(u64, Layer)>, x: ConfluenceCell, y: ConfluenceCell)
    requires
        describes_cell(pts, x),
        describes_cell(pts, y),
        x.cell == y.cell,
    ensures
        cell_model(x) == cell_model(y),
{
    lemma_sorted_unique(x.layers@, y.layers@);
}

proof fn lemma_models_no_duplicates(pts: Seq<(u64, Layer)>, min_layers: nat, out: Seq<ConfluenceCell>)
    requires
        is_confluence(pts, min_layers, out),
    ensures
        cell_models(out).no_duplicates(),
        forall|k: int| 0 <= k < out.len() ==> #[trigger] cell_models(out)[k] == cell_model(out[k]),
        cell_models(out).len() == out.len(),
{
    let ms = cell_models(out);
    assert forall|i: int, j: int| 0 <= i < ms.len() && 0 <= j < ms.len() && i != j implies ms[i]
        != ms[j] by {
        assert(ms[i] == cell_model(out[i]) && ms[j] == cell_model(out[j]));
        assert(out[i].cell != out[j].cell);
    }
}

/// `is_confluence` fixes the reported cells up to order: two outputs that both
/// meet it for the same placements and the same minimum say the same cells,
/// each as often.
pub proof fn confluence_is_unique(
    pts: Seq<(u64, Layer)>,
    min_layers: nat,
    out1: Seq<ConfluenceCell>,
    out2: Seq<ConfluenceCell>,
)
    requires
        is_confluence(pts, min_layers, out1),
        is_confluence(pts, min_layers, out2),
    ensures
        cell_models(out1).to_multiset() == cell_models(out2).to_multiset(),
{
    broadcast use vstd::seq_lib::group_to_multiset_ensures;
    let m1 = cell_models(out1);
    let m2 = cell_models(out2);
    lemma_models_no_duplicates(pts, min_layers, out1);
    lemma_models_no_duplicates(pts, min_layers, out2);
    assert forall|x: (u64, Seq<Layer>, u32)| m1.contains(x) implies m2.contains(x) by {
        let i = choose|i: int| 0 <= i < m1.len() && m1[i] == x;
        let c = out1[i];
        assert(describes_cell(pts, c));
        lemma_sorted_no_duplicates(c.layers@);
        assert(layer_set(pts, c.cell).len() >= min_layers);
        let j = choose|j: int| 0 <= j < out2.len() && (#[trigger] out2[j]).cell == c.cell;
        assert(describes_cell(pts, out2[j]));
        lemma_cell_determined(pts, c, out2[j]);
        assert(m2[j] == x);
    }
    assert forall|x: (u64, Seq<Layer>, u32)| m2.contains(x) implies m1.contains(x) by {
        let i = choose|i: int| 0 <= i < m2.len() && m2[i] == x;
        let c = out2[i];
        assert(describes_cell(pts, c));
        lemma_sorted_no_duplicates(c.layers@);
        assert(layer_set(pts, c.cell).len() >= min_layers);
        let j = choose|j: int| 0 <= j < out1.len() && (#[trigger] out1[j]).cell == c.cell;
        assert(describes_cell(pts, out1[j]));
        lemma_cell_determined(pts, c, out1[j]);
        assert(m1[j] == x);
    }
    m1.lemma_multiset_has_no_duplicates();
    m2.lemma_multiset_has_no_duplicates();
    assert forall|x: (u64, Seq<Layer>, u32)| m1.to_multiset().count(x) == m2.to_multiset().count(x) by {
        if m1.contains(x) {
            assert(m1.to_multiset().contains(x));
            assert(m2.to_multiset().contains(x));
        } else {
            assert(!m2.contains(x));
        }
    }
    assert(m1.to_multiset() =~= m2.to_multiset());
}

/// Fire events, wherever they lie, never change the reported cells of
/// layer-level Confluence: data that differ only by their fire events give
/// the same cells, each as often.
pub proof fn fire_events_never_change_cells(
    with_fires: LoadedCells,
    without_fires: LoadedCells,
    min_layers: nat,
    out1: Seq<ConfluenceCell>,
    out2: Seq<ConfluenceCell>,
)
    requires
        same_point_layers(with_fires, without_fires),
        without_fires.natural_events@ == with_fires.natural_events@.filter(|e: EventCell| not_fire(e)),
        is_confluence(placements(with_fires), min_layers, out1),
        is_confluence(placements(without_fires), min_layers, out2),
    ensures
        cell_models(out1).to_multiset() == cell_models(out2).to_multiset(),
{
    fire_events_never_count(with_fires, without_fires);
    confluence_is_unique(placements(with_fires), min_layers, out1, out2);
}


// ---------------------------------------------------------------------------
// Natural events report the layer named for their own type
// ---------------------------------------------------------------------------

/// A layer of the non-natural point datasets.
pub open spec fn point_layer(l: Layer) -> bool {
    l == Layer::Energy || l == Layer::Nuclear || l == Layer::FossilDeposits || l == Layer::MajorCities
        || l == Layer::Chokepoints || l == Layer::Infrastructure || l == Layer::Climate || l
        == Layer::Emergency || l == Layer::Health
}

pub open spec fn all_point_layers(s: Seq<(u64, Layer)>) -> bool {
    forall|j: int| 0 <= j < s.len() ==> point_layer((#[trigger] s[j]).1)
}

proof fn lemma_concat_point(a: Seq<(u64, Layer)>, b: Seq<(u64, Layer)>)
    requires
        all_point_layers(a),
        all_point_layers(b),
    ensures
        all_point_layers(a + b),
{
    assert forall|j: int| 0 <= j < (a + b).len() implies point_layer((#[trigger] (a + b)[j]).1) by {
        if j < a.len() {
            assert((a + b)[j] == a[j]);
        } else {
            assert((a + b)[j] == b[j - a.len()]);
        }
    }
}

proof fn lemma_placed_point(cells: Seq<Option<u64>>, layer: Layer)
    requires
        point_layer(layer),
    ensures
        all_point_layers(placed(cells, layer)),
{
    lemma_placed_layer(cells, layer);
}

/// Every placement of the point datasets carries a point layer.
pub proof fn lemma_point_placements_are_point_layers(d: LoadedCells)
    ensures
        all_point_layers(point_layer_placements(d)),
{
    let a1 = placed(d.sites@, Layer::Energy);
    let a2 = placed(d.nuclear_sites@, Layer::Nuclear);
    let a3 = placed(d.fossil_deposits@, Layer::FossilDeposits);
    let a4 = placed(d.major_cities@, Layer::MajorCities);
    let a5 = placed(d.chokepoints@, Layer::Chokepoints);
    let a6 = placed(d.critical_infrastructure@, Layer::Infrastructure);
    let a7 = placed(d.climate_projects@, Layer::Climate);
    let a8 = placed(d.emergency_shelters@, Layer::Emergency);
    let a9 = placed(d.health_facilities@, Layer::Health);
    lemma_placed_point(d.sites@, Layer::Energy);
    lemma_placed_point(d.nuclear_sites@, Layer::Nuclear);
    lemma_placed_point(d.fossil_deposits@, Layer::FossilDeposits);
    lemma_placed_point(d.major_cities@, Layer::MajorCities);
    lemma_placed_point(d.chokepoints@, Layer::Chokepoints);
    lemma_placed_point(d.critical_infrastructure@, Layer::Infrastructure);
    lemma_placed_point(d.climate_projects@, Layer::Climate);
    lemma_placed_point(d.emergency_shelters@, Layer::Emergency);
    lemma_placed_point(d.health_facilities@, Layer::Health);
    lemma_concat_point(a1, a2);
    lemma_concat_point(a1 + a2, a3);
    lemma_concat_point(a1 + a2 + a3, a4);
    lemma_concat_point(a1 + a2 + a3 + a4, a5);
    lemma_concat_point(a1 + a2 + a3 + a4 + a5, a6);
    lemma_concat_point(a1 + a2 + a3 + a4 + a5 + a6, a7);
    lemma_concat_point(a1 + a2 + a3 + a4 + a5 + a6 + a7, a8);
    lemma_concat_point(a1 + a2 + a3 + a4 + a5 + a6 + a7 + a8, a9);
}

proof fn lemma_placed_event_source(events: Seq<EventCell>, j: int)
    requires
        0 <= j < placed_events(events).len(),
    ensures
        exists|q: int|
            0 <= q < events.len() && (#[trigger] events[q]).cell == Some(placed_events(events)[j].0)
                && confluence_event_layer(events[q].event_type) == Some(placed_events(events)[j].1),
    decreases events.len(),
{
    let rest = placed_events(events.drop_last());
    if j < rest.len() {
        lemma_placed_event_source(events.drop_last(), j);
        let q = choose|q: int|
            0 <= q < events.drop_last().len() && (#[trigger] events.drop_last()[q]).cell == Some(rest[j].0)
                && confluence_event_layer(events.drop_last()[q].event_type) == Some(rest[j].1);
        assert(events[q] == events.drop_last()[q]);
    } else {
        assert(events[events.len() - 1] == events.last());
    }
}

proof fn lemma_event_placed(events: Seq<EventCell>, q: int, c: u64, l: Layer)
    requires
        0 <= q < events.len(),
        events[q].cell == Some(c),
        confluence_event_layer(events[q].event_type) == Some(l),
    ensures
        exists|j: int| 0 <= j < placed_events(events).len() && placed_events(events)[j] == (c, l),
    decreases events.len(),
{
    let rest = placed_events(events.drop_last());
    if q < events.len() - 1 {
        assert(events.drop_last()[q] == events[q]);
        lemma_event_placed(events.drop_last(), q, c, l);
        let j = choose|j: int| 0 <= j < rest.len() && rest[j] == (c, l);
        assert(placed_events(events)[j] == rest[j]);
    } else {
        assert(placed_events(events) == rest.push((c, l)));
        assert(placed_events(events)[rest.len() as int] == (c, l));
    }
}

/// Some natural event of type `t` lies in cell `c`.
pub open spec fn has_event(events: Seq<EventCell>, t: NaturalEventType, c: u64) -> bool {
    exists|q: int| 0 <= q < events.len() && #[trigger] events[q] == (EventCell { cell: Some(c), event_type: t })
}

proof fn lemma_reported_event_layer(d: LoadedCells, min_layers: nat, out: Seq<ConfluenceCell>, i: int, k: int)
    requires
        is_confluence(placements(d), min_layers, out),
        0 <= i < out.len(),
        0 <= k < out[i].layers@.len(),
        !point_layer(out[i].layers@[k]),
    ensures
        exists|q: int|
            0 <= q < d.natural_events@.len() && (#[trigger] d.natural_events@[q]).cell == Some(out[i].cell)
                && confluence_event_layer(d.natural_events@[q].event_type) == Some(out[i].layers@[k]),
{
    let pts = placements(d);
    let a = point_layer_placements(d);
    let e = placed_events(d.natural_events@);
    assert(describes_cell(pts, out[i]));
    lemma_reported_layer_placed(pts, out[i], k);
    let j = choose|j: int| 0 <= j < pts.len() && #[trigger] pts[j] == (out[i].cell, out[i].layers@[k]);
    lemma_point_placements_are_point_layers(d);
    if j < a.len() {
        assert(pts[j] == a[j]);
    } else {
        assert(pts[j] == e[j - a.len()]);
        lemma_placed_event_source(d.natural_events@, j - a.len());
    }
}

proof fn lemma_event_reported(d: LoadedCells, min_layers: nat, out: Seq<ConfluenceCell>, i: int, q: int, l: Layer)
    requires
        is_confluence(placements(d), min_layers, out),
        0 <= i < out.len(),
        0 <= q < d.natural_events@.len(),
        d.natural_events@[q].cell == Some(out[i].cell),
        confluence_event_layer(d.natural_events@[q].event_type) == Some(l),
    ensures
        out[i].layers@.contains(l),
{
    let pts = placements(d);
    let a = point_layer_placements(d);
    let e = placed_events(d.natural_events@);
    lemma_event_placed(d.natural_events@, q, out[i].cell, l);
    let j = choose|j: int| 0 <= j < e.len() && e[j] == (out[i].cell, l);
    assert(pts[a.len() + j] == (out[i].cell, l));
    assert(describes_cell(pts, out[i]));
    assert(layer_set(pts, out[i].cell).contains(l));
    assert(out[i].layers@.to_set().contains(l));
}

/// In layer-level Confluence a reported Earthquakes, Storms or Volcanoes
/// layer always stands on a natural event of that very type in the cell, and
/// every earthquake, storm or volcano event in a reported cell puts its own
/// layer there: no event is reported under another type's layer.
pub proof fn event_layers_follow_event_types(d: LoadedCells, min_layers: nat, out: Seq<ConfluenceCell>)
    requires
        is_confluence(placements(d), min_layers, out),
    ensures
        forall|i: int, k: int|
            0 <= i < out.len() && 0 <= k < out[i].layers@.len() ==> {
                let l = #[trigger] out[i].layers@[k];
                &&& l == Layer::Earthquakes ==> has_event(d.natural_events@, NaturalEventType::Earthquake, out[i].cell)
                &&& l == Layer::Storms ==> has_event(d.natural_events@, NaturalEventType::Storm, out[i].cell)
                &&& l == Layer::Volcanoes ==> has_event(d.natural_events@, NaturalEventType::Volcano, out[i].cell)
            },
        forall|i: int|
            0 <= i < out.len() ==> {
                &&& has_event(d.natural_events@, NaturalEventType::Earthquake, #[trigger] out[i].cell)
                    ==> out[i].layers@.contains(Layer::Earthquakes)
                &&& has_event(d.natural_events@, NaturalEventType::Storm, out[i].cell)
                    ==> out[i].layers@.contains(Layer::Storms)
                &&& has_event(d.natural_events@, NaturalEventType::Volcano, out[i].cell)
                    ==> out[i].layers@.contains(Layer::Volcanoes)
            },
{
    let ev = d.natural_events@;
    assert forall|i: int, k: int| 0 <= i < out.len() && 0 <= k < out[i].layers@.len() implies {
        let l = #[trigger] out[i].layers@[k];
        &&& l == Layer::Earthquakes ==> has_event(ev, NaturalEventType::Earthquake, out[i].cell)
        &&& l == Layer::Storms ==> has_event(ev, NaturalEventType::Storm, out[i].cell)
        &&& l == Layer::Volcanoes ==> has_event(ev, NaturalEventType::Volcano, out[i].cell)
    } by {
        let l = out[i].layers@[k];
        if l == Layer::Earthquakes || l == Layer::Storms || l == Layer::Volcanoes {
            lemma_reported_event_layer(d, min_layers, out, i, k);
            let q = choose|q: int|
                0 <= q < ev.len() && (#[trigger] ev[q]).cell == Some(out[i].cell)
                    && confluence_event_layer(ev[q].event_type) == Some(l);
            assert(ev[q] == EventCell { cell: Some(out[i].cell), event_type: ev[q].event_type });
        }
    }
    assert forall|i: int| 0 <= i < out.len() implies {
        &&& has_event(ev, NaturalEventType::Earthquake, #[trigger] out[i].cell)
            ==> out[i].layers@.contains(Layer::Earthquakes)
        &&& has_event(ev, NaturalEventType::Storm, out[i].cell) ==> out[i].layers@.contains(Layer::Storms)
        &&& has_event(ev, NaturalEventType::Volcano, out[i].cell)
            ==> out[i].layers@.contains(Layer::Volcanoes)
    } by {
        if has_event(ev, NaturalEventType::Earthquake, out[i].cell) {
            let q = choose|q: int| 0 <= q < ev.len() && #[trigger] ev[q] == (EventCell { cell: Some(out[i].cell), event_type: NaturalEventType::Earthquake });
            lemma_event_reported(d, min_layers, out, i, q, Layer::Earthquakes);
        }
        if has_event(ev, NaturalEventType::Storm, out[i].cell) {
            let q = choose|q: int| 0 <= q < ev.len() && #[trigger] ev[q] == (EventCell { cell: Some(out[i].cell), event_type: NaturalEventType::Storm });
            lemma_event_reported(d, min_layers, out, i, q, Layer::Storms);
        }
        if has_event(ev, NaturalEventType::Volcano, out[i].cell) {
            let q = choose|q: int| 0 <= q < ev.len() && #[trigger] ev[q] == (EventCell { cell: Some(out[i].cell), event_type: NaturalEventType::Volcano });
            lemma_event_reported(d, min_layers, out, i, q, Layer::Volcanoes);
        }
    }
}

} // verus!
