//! Evidence-native Confluence.
//!
//! Non-natural point layers keep their layer-level contract; natural events
//! are admitted record by record from their own evidence class. Scenario,
//! forecast, inferred and derived products never contribute; reports are
//! admitted only when the policy says so. The legacy natural-event list of the
//! loaded data is ignored, so one physical event cannot count twice.
use vstd::prelude::*;
use crate::confluence::{
    bin_placements, describes_cell, is_confluence, lemma_reported_layer_placed, place_point_layers,
    point_layer_placements, point_record_count, same_point_layers, cell_models, confluence_is_unique,
    lemma_point_placements_are_point_layers, point_layer, layer_set,
    ConfluenceCell, LoadedCells,
};
use crate::evidence::EvidenceBearingNaturalEvent;
use crate::planetary::EvidenceClass;
use crate::types::{Layer, NaturalEventType};

verus! {

/// Whether human/expert reports may contribute beside direct observations.
#[derive(Debug, Clone, Copy, PartialEq, Eq, Structural)]
pub enum EventAdmissionPolicy {
    ObservedOnly,
    ObservedOrReported,
}

impl Default for EventAdmissionPolicy {
    fn default() -> (r: Self)
        ensures
            r == EventAdmissionPolicy::ObservedOrReported,
    {
        EventAdmissionPolicy::ObservedOrReported
    }
}

/// Admission and exclusion accounting of natural-event evidence.
#[derive(Debug, Clone, Copy, PartialEq, Eq, Structural)]
pub struct EvidenceConfluenceAudit {
    pub admitted_observed: u32,
    pub admitted_reported: u32,
    pub excluded_reported_by_policy: u32,
    pub excluded_scenario: u32,
    pub excluded_forecast: u32,
    pub excluded_inferred: u32,
    pub excluded_derived: u32,
}

impl Default for EvidenceConfluenceAudit {
    fn default() -> (r: Self)
        ensures
            r == (EvidenceConfluenceAudit {
                admitted_observed: 0,
                admitted_reported: 0,
                excluded_reported_by_policy: 0,
                excluded_scenario: 0,
                excluded_forecast: 0,
                excluded_inferred: 0,
                excluded_derived: 0,
            }),
    {
        EvidenceConfluenceAudit {
            admitted_observed: 0,
            admitted_reported: 0,
            excluded_reported_by_policy: 0,
            excluded_scenario: 0,
            excluded_forecast: 0,
            excluded_inferred: 0,
            excluded_derived: 0,
        }
    }
}

pub open spec fn admitted_sum(a: EvidenceConfluenceAudit) -> int {
    a.admitted_observed + a.admitted_reported
}

pub open spec fn excluded_sum(a: EvidenceConfluenceAudit) -> int {
    a.excluded_reported_by_policy + a.excluded_scenario + a.excluded_forecast + a.excluded_inferred
        + a.excluded_derived
}

impl EvidenceConfluenceAudit {
    pub fn admitted_total(&self) -> (r: u32)
        requires
            admitted_sum(*self) <= u32::MAX,
        ensures
            r == admitted_sum(*self),
    {
        self.admitted_observed + self.admitted_reported
    }

    pub fn excluded_total(&self) -> (r: u32)
        requires
            excluded_sum(*self) <= u32::MAX,
        ensures
            r == excluded_sum(*self),
    {
        self.excluded_reported_by_policy + self.excluded_scenario + self.excluded_forecast
            + self.excluded_inferred + self.excluded_derived
    }
}

/// Cells with their admission accounting.
#[derive(Debug, Clone)]
pub struct EvidenceConfluenceResult {
    pub cells: Vec<ConfluenceCell>,
    pub audit: EvidenceConfluenceAudit,
}

/// A record of this class contributes under this policy.
pub open spec fn admits(policy: EventAdmissionPolicy, class: EvidenceClass) -> bool {
    class == EvidenceClass::Observed || (class == EvidenceClass::Reported && policy
        == EventAdmissionPolicy::ObservedOrReported)
}

/// Layer of an admitted natural event.
pub open spec fn evidence_event_layer(t: NaturalEventType) -> Layer {
    match t {
        NaturalEventType::Earthquake => Layer::Earthquakes,
        NaturalEventType::Fire => Layer::Fires,
        NaturalEventType::Storm => Layer::Storms,
        NaturalEventType::Volcano => Layer::Volcanoes,
    }
}

/// Placements of the admitted records that have a cell, in record order.
pub open spec fn admitted_placements(
    records: Seq<EvidenceBearingNaturalEvent>,
    cells: Seq<Option<u64>>,
    policy: EventAdmissionPolicy,
) -> Seq<(u64, Layer)>
    decreases records.len(),
{
    if records.len() == 0 || cells.len() != records.len() {
        Seq::empty()
    } else {
        let rest = admitted_placements(records.drop_last(), cells.drop_last(), policy);
        let r = records.last();
        if admits(policy, r.observation.class) {
            match cells.last() {
                Some(c) => rest.push((c, evidence_event_layer(r.event.event_type))),
                None => rest,
            }
        } else {
            rest
        }
    }
}

/// All placements of evidence-native Confluence.
pub open spec fn evidence_placements(
    data: LoadedCells,
    records: Seq<EvidenceBearingNaturalEvent>,
    cells: Seq<Option<u64>>,
    policy: EventAdmissionPolicy,
) -> Seq<(u64, Layer)> {
    point_layer_placements(data) + admitted_placements(records, cells, policy)
}

/// Number of records of a class.
pub open spec fn class_count(records: Seq<EvidenceBearingNaturalEvent>, class: EvidenceClass) -> nat
    decreases records.len(),
{
    if records.len() == 0 {
        0
    } else {
        class_count(records.drop_last(), class) + if records.last().observation.class == class {
            1nat
        } else {
            0nat
        }
    }
}

/// The audit of a record list under a policy.
pub open spec fn audit_of(records: Seq<EvidenceBearingNaturalEvent>, policy: EventAdmissionPolicy) -> EvidenceConfluenceAudit {
    let reported = class_count(records, EvidenceClass::Reported);
    let inclusive = policy == EventAdmissionPolicy::ObservedOrReported;
    EvidenceConfluenceAudit {
        admitted_observed: class_count(records, EvidenceClass::Observed) as u32,
        admitted_reported: (if inclusive { reported } else { 0 }) as u32,
        excluded_reported_by_policy: (if inclusive { 0 } else { reported }) as u32,
        excluded_scenario: class_count(records, EvidenceClass::Scenario) as u32,
        excluded_forecast: class_count(records, EvidenceClass::Forecast) as u32,
        excluded_inferred: class_count(records, EvidenceClass::Inferred) as u32,
        excluded_derived: class_count(records, EvidenceClass::Derived) as u32,
    }
}

proof fn lemma_class_count_bounded(records: Seq<EvidenceBearingNaturalEvent>, class: EvidenceClass)
    ensures
        class_count(records, class) <= records.len(),
    decreases records.len(),
{
    if records.len() > 0 {
        lemma_class_count_bounded(records.drop_last(), class);
    }
}

fn event_layer_of(t: NaturalEventType) -> (r: Layer)
    ensures
        r == evidence_event_layer(t),
{
    match t {
        NaturalEventType::Earthquake => Layer::Earthquakes,
        NaturalEventType::Fire => Layer::Fires,
        NaturalEventType::Storm => Layer::Storms,
        NaturalEventType::Volcano => Layer::Volcanoes,
    }
}

/// Admits one record: counts it in the audit by its class and policy and
/// says whether it contributes.
pub fn admit_record(class: EvidenceClass, policy: EventAdmissionPolicy, audit: &mut EvidenceConfluenceAudit) -> (admitted: bool)
    requires
        old(audit).admitted_observed < u32::MAX,
        old(audit).admitted_reported < u32::MAX,
        old(audit).excluded_reported_by_policy < u32::MAX,
        old(audit).excluded_scenario < u32::MAX,
        old(audit).excluded_forecast < u32::MAX,
        old(audit).excluded_inferred < u32::MAX,
        old(audit).excluded_derived < u32::MAX,
    ensures
        admitted == admits(policy, class),
        final(audit).admitted_observed == old(audit).admitted_observed + (if class
            == EvidenceClass::Observed { 1int } else { 0int }),
        final(audit).admitted_reported == old(audit).admitted_reported + (if class
            == EvidenceClass::Reported && policy == EventAdmissionPolicy::ObservedOrReported {
            1int
        } else {
            0int
        }),
        final(audit).excluded_reported_by_policy == old(audit).excluded_reported_by_policy + (if class
            == EvidenceClass::Reported && policy == EventAdmissionPolicy::ObservedOnly {
            1int
        } else {
            0int
        }),
        final(audit).excluded_scenario == old(audit).excluded_scenario + (if class
            == EvidenceClass::Scenario { 1int } else { 0int }),
        final(audit).excluded_forecast == old(audit).excluded_forecast + (if class
            == EvidenceClass::Forecast { 1int } else { 0int }),
        final(audit).excluded_inferred == old(audit).excluded_inferred + (if class
            == EvidenceClass::Inferred { 1int } else { 0int }),
        final(audit).excluded_derived == old(audit).excluded_derived + (if class
            == EvidenceClass::Derived { 1int } else { 0int }),
{
    match class {
        EvidenceClass::Observed => {
            audit.admitted_observed = audit.admitted_observed + 1;
            true
        },
        EvidenceClass::Reported => {
            if policy == EventAdmissionPolicy::ObservedOrReported {
                audit.admitted_reported = audit.admitted_reported + 1;
                true
            } else {
                audit.excluded_reported_by_policy = audit.excluded_reported_by_policy + 1;
                false
            }
        },
        EvidenceClass::Scenario => {
            audit.excluded_scenario = audit.excluded_scenario + 1;
            false
        },
        EvidenceClass::Forecast => {
            audit.excluded_forecast = audit.excluded_forecast + 1;
            false
        },
        EvidenceClass::Inferred => {
            audit.excluded_inferred = audit.excluded_inferred + 1;
            false
        },
        EvidenceClass::Derived => {
            audit.excluded_derived = audit.excluded_derived + 1;
            false
        },
    }
}

/// Confluence that judges every natural event by its own evidence class.
/// `event_cells[i]` is the cell of `event_records[i]` (`None` when its
/// coordinate has no cell).
pub fn compute_evidence_aware(
    data: &LoadedCells,
    event_records: &Vec<EvidenceBearingNaturalEvent>,
    event_cells: &Vec<Option<u64>>,
    min_layers: usize,
    policy: EventAdmissionPolicy,
) -> (r: EvidenceConfluenceResult)
    requires
        event_cells@.len() == event_records@.len(),
        point_record_count(*data) + event_records@.len() <= u32::MAX,
    ensures
        is_confluence(
            evidence_placements(*data, event_records@, event_cells@, policy),
            min_layers as nat,
            r.cells@,
        ),
        r.audit == audit_of(event_records@, policy),
{
    let mut pts: Vec<(u64, Layer)> = Vec::new();
    place_point_layers(&mut pts, data);
    let ghost base = pts@;
    let mut audit = EvidenceConfluenceAudit::default();
    let mut i: usize = 0;
    while i < event_records.len()
        invariant
            i <= event_records.len(),
            event_cells@.len() == event_records@.len(),
            point_record_count(*data) + event_records@.len() <= u32::MAX,
            base.len() <= point_record_count(*data),
            pts@ == base + admitted_placements(
                event_records@.subrange(0, i as int),
                event_cells@.subrange(0, i as int),
                policy,
            ),
            pts@.len() <= base.len() + i,
            audit == audit_of(event_records@.subrange(0, i as int), policy),
        decreases event_records.len() - i,
    {
        let ghost prefix = event_records@.subrange(0, i as int);
        let ghost next = event_records@.subrange(0, i + 1);
        proof {
            assert(next.drop_last() =~= prefix);
            assert(event_cells@.subrange(0, i + 1).drop_last() =~= event_cells@.subrange(0, i as int));
            lemma_class_count_bounded(prefix, EvidenceClass::Observed);
            lemma_class_count_bounded(prefix, EvidenceClass::Reported);
            lemma_class_count_bounded(prefix, EvidenceClass::Scenario);
            lemma_class_count_bounded(prefix, EvidenceClass::Forecast);
            lemma_class_count_bounded(prefix, EvidenceClass::Inferred);
            lemma_class_count_bounded(prefix, EvidenceClass::Derived);
        }
        let record = &event_records[i];
        let admitted = admit_record(record.observation.class, policy, &mut audit);
        if admitted {
            match event_cells[i] {
                Some(c) => {
                    pts.push((c, event_layer_of(record.event.event_type)));
                },
                None => {},
            }
        }
        proof {
            assert(audit == audit_of(next, policy));
        }
        i = i + 1;
    }
    proof {
        assert(event_records@.subrange(0, i as int) =~= event_records@);
        assert(event_cells@.subrange(0, i as int) =~= event_cells@);
    }
    let cells = bin_placements(&pts, min_layers);
    EvidenceConfluenceResult { cells, audit }
}

// ---------------------------------------------------------------------------
// Laws
// ---------------------------------------------------------------------------

/// A record that the policy does not admit (a scenario, forecast, inferred or
/// derived product, or a report under `ObservedOnly`) changes no placement,
/// wherever it lies.
pub proof fn excluded_records_do_not_count(
    data: LoadedCells,
    records: Seq<EvidenceBearingNaturalEvent>,
    cells: Seq<Option<u64>>,
    policy: EventAdmissionPolicy,
    record: EvidenceBearingNaturalEvent,
    cell: Option<u64>,
)
    requires
        records.len() == cells.len(),
        !admits(policy, record.observation.class),
    ensures
        evidence_placements(data, records.push(record), cells.push(cell), policy)
            == evidence_placements(data, records, cells, policy),
{
    assert(records.push(record).drop_last() =~= records);
    assert(cells.push(cell).drop_last() =~= cells);
}

/// Only observations, and reports under `ObservedOrReported`, are admitted.
pub proof fn admission_policy(policy: EventAdmissionPolicy, class: EvidenceClass)
    ensures
        admits(policy, class) ==> class == EvidenceClass::Observed || class == EvidenceClass::Reported,
        class == EvidenceClass::Observed ==> admits(policy, class),
        class == EvidenceClass::Reported ==> (admits(policy, class) <==> policy
            == EventAdmissionPolicy::ObservedOrReported),
{
}

proof fn lemma_class_counts_sum(records: Seq<EvidenceBearingNaturalEvent>)
    ensures
        class_count(records, EvidenceClass::Observed) + class_count(records, EvidenceClass::Reported)
            + class_count(records, EvidenceClass::Scenario) + class_count(records, EvidenceClass::Forecast)
            + class_count(records, EvidenceClass::Inferred) + class_count(records, EvidenceClass::Derived)
            == records.len(),
    decreases records.len(),
{
    if records.len() > 0 {
        lemma_class_counts_sum(records.drop_last());
    }
}

/// The audit accounts for every record exactly once.
pub proof fn audit_accounts_every_record(records: Seq<EvidenceBearingNaturalEvent>, policy: EventAdmissionPolicy)
    requires
        records.len() <= u32::MAX,
    ensures
        admitted_sum(audit_of(records, policy)) + excluded_sum(audit_of(records, policy)) == records.len(),
{
    lemma_class_counts_sum(records);
    lemma_class_count_bounded(records, EvidenceClass::Observed);
    lemma_class_count_bounded(records, EvidenceClass::Reported);
    lemma_class_count_bounded(records, EvidenceClass::Scenario);
    lemma_class_count_bounded(records, EvidenceClass::Forecast);
    lemma_class_count_bounded(records, EvidenceClass::Inferred);
    lemma_class_count_bounded(records, EvidenceClass::Derived);
}

proof fn lemma_point_layers_have_no_fires(d: LoadedCells)
    ensures
        forall|j: int| 0 <= j < point_layer_placements(d).len() ==> (
        #[trigger] point_layer_placements(d)[j]).1 != Layer::Fires,
{
    crate::confluence::lemma_point_placements_real(d);
}

proof fn lemma_admitted_fire_has_record(
    records: Seq<EvidenceBearingNaturalEvent>,
    cells: Seq<Option<u64>>,
    policy: EventAdmissionPolicy,
    c: u64,
    j: int,
)
    requires
        0 <= j < admitted_placements(records, cells, policy).len(),
        admitted_placements(records, cells, policy)[j] == (c, Layer::Fires),
    ensures
        exists|k: int|
            0 <= k < records.len() && k < cells.len() && (#[trigger] records[k]).event.event_type
                == NaturalEventType::Fire && admits(policy, records[k].observation.class) && cells[k]
                == Some(c),
    decreases records.len(),
{
    let rest = admitted_placements(records.drop_last(), cells.drop_last(), policy);
    if j < rest.len() {
        lemma_admitted_fire_has_record(records.drop_last(), cells.drop_last(), policy, c, j);
        let k = choose|k: int|
            0 <= k < records.drop_last().len() && k < cells.drop_last().len() && (
            #[trigger] records.drop_last()[k]).event.event_type == NaturalEventType::Fire && admits(
                policy,
                records.drop_last()[k].observation.class,
            ) && cells.drop_last()[k] == Some(c);
        assert(records[k] == records.drop_last()[k]);
    } else {
        let k = records.len() - 1;
        assert(records[k] == records.last());
    }
}

/// A fire reported by evidence-native Confluence always stands on an
/// admitted fire record placed in that cell: synthetic fires never enter.
pub proof fn reported_fires_are_admitted_records(
    data: LoadedCells,
    records: Seq<EvidenceBearingNaturalEvent>,
    cells: Seq<Option<u64>>,
    policy: EventAdmissionPolicy,
    min_layers: nat,
    out: Seq<ConfluenceCell>,
    i: int,
)
    requires
        is_confluence(evidence_placements(data, records, cells, policy), min_layers, out),
        0 <= i < out.len(),
        out[i].layers@.contains(Layer::Fires),
    ensures
        exists|k: int|
            0 <= k < records.len() && k < cells.len() && (#[trigger] records[k]).event.event_type
                == NaturalEventType::Fire && admits(policy, records[k].observation.class) && cells[k]
                == Some(out[i].cell),
{
    let pts = evidence_placements(data, records, cells, policy);
    let a = point_layer_placements(data);
    let b = admitted_placements(records, cells, policy);
    assert(describes_cell(pts, out[i]));
    let k = choose|k: int| 0 <= k < out[i].layers@.len() && out[i].layers@[k] == Layer::Fires;
    lemma_reported_layer_placed(pts, out[i], k);
    let j = choose|j: int| 0 <= j < pts.len() && #[trigger] pts[j] == (out[i].cell, Layer::Fires);
    lemma_point_layers_have_no_fires(data);
    if j < a.len() {
        assert(pts[j] == a[j]);
    } else {
        assert(pts[j] == b[j - a.len()]);
        lemma_admitted_fire_has_record(records, cells, policy, out[i].cell, j - a.len());
    }
}


/// Evidence-native Confluence ignores the legacy natural-event list of the
/// loaded data, so one physical event cannot count twice: data with the same
/// point layers give the same placements, whatever their legacy events.
pub proof fn legacy_events_are_ignored(
    a: LoadedCells,
    b: LoadedCells,
    records: Seq<EvidenceBearingNaturalEvent>,
    cells: Seq<Option<u64>>,
    policy: EventAdmissionPolicy,
)
    requires
        same_point_layers(a, b),
    ensures
        evidence_placements(a, records, cells, policy) == evidence_placements(b, records, cells, policy),
{
}


proof fn lemma_remove_unadmitted(
    records: Seq<EvidenceBearingNaturalEvent>,
    cells: Seq<Option<u64>>,
    policy: EventAdmissionPolicy,
    k: int,
)
    requires
        records.len() == cells.len(),
        0 <= k < records.len(),
        !admits(policy, records[k].observation.class),
    ensures
        admitted_placements(records.remove(k), cells.remove(k), policy) == admitted_placements(
            records,
            cells,
            policy,
        ),
    decreases records.len(),
{
    let n = records.len();
    if k == n - 1 {
        assert(records.remove(k) =~= records.drop_last());
        assert(cells.remove(k) =~= cells.drop_last());
    } else {
        lemma_remove_unadmitted(records.drop_last(), cells.drop_last(), policy, k);
        assert(records.remove(k).drop_last() =~= records.drop_last().remove(k));
        assert(cells.remove(k).drop_last() =~= cells.drop_last().remove(k));
        assert(records.remove(k).last() == records.last());
        assert(cells.remove(k).last() == cells.last());
    }
}

/// Removing a record that the policy does not admit, from anywhere in the
/// list, and changing the legacy natural-event list, leave the reported cells
/// of evidence-native Confluence unchanged, each as often.
pub proof fn excluded_records_never_change_cells(
    data: LoadedCells,
    other_data: LoadedCells,
    records: Seq<EvidenceBearingNaturalEvent>,
    cells: Seq<Option<u64>>,
    policy: EventAdmissionPolicy,
    k: int,
    min_layers: nat,
    out1: Seq<ConfluenceCell>,
    out2: Seq<ConfluenceCell>,
)
    requires
        same_point_layers(data, other_data),
        records.len() == cells.len(),
        0 <= k < records.len(),
        !admits(policy, records[k].observation.class),
        is_confluence(evidence_placements(data, records, cells, policy), min_layers, out1),
        is_confluence(
            evidence_placements(other_data, records.remove(k), cells.remove(k), policy),
            min_layers,
            out2,
        ),
    ensures
        cell_models(out1).to_multiset() == cell_models(out2).to_multiset(),
{
    lemma_remove_unadmitted(records, cells, policy, k);
    assert(evidence_placements(other_data, records.remove(k), cells.remove(k), policy)
        == evidence_placements(data, records, cells, policy));
    confluence_is_unique(evidence_placements(data, records, cells, policy), min_layers, out1, out2);
}

/// Data with the same point layers give the same reported cells of
/// evidence-native Confluence, each as often, whatever their legacy events.
pub proof fn legacy_events_never_change_cells(
    data: LoadedCells,
    other_data: LoadedCells,
    records: Seq<EvidenceBearingNaturalEvent>,
    cells: Seq<Option<u64>>,
    policy: EventAdmissionPolicy,
    min_layers: nat,
    out1: Seq<ConfluenceCell>,
    out2: Seq<ConfluenceCell>,
)
    requires
        same_point_layers(data, other_data),
        is_confluence(evidence_placements(data, records, cells, policy), min_layers, out1),
        is_confluence(evidence_placements(other_data, records, cells, policy), min_layers, out2),
    ensures
        cell_models(out1).to_multiset() == cell_models(out2).to_multiset(),
{
    confluence_is_unique(evidence_placements(data, records, cells, policy), min_layers, out1, out2);
}


/// The elements of `s` whose mask entry is `true`, in order.
pub open spec fn kept<A>(s: Seq<A>, mask: Seq<bool>) -> Seq<A>
    decreases s.len(),
{
    if s.len() == 0 || mask.len() != s.len() {
        Seq::empty()
    } else {
        let rest = kept(s.drop_last(), mask.drop_last());
        if mask.last() {
            rest.push(s.last())
        } else {
            rest
        }
    }
}

proof fn lemma_kept_len<A, B>(a: Seq<A>, b: Seq<B>, mask: Seq<bool>)
    requires
        a.len() == mask.len(),
        b.len() == mask.len(),
    ensures
        kept(a, mask).len() == kept(b, mask).len(),
    decreases mask.len(),
{
    if mask.len() > 0 {
        lemma_kept_len(a.drop_last(), b.drop_last(), mask.drop_last());
    }
}

proof fn lemma_remove_unadmitted_set(
    records: Seq<EvidenceBearingNaturalEvent>,
    cells: Seq<Option<u64>>,
    mask: Seq<bool>,
    policy: EventAdmissionPolicy,
)
    requires
        records.len() == cells.len(),
        mask.len() == records.len(),
        forall|i: int| 0 <= i < records.len() && !mask[i] ==> !admits(policy, #[trigger] records[i].observation.class),
    ensures
        admitted_placements(kept(records, mask), kept(cells, mask), policy) == admitted_placements(
            records,
            cells,
            policy,
        ),
    decreases records.len(),
{
    if records.len() > 0 {
        let rd = records.drop_last();
        let cd = cells.drop_last();
        let md = mask.drop_last();
        assert forall|i: int| 0 <= i < rd.len() && !md[i] implies !admits(policy, #[trigger] rd[i].observation.class) by {
            assert(rd[i] == records[i] && md[i] == mask[i]);
        }
        lemma_remove_unadmitted_set(rd, cd, md, policy);
        lemma_kept_len(rd, cd, md);
        let kr = kept(records, mask);
        let kc = kept(cells, mask);
        if mask.last() {
            assert(kr.drop_last() =~= kept(rd, md));
            assert(kc.drop_last() =~= kept(cd, md));
            assert(kr.last() == records.last());
            assert(kc.last() == cells.last());
        } else {
            assert(!admits(policy, records[records.len() - 1].observation.class));
        }
    }
}

/// Removing any records that the policy does not admit, all at once and from
/// anywhere in the list (those whose `mask` entry is `false`), and changing
/// the legacy natural-event list, leave the reported cells of evidence-native
/// Confluence unchanged, each as often.
pub proof fn removing_excluded_records_never_changes_cells(
    data: LoadedCells,
    other_data: LoadedCells,
    records: Seq<EvidenceBearingNaturalEvent>,
    cells: Seq<Option<u64>>,
    mask: Seq<bool>,
    policy: EventAdmissionPolicy,
    min_layers: nat,
    out1: Seq<ConfluenceCell>,
    out2: Seq<ConfluenceCell>,
)
    requires
        same_point_layers(data, other_data),
        records.len() == cells.len(),
        mask.len() == records.len(),
        forall|i: int| 0 <= i < records.len() && !mask[i] ==> !admits(policy, #[trigger] records[i].observation.class),
        is_confluence(evidence_placements(data, records, cells, policy), min_layers, out1),
        is_confluence(
            evidence_placements(other_data, kept(records, mask), kept(cells, mask), policy),
            min_layers,
            out2,
        ),
    ensures
        cell_models(out1).to_multiset() == cell_models(out2).to_multiset(),
{
    lemma_remove_unadmitted_set(records, cells, mask, policy);
    assert(evidence_placements(other_data, kept(records, mask), kept(cells, mask), policy)
        == evidence_placements(data, records, cells, policy));
    confluence_is_unique(evidence_placements(data, records, cells, policy), min_layers, out1, out2);
}


// ---------------------------------------------------------------------------
// Admitted records report the layer named for their own type
// ---------------------------------------------------------------------------

/// Some record of event type `t` that the policy admits lies in cell `c`.
pub open spec fn has_admitted_record(
    records: Seq<EvidenceBearingNaturalEvent>,
    cells: Seq<Option<u64>>,
    policy: EventAdmissionPolicy,
    t: NaturalEventType,
    c: u64,
) -> bool {
    exists|k: int|
        0 <= k < records.len() && k < cells.len() && (#[trigger] records[k]).event.event_type == t
            && admits(policy, records[k].observation.class) && cells[k] == Some(c)
}

proof fn lemma_admitted_source(
    records: Seq<EvidenceBearingNaturalEvent>,
    cells: Seq<Option<u64>>,
    policy: EventAdmissionPolicy,
    j: int,
)
    requires
        0 <= j < admitted_placements(records, cells, policy).len(),
    ensures
        exists|k: int|
            0 <= k < records.len() && k < cells.len() && admits(policy, (#[trigger] records[k]).observation.class)
                && cells[k] == Some(admitted_placements(records, cells, policy)[j].0)
                && evidence_event_layer(records[k].event.event_type) == admitted_placements(records, cells, policy)[j].1,
    decreases records.len(),
{
    let rest = admitted_placements(records.drop_last(), cells.drop_last(), policy);
    if j < rest.len() {
        lemma_admitted_source(records.drop_last(), cells.drop_last(), policy, j);
        let k = choose|k: int|
            0 <= k < records.drop_last().len() && k < cells.drop_last().len() && admits(
                policy,
                (#[trigger] records.drop_last()[k]).observation.class,
            ) && cells.drop_last()[k] == Some(rest[j].0) && evidence_event_layer(
                records.drop_last()[k].event.event_type,
            ) == rest[j].1;
        assert(records[k] == records.drop_last()[k]);
        assert(cells[k] == cells.drop_last()[k]);
    } else {
        let k = records.len() - 1;
        assert(records[k] == records.last());
        assert(cells[k] == cells.last());
    }
}

proof fn lemma_admitted_placed(
    records: Seq<EvidenceBearingNaturalEvent>,
    cells: Seq<Option<u64>>,
    policy: EventAdmissionPolicy,
    k: int,
    c: u64,
)
    requires
        records.len() == cells.len(),
        0 <= k < records.len(),
        admits(policy, records[k].observation.class),
        cells[k] == Some(c),
    ensures
        exists|j: int|
            0 <= j < admitted_placements(records, cells, policy).len() && admitted_placements(
                records,
                cells,
                policy,
            )[j] == (c, evidence_event_layer(records[k].event.event_type)),
    decreases records.len(),
{
    let rest = admitted_placements(records.drop_last(), cells.drop_last(), policy);
    let p = (c, evidence_event_layer(records[k].event.event_type));
    if k < records.len() - 1 {
        assert(records.drop_last()[k] == records[k]);
        assert(cells.drop_last()[k] == cells[k]);
        lemma_admitted_placed(records.drop_last(), cells.drop_last(), policy, k, c);
        let j = choose|j: int| 0 <= j < rest.len() && rest[j] == p;
        assert(admitted_placements(records, cells, policy)[j] == rest[j]);
    } else {
        assert(records.last() == records[k]);
        assert(admitted_placements(records, cells, policy) == rest.push(p));
        assert(admitted_placements(records, cells, policy)[rest.len() as int] == p);
    }
}

proof fn lemma_reported_record_layer(
    data: LoadedCells,
    records: Seq<EvidenceBearingNaturalEvent>,
    cells: Seq<Option<u64>>,
    policy: EventAdmissionPolicy,
    min_layers: nat,
    out: Seq<ConfluenceCell>,
    i: int,
    k: int,
)
    requires
        is_confluence(evidence_placements(data, records, cells, policy), min_layers, out),
        0 <= i < out.len(),
        0 <= k < out[i].layers@.len(),
        !point_layer(out[i].layers@[k]),
    ensures
        exists|r: int|
            0 <= r < records.len() && r < cells.len() && admits(policy, (#[trigger] records[r]).observation.class)
                && cells[r] == Some(out[i].cell) && evidence_event_layer(records[r].event.event_type)
                == out[i].layers@[k],
{
    let pts = evidence_placements(data, records, cells, policy);
    let a = point_layer_placements(data);
    let b = admitted_placements(records, cells, policy);
    assert(describes_cell(pts, out[i]));
    lemma_reported_layer_placed(pts, out[i], k);
    let j = choose|j: int| 0 <= j < pts.len() && #[trigger] pts[j] == (out[i].cell, out[i].layers@[k]);
    lemma_point_placements_are_point_layers(data);
    if j < a.len() {
        assert(pts[j] == a[j]);
    } else {
        assert(pts[j] == b[j - a.len()]);
        lemma_admitted_source(records, cells, policy, j - a.len());
    }
}

proof fn lemma_record_reported(
    data: LoadedCells,
    records: Seq<EvidenceBearingNaturalEvent>,
    cells: Seq<Option<u64>>,
    policy: EventAdmissionPolicy,
    min_layers: nat,
    out: Seq<ConfluenceCell>,
    i: int,
    r: int,
)
    requires
        records.len() == cells.len(),
        is_confluence(evidence_placements(data, records, cells, policy), min_layers, out),
        0 <= i < out.len(),
        0 <= r < records.len(),
        admits(policy, records[r].observation.class),
        cells[r] == Some(out[i].cell),
    ensures
        out[i].layers@.contains(evidence_event_layer(records[r].event.event_type)),
{
    let pts = evidence_placements(data, records, cells, policy);
    let a = point_layer_placements(data);
    let b = admitted_placements(records, cells, policy);
    let l = evidence_event_layer(records[r].event.event_type);
    lemma_admitted_placed(records, cells, policy, r, out[i].cell);
    let j = choose|j: int| 0 <= j < b.len() && b[j] == (out[i].cell, l);
    assert(pts[a.len() + j] == (out[i].cell, l));
    assert(describes_cell(pts, out[i]));
    assert(layer_set(pts, out[i].cell).contains(l));
    assert(out[i].layers@.to_set().contains(l));
}

/// In evidence-native Confluence a reported Earthquakes, Fires, Storms or
/// Volcanoes layer always stands on an admitted record of that very event
/// type in the cell, and every admitted earthquake, fire, storm or volcano
/// record in a reported cell puts its own layer there: no record is reported
/// under another type's layer.
pub proof fn evidence_layers_follow_record_types(
    data: LoadedCells,
    records: Seq<EvidenceBearingNaturalEvent>,
    cells: Seq<Option<u64>>,
    policy: EventAdmissionPolicy,
    min_layers: nat,
    out: Seq<ConfluenceCell>,
)
    requires
        records.len() == cells.len(),
        is_confluence(evidence_placements(data, records, cells, policy), min_layers, out),
    ensures
        forall|i: int, k: int|
            0 <= i < out.len() && 0 <= k < out[i].layers@.len() ==> {
                let l = #[trigger] out[i].layers@[k];
                &&& l == Layer::Earthquakes ==> has_admitted_record(records, cells, policy, NaturalEventType::Earthquake, out[i].cell)
                &&& l == Layer::Fires ==> has_admitted_record(records, cells, policy, NaturalEventType::Fire, out[i].cell)
                &&& l == Layer::Storms ==> has_admitted_record(records, cells, policy, NaturalEventType::Storm, out[i].cell)
                &&& l == Layer::Volcanoes ==> has_admitted_record(records, cells, policy, NaturalEventType::Volcano, out[i].cell)
            },
        forall|i: int|
            0 <= i < out.len() ==> {
                &&& has_admitted_record(records, cells, policy, NaturalEventType::Earthquake, #[trigger] out[i].cell)
                    ==> out[i].layers@.contains(Layer::Earthquakes)
                &&& has_admitted_record(records, cells, policy, NaturalEventType::Fire, out[i].cell)
                    ==> out[i].layers@.contains(Layer::Fires)
                &&& has_admitted_record(records, cells, policy, NaturalEventType::Storm, out[i].cell)
                    ==> out[i].layers@.contains(Layer::Storms)
                &&& has_admitted_record(records, cells, policy, NaturalEventType::Volcano, out[i].cell)
                    ==> out[i].layers@.contains(Layer::Volcanoes)
            },
{
    assert forall|i: int, k: int| 0 <= i < out.len() && 0 <= k < out[i].layers@.len() implies {
        let l = #[trigger] out[i].layers@[k];
        &&& l == Layer::Earthquakes ==> has_admitted_record(records, cells, policy, NaturalEventType::Earthquake, out[i].cell)
        &&& l == Layer::Fires ==> has_admitted_record(records, cells, policy, NaturalEventType::Fire, out[i].cell)
        &&& l == Layer::Storms ==> has_admitted_record(records, cells, policy, NaturalEventType::Storm, out[i].cell)
        &&& l == Layer::Volcanoes ==> has_admitted_record(records, cells, policy, NaturalEventType::Volcano, out[i].cell)
    } by {
        let l = out[i].layers@[k];
        if l == Layer::Earthquakes || l == Layer::Fires || l == Layer::Storms || l == Layer::Volcanoes {
            lemma_reported_record_layer(data, records, cells, policy, min_layers, out, i, k);
            let r = choose|r: int|
                0 <= r < records.len() && r < cells.len() && admits(policy, (#[trigger] records[r]).observation.class)
                    && cells[r] == Some(out[i].cell) && evidence_event_layer(records[r].event.event_type) == l;
            assert(records[r].event.event_type == records[r].event.event_type);
        }
    }
    assert forall|i: int| 0 <= i < out.len() implies {
        &&& has_admitted_record(records, cells, policy, NaturalEventType::Earthquake, #[trigger] out[i].cell)
            ==> out[i].layers@.contains(Layer::Earthquakes)
        &&& has_admitted_record(records, cells, policy, NaturalEventType::Fire, out[i].cell)
            ==> out[i].layers@.contains(Layer::Fires)
        &&& has_admitted_record(records, cells, policy, NaturalEventType::Storm, out[i].cell)
            ==> out[i].layers@.contains(Layer::Storms)
        &&& has_admitted_record(records, cells, policy, NaturalEventType::Volcano, out[i].cell)
            ==> out[i].layers@.contains(Layer::Volcanoes)
    } by {
        let c = out[i].cell;
        if has_admitted_record(records, cells, policy, NaturalEventType::Earthquake, c) {
            let r = choose|r: int| 0 <= r < records.len() && r < cells.len() && (#[trigger] records[r]).event.event_type == NaturalEventType::Earthquake && admits(policy, records[r].observation.class) && cells[r] == Some(c);
            lemma_record_reported(data, records, cells, policy, min_layers, out, i, r);
        }
        if has_admitted_record(records, cells, policy, NaturalEventType::Fire, c) {
            let r = choose|r: int| 0 <= r < records.len() && r < cells.len() && (#[trigger] records[r]).event.event_type == NaturalEventType::Fire && admits(policy, records[r].observation.class) && cells[r] == Some(c);
            lemma_record_reported(data, records, cells, policy, min_layers, out, i, r);
        }
        if has_admitted_record(records, cells, policy, NaturalEventType::Storm, c) {
            let r = choose|r: int| 0 <= r < records.len() && r < cells.len() && (#[trigger] records[r]).event.event_type == NaturalEventType::Storm && admits(policy, records[r].observation.class) && cells[r] == Some(c);
            lemma_record_reported(data, records, cells, policy, min_layers, out, i, r);
        }
        if has_admitted_record(records, cells, policy, NaturalEventType::Volcano, c) {
            let r = choose|r: int| 0 <= r < records.len() && r < cells.len() && (#[trigger] records[r]).event.event_type == NaturalEventType::Volcano && admits(policy, records[r].observation.class) && cells[r] == Some(c);
            lemma_record_reported(data, records, cells, policy, min_layers, out, i, r);
        }
    }
}

} // verus!
