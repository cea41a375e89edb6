//! Composable view context: scope, activity, lenses, time and trust are
//! orthogonal dimensions rather than one growing list of modes.
use vstd::prelude::*;
use crate::claims::{Confidence, EvidenceClass};
use crate::ieee::f32_le;

verus! {

/// Whose/which world is viewed.
#[derive(Debug, Clone, PartialEq, Eq)]
pub enum AtlasScope {
    Personal,
    Household(String),
    Community(String),
    Organization(String),
    Municipality(String),
    Region(String),
    Nation(String),
    Humanity,
    Earth,
    CelestialBody(String),
    SolarSystem,
}

/// Top-level intent.
#[derive(Debug, Clone, Copy, PartialEq, Eq, Hash, Structural)]
pub enum AtlasActivity {
    Observe,
    Simulate,
    Coordinate,
}

/// Open lens vocabulary.
#[derive(Debug, Clone, PartialEq, Eq, PartialOrd, Ord, Hash)]
pub struct AtlasLens(pub String);

impl AtlasLens {
    pub fn new(value: &str) -> (r: Self)
        ensures
            r.0@ == value@,
    {
        AtlasLens(String::from_str(value))
    }
}

impl vstd::std_specs::convert::FromSpecImpl<&str> for AtlasLens {
    open spec fn obeys_from_spec() -> bool {
        false
    }

    open spec fn from_spec(v: &str) -> AtlasLens {
        arbitrary()
    }
}

impl From<&str> for AtlasLens {
    fn from(value: &str) -> (r: Self)
        ensures
            r.0@ == value@,
    {
        Self::new(value)
    }
}

impl vstd::std_specs::convert::FromSpecImpl<String> for AtlasLens {
    open spec fn obeys_from_spec() -> bool {
        true
    }

    open spec fn from_spec(v: String) -> AtlasLens {
        AtlasLens(v)
    }
}

impl From<String> for AtlasLens {
    fn from(value: String) -> (r: Self)
        ensures
            r == AtlasLens(value),
    {
        AtlasLens(value)
    }
}

/// Temporal projection of the world model.
#[derive(Debug, Clone, PartialEq, Eq)]
pub enum AtlasTime {
    Now,
    At { unix_ms: i64 },
    Interval { start_unix_ms: i64, end_unix_ms: i64 },
    Forecast { as_of_unix_ms: i64, horizon_s: u64 },
    Scenario { scenario_id: String },
}

/// Which evidence classes may participate in a view.
#[derive(Debug, Clone, PartialEq)]
pub struct TrustFilter {
    pub allowed_classes: Vec<EvidenceClass>,
    pub minimum_confidence: Option<Confidence>,
}

/// Classes of the grounded default.
pub open spec fn grounded_classes() -> Seq<EvidenceClass> {
    seq![
        EvidenceClass::Observed,
        EvidenceClass::Verified,
        EvidenceClass::Curated,
        EvidenceClass::Estimated,
        EvidenceClass::Contested,
    ]
}

/// The filter admits a claim of this class and confidence.
pub open spec fn filter_allows(f: TrustFilter, class: EvidenceClass, confidence: Confidence) -> bool {
    f.allowed_classes@.contains(class) && match f.minimum_confidence {
        Some(m) => f32_le(m.bits(), confidence.bits()),
        None => true,
    }
}

impl TrustFilter {
    /// Evidence-grounded default: predictions and scenarios need an explicit
    /// opt-in.
    pub fn grounded() -> (r: Self)
        ensures
            r.allowed_classes@ == grounded_classes(),
            r.minimum_confidence is None,
    {
        let mut allowed_classes: Vec<EvidenceClass> = Vec::new();
        allowed_classes.push(EvidenceClass::Observed);
        allowed_classes.push(EvidenceClass::Verified);
        allowed_classes.push(EvidenceClass::Curated);
        allowed_classes.push(EvidenceClass::Estimated);
        allowed_classes.push(EvidenceClass::Contested);
        assert(allowed_classes@ =~= grounded_classes());
        TrustFilter { allowed_classes, minimum_confidence: None }
    }

    /// Whether a claim of this class and confidence may participate.
    pub fn allows(&self, class: EvidenceClass, confidence: Confidence) -> (r: bool)
        ensures
            r == filter_allows(*self, class, confidence),
    {
        let mut found = false;
        let mut i: usize = 0;
        while i < self.allowed_classes.len()
            invariant
                i <= self.allowed_classes.len(),
                found == exists|k: int| 0 <= k < i && self.allowed_classes@[k] == class,
            decreases self.allowed_classes.len() - i,
        {
            if self.allowed_classes[i] == class {
                found = true;
            }
            i = i + 1;
        }
        if !found {
            return false;
        }
        match self.minimum_confidence {
            Some(minimum) => crate::ieee::f32_bits_le(minimum.value(), confidence.value()),
            None => true,
        }
    }
}

/// The grounded filter admits every class but predictions and scenarios,
/// whatever the confidence.
pub proof fn grounded_requires_scenario_opt_in(f: TrustFilter, class: EvidenceClass, confidence: Confidence)
    requires
        f.allowed_classes@ == grounded_classes(),
        f.minimum_confidence is None,
    ensures
        filter_allows(f, class, confidence) <==> (class != EvidenceClass::Predicted && class
            != EvidenceClass::Scenario),
{
    let g = grounded_classes();
    if class != EvidenceClass::Predicted && class != EvidenceClass::Scenario {
        if class == EvidenceClass::Observed { assert(g[0] == class); }
        else if class == EvidenceClass::Verified { assert(g[1] == class); }
        else if class == EvidenceClass::Curated { assert(g[2] == class); }
        else if class == EvidenceClass::Estimated { assert(g[3] == class); }
        else { assert(g[4] == class); }
    }
}

/// Raising the minimum confidence never admits more claims.
pub proof fn minimum_confidence_is_monotone(
    f: TrustFilter,
    stricter: TrustFilter,
    class: EvidenceClass,
    confidence: Confidence,
)
    requires
        stricter.allowed_classes == f.allowed_classes,
        f.minimum_confidence matches Some(m) && stricter.minimum_confidence matches Some(s) && f32_le(
            m.bits(),
            s.bits(),
        ),
    ensures
        filter_allows(stricter, class, confidence) ==> filter_allows(f, class, confidence),
{
}

/// Complete composable context of a Sol Atlas projection.
#[derive(Debug, Clone, PartialEq)]
pub struct AtlasViewContext {
    pub scope: AtlasScope,
    pub activity: AtlasActivity,
    pub lenses: Vec<AtlasLens>,
    pub time: AtlasTime,
    pub trust: TrustFilter,
}

/// The lens list after adding `lens`: unchanged when present, else appended.
pub open spec fn with_lens(lenses: Seq<Seq<char>>, lens: Seq<char>) -> Seq<Seq<char>> {
    if lenses.contains(lens) {
        lenses
    } else {
        lenses.push(lens)
    }
}

pub open spec fn lens_views(lenses: Seq<AtlasLens>) -> Seq<Seq<char>> {
    lenses.map_values(|l: AtlasLens| l.0@)
}

impl AtlasViewContext {
    /// Planetary observation: Earth scope, now, grounded trust, no lens.
    pub fn earth_observe() -> (r: Self)
        ensures
            r.scope == AtlasScope::Earth,
            r.activity == AtlasActivity::Observe,
            r.lenses@.len() == 0,
            r.time == AtlasTime::Now,
            r.trust.allowed_classes@ == grounded_classes(),
            r.trust.minimum_confidence is None,
    {
        AtlasViewContext {
            scope: AtlasScope::Earth,
            activity: AtlasActivity::Observe,
            lenses: Vec::new(),
            time: AtlasTime::Now,
            trust: TrustFilter::grounded(),
        }
    }

    /// Personal Atlas changes the scope only; every activity stays available.
    pub fn personal(activity: AtlasActivity) -> (r: Self)
        ensures
            r.scope == AtlasScope::Personal,
            r.activity == activity,
            r.lenses@.len() == 0,
            r.time == AtlasTime::Now,
            r.trust.allowed_classes@ == grounded_classes(),
            r.trust.minimum_confidence is None,
    {
        AtlasViewContext {
            scope: AtlasScope::Personal,
            activity,
            lenses: Vec::new(),
            time: AtlasTime::Now,
            trust: TrustFilter::grounded(),
        }
    }

    /// Adds a lens unless an equal lens is already active.
    pub fn add_lens(&mut self, lens: &str)
        ensures
            lens_views(final(self).lenses@) == with_lens(lens_views(old(self).lenses@), lens@),
            final(self).scope == old(self).scope,
            final(self).activity == old(self).activity,
            final(self).time == old(self).time,
            final(self).trust == old(self).trust,
    {
        let ghost views = lens_views(self.lenses@);
        let owned = AtlasLens::new(lens);
        let mut i: usize = 0;
        while i < self.lenses.len()
            invariant
                i <= self.lenses.len(),
                views == lens_views(self.lenses@),
                owned.0@ == lens@,
                forall|k: int| 0 <= k < i ==> views[k] != lens@,
            decreases self.lenses.len() - i,
        {
            if self.lenses[i].0 == owned.0 {
                assert(views[i as int] == lens@);
                assert(views.contains(lens@));
                return;
            }
            i = i + 1;
        }
        self.lenses.push(owned);
        proof {
            assert(lens_views(self.lenses@) =~= views.push(lens@));
        }
    }
}

/// Adding a lens leaves it active, keeps a duplicate-free list duplicate-free,
/// and adding it again changes nothing.
pub proof fn add_lens_deduplicates(lenses: Seq<Seq<char>>, lens: Seq<char>)
    ensures
        with_lens(lenses, lens).contains(lens),
        lenses.no_duplicates() ==> with_lens(lenses, lens).no_duplicates(),
        with_lens(with_lens(lenses, lens), lens) == with_lens(lenses, lens),
{
    crate::entity::add_kind_deduplicates(lenses, lens);
}

} // verus!
