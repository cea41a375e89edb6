//! Evidence-bearing natural events.
//!
//! Source records of the four natural-event datasets are mapped into
//! planetary evidence (class, measurement, time, backing record) while the
//! lightweight renderer record is kept alongside. Records that cannot be read
//! or validated are left out rather than repaired.
use vstd::prelude::*;
use crate::entity::{valid_latitude, valid_longitude, GeoPoint, ReferenceFrame, SpatialExtent};
use crate::geojson::{decode_collection, read_collection, Feature, FeatureModel, Properties, PropertiesModel};
use crate::ieee::{f64_bits_in_closed, f64_bits_is_finite, f64_is_finite, F64_180, F64_90, F64_MINUS_180, F64_MINUS_90};
use crate::json::{json_document, parse_json};
use crate::planetary::{
    evidence_views, measurement_accepted, measurement_view, EnvironmentalObservation,
    EnvironmentalObservationModel, EvidenceClass, ExternalEvidenceRef, ExternalEvidenceRefModel,
    Measurement, MeasurementModel, TemporalExtent, Uncertainty,
};
use crate::text::{
    append_chars, ascii_lower, chars_of, decimal, decimal_chars, join_strings, joined, lower_chars,
    lower_text, occurs_at, string_of, text_contains, text_has,
};
use crate::time_text::{naive_utc_seconds, parse_naive_utc_seconds, parse_rfc3339_seconds, rfc3339_seconds};
use crate::types::{
    declared_kind, declared_snapshot, declared_source, DataKind, DataProvenance, DisplayMagnitude,
    Layer, NaturalEvent, NaturalEventModel, NaturalEventType,
};

verus! {

/// A renderer record paired with its source evidence.
#[derive(Debug, Clone)]
pub struct EvidenceBearingNaturalEvent {
    pub event: NaturalEvent,
    pub observation: EnvironmentalObservation,
}

pub struct EvidenceBearingNaturalEventModel {
    pub event: NaturalEventModel,
    pub observation: EnvironmentalObservationModel,
}

impl View for EvidenceBearingNaturalEvent {
    type V = EvidenceBearingNaturalEventModel;

    open spec fn view(&self) -> EvidenceBearingNaturalEventModel {
        EvidenceBearingNaturalEventModel { event: self.event@, observation: self.observation@ }
    }
}

pub open spec fn record_views(v: Seq<EvidenceBearingNaturalEvent>) -> Seq<EvidenceBearingNaturalEventModel> {
    v.map_values(|r: EvidenceBearingNaturalEvent| r@)
}

// ---------------------------------------------------------------------------
// The mapping rules
// ---------------------------------------------------------------------------

/// Source time text: `time`, else `detection_time`, else `date`.
pub open spec fn source_time_of(p: PropertiesModel) -> Option<Seq<char>> {
    match p.time {
        Some(t) => Some(t),
        None => match p.detection_time {
            Some(t) => Some(t),
            None => p.date,
        },
    }
}

/// Pattern of source times without an offset.
pub open spec fn naive_time_pattern() -> Seq<char> {
    "%Y-%m-%dT%H:%M:%S%.f"@
}

/// Unix seconds of a source time: RFC 3339 first, else an ISO date-time
/// without offset read as UTC.
pub open spec fn source_seconds(text: Seq<char>) -> Option<i64> {
    match rfc3339_seconds(text) {
        Some(s) => Some(s),
        None => naive_utc_seconds(text, naive_time_pattern()),
    }
}

/// Time extent of a record: the instant of its source time, when readable.
pub open spec fn temporal_of(p: PropertiesModel) -> TemporalExtent {
    match source_time_of(p) {
        Some(t) => match source_seconds(t) {
            Some(s) => TemporalExtent::Instant(s),
            None => TemporalExtent::Unspecified,
        },
        None => TemporalExtent::Unspecified,
    }
}

/// Compact record id: `dataset:event_id`, else `dataset:id`, else
/// `dataset:source_time:index`, else `dataset:index`.
pub open spec fn compact_id(dataset: Seq<char>, index: nat, f: FeatureModel) -> Seq<char> {
    let head = dataset + seq![':'];
    match f.properties.event_id {
        Some(e) => head + e,
        None => match f.id {
            Some(i) => head + i,
            None => match source_time_of(f.properties) {
                Some(t) => head + t + seq![':'] + decimal(index),
                None => head + decimal(index),
            },
        },
    }
}

/// Event type named by one category, if any.
pub open spec fn category_event_type(category: Seq<char>) -> Option<NaturalEventType> {
    let c = ascii_lower(category);
    if text_contains(c, "wildfire"@) || text_contains(c, "fire"@) {
        Some(NaturalEventType::Fire)
    } else if text_contains(c, "volcano"@) {
        Some(NaturalEventType::Volcano)
    } else if text_contains(c, "earthquake"@) || text_contains(c, "seismic"@) {
        Some(NaturalEventType::Earthquake)
    } else if text_contains(c, "storm"@) || text_contains(c, "cyclone"@) {
        Some(NaturalEventType::Storm)
    } else {
        None
    }
}

/// Event type of the first category that names one, else the dataset's
/// fallback type.
pub open spec fn classify_type(categories: Seq<Seq<char>>, fallback: NaturalEventType) -> NaturalEventType
    decreases categories.len(),
{
    if categories.len() == 0 {
        fallback
    } else {
        match category_event_type(categories[0]) {
            Some(t) => t,
            None => classify_type(categories.drop_first(), fallback),
        }
    }
}

/// Evidence class of a record: a demo source or synthetic/generated lineage
/// is a scenario; a volcano record or an expert-reviewed lineage is a report;
/// everything else is an observation.
pub open spec fn evidence_class_of(
    source: Option<Seq<char>>,
    lineage: Seq<Seq<char>>,
    t: NaturalEventType,
) -> EvidenceClass {
    let s = ascii_lower(
        match source {
            Some(x) => x,
            None => Seq::empty(),
        },
    );
    let l = ascii_lower(joined(lineage, " "@));
    if text_contains(s, "demo"@) || text_contains(l, "synthetic"@) || text_contains(l, "generated"@) {
        EvidenceClass::Scenario
    } else if t == NaturalEventType::Volcano || text_contains(l, "expert review"@) {
        EvidenceClass::Reported
    } else {
        EvidenceClass::Observed
    }
}

pub open spec fn accepted_measurement(value: u64, unit: Seq<char>) -> Option<MeasurementModel> {
    if measurement_accepted(value, unit) {
        Some(MeasurementModel { value, unit })
    } else {
        None
    }
}

/// Measurement of a record: an earthquake's magnitude in `Mw`; otherwise a
/// brightness in `K`; otherwise a magnitude with its own unit.
pub open spec fn measurement_of(p: PropertiesModel, t: NaturalEventType) -> Option<MeasurementModel> {
    if t == NaturalEventType::Earthquake {
        match p.magnitude {
            Some(v) => accepted_measurement(v, "Mw"@),
            None => None,
        }
    } else {
        match p.brightness {
            Some(b) => accepted_measurement(b, "K"@),
            None => match (p.magnitude, p.magnitude_unit) {
                (Some(v), Some(u)) => accepted_measurement(v, u),
                _ => None,
            },
        }
    }
}

/// Marker scale: the magnitude, else the brightness (shown divided by 100),
/// else the default.
pub open spec fn display_magnitude(p: PropertiesModel) -> DisplayMagnitude {
    match p.magnitude {
        Some(m) => DisplayMagnitude::Value(m),
        None => match p.brightness {
            Some(b) => DisplayMagnitude::Brightness(b),
            None => DisplayMagnitude::Default,
        },
    }
}

/// The displayed marker scale is finite (a finite brightness stays finite
/// when divided by 100).
pub open spec fn display_is_finite(d: DisplayMagnitude) -> bool {
    match d {
        DisplayMagnitude::Value(m) => f64_is_finite(m),
        DisplayMagnitude::Brightness(b) => f64_is_finite(b),
        DisplayMagnitude::Default => true,
    }
}

/// Display name: `title`, else `place`, else `name`, else `Unknown`.
pub open spec fn record_name(p: PropertiesModel) -> Seq<char> {
    match p.title {
        Some(t) => t,
        None => match p.place {
            Some(t) => t,
            None => match p.name {
                Some(t) => t,
                None => "Unknown"@,
            },
        },
    }
}

/// Phenomenon vocabulary of an event type.
pub open spec fn phenomenon(t: NaturalEventType) -> Seq<char> {
    match t {
        NaturalEventType::Earthquake => "earthquake"@,
        NaturalEventType::Fire => "fire"@,
        NaturalEventType::Storm => "severe_storm"@,
        NaturalEventType::Volcano => "volcanic_activity"@,
    }
}

/// A feature becomes a record when it has a point whose latitude and
/// longitude are valid and its marker scale is finite.
pub open spec fn record_admissible(f: FeatureModel) -> bool {
    &&& f.coordinates.len() >= 2
    &&& valid_latitude(f.coordinates[1])
    &&& valid_longitude(f.coordinates[0])
    &&& display_is_finite(display_magnitude(f.properties))
}

/// The record built from feature `index` of `dataset`, if any.
pub open spec fn record_of(
    dataset: Seq<char>,
    index: nat,
    f: FeatureModel,
    fallback: NaturalEventType,
) -> Option<EvidenceBearingNaturalEventModel> {
    if !record_admissible(f) {
        None
    } else {
        let p = f.properties;
        let lon = f.coordinates[0];
        let lat = f.coordinates[1];
        let t = classify_type(p.categories, fallback);
        let compact = compact_id(dataset, index, f);
        Some(
            EvidenceBearingNaturalEventModel {
                event: NaturalEventModel {
                    lat,
                    lon,
                    event_type: t,
                    magnitude: display_magnitude(p),
                    name: record_name(p),
                },
                observation: EnvironmentalObservationModel {
                    id: "atlas:"@ + compact,
                    phenomenon: phenomenon(t),
                    class: evidence_class_of(p.source, p.data_lineage, t),
                    measurement: measurement_of(p, t),
                    spatial: SpatialExtent::Point(
                        GeoPoint {
                            lat,
                            lon,
                            altitude_m: None,
                            reference_frame: ReferenceFrame::EarthWgs84,
                        },
                    ),
                    temporal: temporal_of(p),
                    uncertainty: Uncertainty::Unspecified,
                    evidence: seq![
                        ExternalEvidenceRefModel {
                            source_system: match p.source {
                                Some(s) => s,
                                None => dataset,
                            },
                            resource_id: match p.link {
                                Some(l) => l,
                                None => compact,
                            },
                            content_digest: None,
                            retrieved_at: None,
                            license: None,
                        },
                    ],
                },
            },
        )
    }
}

/// Records of the features, in feature order, skipping rejected features.
pub open spec fn records_of(dataset: Seq<char>, fs: Seq<FeatureModel>, fallback: NaturalEventType) -> Seq<
    EvidenceBearingNaturalEventModel,
>
    decreases fs.len(),
{
    if fs.len() == 0 {
        Seq::empty()
    } else {
        let rest = records_of(dataset, fs.drop_last(), fallback);
        match record_of(dataset, (fs.len() - 1) as nat, fs.last(), fallback) {
            Some(r) => rest.push(r),
            None => rest,
        }
    }
}

/// Records of a dataset text; none when the text is not a readable dataset.
///
/// The text is read as a `serde_json::Value`, so an object that repeats a
/// member is read with the last occurrence; such a dataset still gives
/// records (a struct decoder derived with serde would reject it).
pub open spec fn dataset_records(dataset: Seq<char>, json: Seq<char>, fallback: NaturalEventType) -> Seq<
    EvidenceBearingNaturalEventModel,
> {
    match json_document(json) {
        Some(doc) => match decode_collection(doc) {
            Some(fs) => records_of(dataset, fs, fallback),
            None => Seq::empty(),
        },
        None => Seq::empty(),
    }
}

/// Records of the four natural-event datasets, in dataset order.
pub open spec fn natural_event_records(
    earthquakes: Seq<char>,
    fires: Seq<char>,
    eonet: Seq<char>,
    volcanoes: Seq<char>,
) -> Seq<EvidenceBearingNaturalEventModel> {
    dataset_records("usgs-earthquakes"@, earthquakes, NaturalEventType::Earthquake)
        + dataset_records("nasa-firms-demo"@, fires, NaturalEventType::Fire)
        + dataset_records("nasa-eonet"@, eonet, NaturalEventType::Storm)
        + dataset_records("smithsonian-gvp"@, volcanoes, NaturalEventType::Volcano)
}

// ---------------------------------------------------------------------------
// Executable mapping
// ---------------------------------------------------------------------------

fn text_of(s: &Option<String>) -> (r: Option<&str>)
    ensures
        match r {
            Some(t) => s.deep_view() == Some(t@),
            None => s is None,
        },
{
    match s {
        Some(t) => Some(t.as_str()),
        None => None,
    }
}

/// Source time text of a record.
pub fn source_time(p: &Properties) -> (r: Option<&str>)
    ensures
        match r {
            Some(t) => source_time_of(p@) == Some(t@),
            None => source_time_of(p@) is None,
        },
{
    match text_of(&p.time) {
        Some(t) => Some(t),
        None => match text_of(&p.detection_time) {
            Some(t) => Some(t),
            None => text_of(&p.date),
        },
    }
}

/// Unix seconds of a source time text.
pub fn parse_source_time(value: &str) -> (r: Option<i64>)
    ensures
        r == source_seconds(value@),
{
    match parse_rfc3339_seconds(value) {
        Some(s) => Some(s),
        None => parse_naive_utc_seconds(value, "%Y-%m-%dT%H:%M:%S%.f"),
    }
}

/// Compact id of feature `index` of `dataset`.
pub fn compact_record_id(dataset: &str, index: usize, feature: &Feature, source_time: Option<&str>) -> (r: String)
    requires
        match source_time {
            Some(t) => source_time_of(feature.properties@) == Some(t@),
            None => source_time_of(feature.properties@) is None,
        },
    ensures
        r@ == compact_id(dataset@, index as nat, feature@),
{
    let mut out = chars_of(dataset);
    out.push(':');
    match text_of(&feature.properties.event_id) {
        Some(e) => {
            let e = chars_of(e);
            append_chars(&mut out, &e);
        },
        None => match text_of(&feature.id) {
            Some(i) => {
                let i = chars_of(i);
                append_chars(&mut out, &i);
            },
            None => match source_time {
                Some(t) => {
                    let t = chars_of(t);
                    append_chars(&mut out, &t);
                    out.push(':');
                    let d = decimal_chars(index as u64);
                    append_chars(&mut out, &d);
                },
                None => {
                    let d = decimal_chars(index as u64);
                    append_chars(&mut out, &d);
                },
            },
        },
    }
    string_of(&out)
}

fn category_type(category: &String) -> (r: Option<NaturalEventType>)
    ensures
        r == category_event_type(category@),
{
    let c = lower_text(category.as_str());
    if text_has(&c, "wildfire") || text_has(&c, "fire") {
        Some(NaturalEventType::Fire)
    } else if text_has(&c, "volcano") {
        Some(NaturalEventType::Volcano)
    } else if text_has(&c, "earthquake") || text_has(&c, "seismic") {
        Some(NaturalEventType::Earthquake)
    } else if text_has(&c, "storm") || text_has(&c, "cyclone") {
        Some(NaturalEventType::Storm)
    } else {
        None
    }
}

/// Event type of the first category that names one, else `fallback`.
pub fn classify_event_type(categories: &Vec<String>, fallback: NaturalEventType) -> (r: NaturalEventType)
    ensures
        r == classify_type(categories.deep_view(), fallback),
{
    let ghost cats = categories.deep_view();
    assert(cats.subrange(0, cats.len() as int) =~= cats);
    let mut i: usize = 0;
    while i < categories.len()
        invariant
            i <= categories.len(),
            cats == categories.deep_view(),
            classify_type(cats, fallback) == classify_type(cats.subrange(i as int, cats.len() as int), fallback),
        decreases categories.len() - i,
    {
        let ghost rest = cats.subrange(i as int, cats.len() as int);
        assert(rest[0] == categories@[i as int]@);
        assert(rest.drop_first() =~= cats.subrange(i + 1, cats.len() as int));
        match category_type(&categories[i]) {
            Some(t) => {
                return t;
            },
            None => {},
        }
        i = i + 1;
    }
    fallback
}

/// Evidence class of a record from its source, lineage and event type.
pub fn classify_evidence(source: &Option<String>, lineage: &Vec<String>, event_type: NaturalEventType) -> (r: EvidenceClass)
    ensures
        r == evidence_class_of(source.deep_view(), lineage.deep_view(), event_type),
{
    let s = match source {
        Some(x) => lower_text(x.as_str()),
        None => {
            let e: Vec<char> = Vec::new();
            assert(ascii_lower(Seq::<char>::empty()) =~= e@);
            e
        },
    };
    let joined_lineage = join_strings(lineage, " ");
    let l = lower_chars(&joined_lineage);
    if text_has(&s, "demo") || text_has(&l, "synthetic") || text_has(&l, "generated") {
        EvidenceClass::Scenario
    } else if event_type == NaturalEventType::Volcano || text_has(&l, "expert review") {
        EvidenceClass::Reported
    } else {
        EvidenceClass::Observed
    }
}

fn accept_measurement(value: u64, unit: &str) -> (r: Option<Measurement>)
    ensures
        measurement_view(r) == accepted_measurement(value, unit@),
{
    match Measurement::new(value, unit) {
        Ok(m) => Some(m),
        Err(_) => None,
    }
}

/// Measurement of a record.
pub fn measurement_for(p: &Properties, event_type: NaturalEventType) -> (r: Option<Measurement>)
    ensures
        measurement_view(r) == measurement_of(p@, event_type),
{
    if event_type == NaturalEventType::Earthquake {
        return match p.magnitude {
            Some(v) => accept_measurement(v, "Mw"),
            None => None,
        };
    }
    match p.brightness {
        Some(b) => accept_measurement(b, "K"),
        None => match (p.magnitude, text_of(&p.magnitude_unit)) {
            (Some(v), Some(u)) => accept_measurement(v, u),
            _ => None,
        },
    }
}

/// Phenomenon vocabulary of an event type.
pub fn phenomenon_for(event_type: NaturalEventType) -> (r: &'static str)
    ensures
        r@ == phenomenon(event_type),
        r@.len() > 0,
{
    proof {
        reveal_strlit("earthquake");
        reveal_strlit("fire");
        reveal_strlit("severe_storm");
        reveal_strlit("volcanic_activity");
    }
    match event_type {
        NaturalEventType::Earthquake => "earthquake",
        NaturalEventType::Fire => "fire",
        NaturalEventType::Storm => "severe_storm",
        NaturalEventType::Volcano => "volcanic_activity",
    }
}

fn display_for(p: &Properties) -> (r: DisplayMagnitude)
    ensures
        r == display_magnitude(p@),
{
    match p.magnitude {
        Some(m) => DisplayMagnitude::Value(m),
        None => match p.brightness {
            Some(b) => DisplayMagnitude::Brightness(b),
            None => DisplayMagnitude::Default,
        },
    }
}

fn display_finite(d: DisplayMagnitude) -> (r: bool)
    ensures
        r == display_is_finite(d),
{
    match d {
        DisplayMagnitude::Value(m) => f64_bits_is_finite(m),
        DisplayMagnitude::Brightness(b) => f64_bits_is_finite(b),
        DisplayMagnitude::Default => true,
    }
}

fn name_for(p: &Properties) -> (r: String)
    ensures
        r@ == record_name(p@),
{
    match text_of(&p.title) {
        Some(t) => String::from_str(t),
        None => match text_of(&p.place) {
            Some(t) => String::from_str(t),
            None => match text_of(&p.name) {
                Some(t) => String::from_str(t),
                None => String::from_str("Unknown"),
            },
        },
    }
}

fn owned_or(s: &Option<String>, fallback: &String) -> (r: String)
    ensures
        r@ == match s.deep_view() {
            Some(x) => x,
            None => fallback@,
        },
{
    match s {
        Some(x) => x.clone(),
        None => fallback.clone(),
    }
}

/// The record of feature `index` of `dataset`, or `None` when the feature has
/// no valid point or no finite marker scale.
pub fn build_record(dataset: &str, index: usize, feature: &Feature, fallback: NaturalEventType) -> (r: Option<
    EvidenceBearingNaturalEvent,
>)
    ensures
        match r {
            Some(x) => record_of(dataset@, index as nat, feature@, fallback) == Some(x@),
            None => record_of(dataset@, index as nat, feature@, fallback) is None,
        },
{
    let coordinates = &feature.coordinates;
    if coordinates.len() < 2 {
        return None;
    }
    let longitude = coordinates[0];
    let latitude = coordinates[1];
    let point = match GeoPoint::wgs84(latitude, longitude, None) {
        Ok(point) => point,
        Err(_) => return None,
    };
    let p = &feature.properties;
    let event_type = classify_event_type(&p.categories, fallback);
    let evidence_class = classify_evidence(&p.source, &p.data_lineage, event_type);
    let time_text = source_time(p);
    let compact = compact_record_id(dataset, index, feature, time_text);
    let resource_id = owned_or(&p.link, &compact);
    let dataset_name = String::from_str(dataset);
    let source_system = owned_or(&p.source, &dataset_name);
    let measurement = measurement_for(p, event_type);
    let magnitude = display_for(p);
    if !display_finite(magnitude) {
        return None;
    }
    let name = name_for(p);
    let temporal = match time_text {
        Some(t) => match parse_source_time(t) {
            Some(s) => TemporalExtent::instant(s),
            None => TemporalExtent::Unspecified,
        },
        None => TemporalExtent::Unspecified,
    };
    let mut id_chars = chars_of("atlas:");
    let compact_chars = chars_of(compact.as_str());
    append_chars(&mut id_chars, &compact_chars);
    let id = string_of(&id_chars);
    let mut evidence: Vec<ExternalEvidenceRef> = Vec::new();
    evidence.push(
        ExternalEvidenceRef {
            source_system,
            resource_id,
            content_digest: None,
            retrieved_at: None,
            license: None,
        },
    );
    proof {
        reveal_strlit("atlas:");
        assert(evidence_views(evidence@) =~= seq![evidence@[0]@]);
    }
    let observation = match EnvironmentalObservation::new(
        id,
        phenomenon_for(event_type),
        evidence_class,
        measurement,
        SpatialExtent::Point(point),
        temporal,
        Uncertainty::Unspecified,
        evidence,
    ) {
        Ok(o) => o,
        Err(_) => return None,
    };
    Some(
        EvidenceBearingNaturalEvent {
            event: NaturalEvent { lat: latitude, lon: longitude, event_type, magnitude, name },
            observation,
        },
    )
}

/// Why a feature gives no record.
#[derive(Debug, Clone, Copy, PartialEq, Eq, Structural)]
pub enum RecordRejection {
    /// Fewer than two coordinates.
    NoPointCoordinates,
    LatitudeOutOfRange,
    LongitudeOutOfRange,
    /// The marker scale is infinite or NaN.
    NonFiniteMagnitude,
}

/// The first check a feature fails, in the order records are built.
pub open spec fn rejection_of(f: FeatureModel) -> Option<RecordRejection> {
    if f.coordinates.len() < 2 {
        Some(RecordRejection::NoPointCoordinates)
    } else if !valid_latitude(f.coordinates[1]) {
        Some(RecordRejection::LatitudeOutOfRange)
    } else if !valid_longitude(f.coordinates[0]) {
        Some(RecordRejection::LongitudeOutOfRange)
    } else if !display_is_finite(display_magnitude(f.properties)) {
        Some(RecordRejection::NonFiniteMagnitude)
    } else {
        None
    }
}

/// Why `feature` gives no record, or `None` when it gives one.
pub fn record_rejection(feature: &Feature) -> (r: Option<RecordRejection>)
    ensures
        r == rejection_of(feature@),
        r is None <==> record_admissible(feature@),
{
    let coordinates = &feature.coordinates;
    if coordinates.len() < 2 {
        return Some(RecordRejection::NoPointCoordinates);
    }
    if !f64_bits_in_closed(F64_MINUS_90, coordinates[1], F64_90) {
        return Some(RecordRejection::LatitudeOutOfRange);
    }
    if !f64_bits_in_closed(F64_MINUS_180, coordinates[0], F64_180) {
        return Some(RecordRejection::LongitudeOutOfRange);
    }
    if !display_finite(display_for(&feature.properties)) {
        return Some(RecordRejection::NonFiniteMagnitude);
    }
    None
}

/// The index and reason of every feature that gives no record, in order.
pub open spec fn rejections_of(fs: Seq<FeatureModel>) -> Seq<(nat, RecordRejection)>
    decreases fs.len(),
{
    if fs.len() == 0 {
        Seq::empty()
    } else {
        let rest = rejections_of(fs.drop_last());
        match rejection_of(fs.last()) {
            Some(x) => rest.push(((fs.len() - 1) as nat, x)),
            None => rest,
        }
    }
}

/// The features of a dataset text, or `None` when it is unreadable.
pub open spec fn dataset_features(json: Seq<char>) -> Option<Seq<FeatureModel>> {
    match json_document(json) {
        Some(doc) => decode_collection(doc),
        None => None,
    }
}

pub open spec fn rejection_pairs(v: Seq<(usize, RecordRejection)>) -> Seq<(nat, RecordRejection)> {
    v.map_values(|p: (usize, RecordRejection)| (p.0 as nat, p.1))
}

/// What a dataset text loses: `None` when the whole text is unreadable,
/// otherwise the index and reason of every feature left out.
pub fn dataset_rejections(json: &str) -> (r: Option<Vec<(usize, RecordRejection)>>)
    ensures
        match (r, dataset_features(json@)) {
            (None, None) => true,
            (Some(v), Some(fs)) => rejection_pairs(v@) == rejections_of(fs),
            _ => false,
        },
{
    let doc = match parse_json(json) {
        Some(doc) => doc,
        None => return None,
    };
    let features = match read_collection(&doc) {
        Some(fs) => fs,
        None => return None,
    };
    let ghost fs = crate::geojson::feature_views(features@);
    let mut out: Vec<(usize, RecordRejection)> = Vec::new();
    let mut i: usize = 0;
    while i < features.len()
        invariant
            i <= features.len(),
            fs == crate::geojson::feature_views(features@),
            dataset_features(json@) == Some(fs),
            rejection_pairs(out@) == rejections_of(fs.subrange(0, i as int)),
        decreases features.len() - i,
    {
        proof {
            let sub = fs.subrange(0, i + 1);
            assert(sub.drop_last() =~= fs.subrange(0, i as int));
            assert(sub.last() == features@[i as int]@);
        }
        match record_rejection(&features[i]) {
            Some(x) => {
                let ghost before = rejection_pairs(out@);
                out.push((i, x));
                proof {
                    assert(rejection_pairs(out@) =~= before.push((i as nat, x)));
                }
            },
            None => {},
        }
        i = i + 1;
    }
    proof {
        assert(fs.subrange(0, fs.len() as int) =~= fs);
    }
    Some(out)
}

/// The records of one dataset text; an unreadable text gives none. A repeated
/// member of an object is read with its last occurrence, not rejected.
pub fn parse_dataset(dataset: &str, json: &str, fallback: NaturalEventType) -> (r: Vec<EvidenceBearingNaturalEvent>)
    ensures
        record_views(r@) == dataset_records(dataset@, json@, fallback),
{
    let doc = match parse_json(json) {
        Some(doc) => doc,
        None => {
            let r: Vec<EvidenceBearingNaturalEvent> = Vec::new();
            assert(record_views(r@) =~= Seq::empty());
            return r;
        },
    };
    let features = match read_collection(&doc) {
        Some(fs) => fs,
        None => {
            let r: Vec<EvidenceBearingNaturalEvent> = Vec::new();
            assert(record_views(r@) =~= Seq::empty());
            return r;
        },
    };
    let ghost fs = crate::geojson::feature_views(features@);
    let mut out: Vec<EvidenceBearingNaturalEvent> = Vec::new();
    let mut i: usize = 0;
    while i < features.len()
        invariant
            i <= features.len(),
            fs == crate::geojson::feature_views(features@),
            dataset_records(dataset@, json@, fallback) == records_of(dataset@, fs, fallback),
            record_views(out@) == records_of(dataset@, fs.subrange(0, i as int), fallback),
        decreases features.len() - i,
    {
        proof {
            let sub = fs.subrange(0, i + 1);
            assert(sub.drop_last() =~= fs.subrange(0, i as int));
            assert(sub.last() == features@[i as int]@);
        }
        match build_record(dataset, i, &features[i], fallback) {
            Some(rec) => {
                let ghost before = record_views(out@);
                out.push(rec);
                proof {
                    assert(record_views(out@) =~= before.push(rec@));
                }
            },
            None => {},
        }
        i = i + 1;
    }
    proof {
        assert(fs.subrange(0, fs.len() as int) =~= fs);
    }
    out
}

/// Records of the four natural-event datasets (earthquakes, fires, EONET
/// events, volcanoes), in that order.
pub fn parse_natural_event_records(earthquakes: &str, fires: &str, eonet: &str, volcanoes: &str) -> (r: Vec<
    EvidenceBearingNaturalEvent,
>)
    ensures
        record_views(r@) == natural_event_records(earthquakes@, fires@, eonet@, volcanoes@),
{
    let mut records = parse_dataset("usgs-earthquakes", earthquakes, NaturalEventType::Earthquake);
    let mut f = parse_dataset("nasa-firms-demo", fires, NaturalEventType::Fire);
    let mut e = parse_dataset("nasa-eonet", eonet, NaturalEventType::Storm);
    let mut v = parse_dataset("smithsonian-gvp", volcanoes, NaturalEventType::Volcano);
    let ghost a = records@;
    let ghost b = f@;
    let ghost c = e@;
    let ghost d = v@;
    records.append(&mut f);
    records.append(&mut e);
    records.append(&mut v);
    proof {
        assert(records@ == a + b + c + d);
        assert(record_views(records@) =~= record_views(a) + record_views(b) + record_views(c)
            + record_views(d));
    }
    records
}

// ---------------------------------------------------------------------------
// Audited layer provenance
// ---------------------------------------------------------------------------

/// Layer-level kind after the natural-event audit: the mixed fire layer and
/// the expert-reviewed volcano layer are curated, earthquakes and storms
/// observed; other layers keep their declared kind.
pub open spec fn audited_kind(layer: Layer) -> DataKind {
    match layer {
        Layer::Earthquakes => DataKind::Observed,
        Layer::Fires => DataKind::Curated,
        Layer::Storms => DataKind::Observed,
        Layer::Volcanoes => DataKind::Curated,
        _ => declared_kind(layer),
    }
}

/// Audited source label of a layer.
pub open spec fn audited_source(layer: Layer) -> Seq<char> {
    match layer {
        Layer::Earthquakes => "USGS earthquake snapshot"@,
        Layer::Fires => "mixed: synthetic FIRMS demo + observed EONET wildfire records"@,
        Layer::Storms => "NASA EONET mixed natural-event snapshot"@,
        Layer::Volcanoes => "Smithsonian GVP expert-reviewed records"@,
        _ => declared_source(layer),
    }
}

/// Audited snapshot date of a layer.
pub open spec fn audited_snapshot(layer: Layer) -> Seq<char> {
    match layer {
        Layer::Earthquakes | Layer::Fires | Layer::Storms => "2025-09"@,
        Layer::Volcanoes => ""@,
        _ => declared_snapshot(layer),
    }
}

/// Layer-level provenance used until every renderer reads per-record evidence.
pub fn audited_layer_provenance(layer: Layer) -> (r: DataProvenance)
    ensures
        r.kind == audited_kind(layer),
        r.source@ == audited_source(layer),
        r.snapshot_date@ == audited_snapshot(layer),
{
    match layer {
        Layer::Earthquakes => DataProvenance {
            source: "USGS earthquake snapshot",
            snapshot_date: "2025-09",
            kind: DataKind::Observed,
        },
        Layer::Fires => DataProvenance {
            source: "mixed: synthetic FIRMS demo + observed EONET wildfire records",
            snapshot_date: "2025-09",
            kind: DataKind::Curated,
        },
        Layer::Storms => DataProvenance {
            source: "NASA EONET mixed natural-event snapshot",
            snapshot_date: "2025-09",
            kind: DataKind::Observed,
        },
        Layer::Volcanoes => DataProvenance {
            source: "Smithsonian GVP expert-reviewed records",
            snapshot_date: "",
            kind: DataKind::Curated,
        },
        _ => layer.provenance(),
    }
}


// ---------------------------------------------------------------------------
// Laws
// ---------------------------------------------------------------------------

/// A record stands on a valid WGS84 point, the same for its renderer event
/// and its observation, and on exactly one backing source record.
pub open spec fn record_well_formed(r: EvidenceBearingNaturalEventModel) -> bool {
    &&& valid_latitude(r.event.lat)
    &&& valid_longitude(r.event.lon)
    &&& r.observation.spatial == SpatialExtent::Point(
        GeoPoint {
            lat: r.event.lat,
            lon: r.event.lon,
            altitude_m: None,
            reference_frame: ReferenceFrame::EarthWgs84,
        },
    )
    &&& r.observation.phenomenon == phenomenon(r.event.event_type)
    &&& r.observation.evidence.len() == 1
}

proof fn lemma_records_well_formed(dataset: Seq<char>, fs: Seq<FeatureModel>, fallback: NaturalEventType)
    ensures
        forall|i: int|
            0 <= i < records_of(dataset, fs, fallback).len() ==> record_well_formed(
                #[trigger] records_of(dataset, fs, fallback)[i],
            ),
    decreases fs.len(),
{
    if fs.len() > 0 {
        lemma_records_well_formed(dataset, fs.drop_last(), fallback);
        let rest = records_of(dataset, fs.drop_last(), fallback);
        match record_of(dataset, (fs.len() - 1) as nat, fs.last(), fallback) {
            Some(r) => {
                assert(record_well_formed(r));
                assert forall|i: int| 0 <= i < rest.push(r).len() implies record_well_formed(
                    #[trigger] rest.push(r)[i],
                ) by {
                    if i < rest.len() {
                        assert(rest.push(r)[i] == rest[i]);
                    }
                }
            },
            None => {},
        }
    }
}

/// Invalid coordinates are rejected, never repaired: every natural-event
/// record has a valid WGS84 point, carried identically by its renderer event
/// and its observation, and one backing source record.
pub proof fn natural_event_records_are_well_formed(
    earthquakes: Seq<char>,
    fires: Seq<char>,
    eonet: Seq<char>,
    volcanoes: Seq<char>,
)
    ensures
        forall|i: int|
            0 <= i < natural_event_records(earthquakes, fires, eonet, volcanoes).len()
                ==> record_well_formed(
                #[trigger] natural_event_records(earthquakes, fires, eonet, volcanoes)[i],
            ),
{
    let a = dataset_records("usgs-earthquakes"@, earthquakes, NaturalEventType::Earthquake);
    let b = dataset_records("nasa-firms-demo"@, fires, NaturalEventType::Fire);
    let c = dataset_records("nasa-eonet"@, eonet, NaturalEventType::Storm);
    let d = dataset_records("smithsonian-gvp"@, volcanoes, NaturalEventType::Volcano);
    assert forall|k: int| 0 <= k < a.len() implies record_well_formed(#[trigger] a[k]) by {
        if let Some(doc) = json_document(earthquakes) {
            if let Some(fs) = decode_collection(doc) {
                lemma_records_well_formed("usgs-earthquakes"@, fs, NaturalEventType::Earthquake);
            }
        }
    }
    assert forall|k: int| 0 <= k < b.len() implies record_well_formed(#[trigger] b[k]) by {
        if let Some(doc) = json_document(fires) {
            if let Some(fs) = decode_collection(doc) {
                lemma_records_well_formed("nasa-firms-demo"@, fs, NaturalEventType::Fire);
            }
        }
    }
    assert forall|k: int| 0 <= k < c.len() implies record_well_formed(#[trigger] c[k]) by {
        if let Some(doc) = json_document(eonet) {
            if let Some(fs) = decode_collection(doc) {
                lemma_records_well_formed("nasa-eonet"@, fs, NaturalEventType::Storm);
            }
        }
    }
    assert forall|k: int| 0 <= k < d.len() implies record_well_formed(#[trigger] d[k]) by {
        if let Some(doc) = json_document(volcanoes) {
            if let Some(fs) = decode_collection(doc) {
                lemma_records_well_formed("smithsonian-gvp"@, fs, NaturalEventType::Volcano);
            }
        }
    }
    let all = a + b + c + d;
    assert forall|i: int| 0 <= i < all.len() implies record_well_formed(#[trigger] all[i]) by {
        if i < a.len() {
            assert(all[i] == a[i]);
        } else if i < a.len() + b.len() {
            assert(all[i] == b[i - a.len()]);
        } else if i < a.len() + b.len() + c.len() {
            assert(all[i] == c[i - a.len() - b.len()]);
        } else {
            assert(all[i] == d[i - a.len() - b.len() - c.len()]);
        }
    }
}


// ---------------------------------------------------------------------------
// Classification laws
// ---------------------------------------------------------------------------

/// Lowercase source text of a record (empty when absent).
pub open spec fn lowered_source(source: Option<Seq<char>>) -> Seq<char> {
    ascii_lower(
        match source {
            Some(x) => x,
            None => Seq::empty(),
        },
    )
}

/// Lowercase lineage of a record, its parts joined by spaces.
pub open spec fn lowered_lineage(lineage: Seq<Seq<char>>) -> Seq<char> {
    ascii_lower(joined(lineage, " "@))
}

/// How a record's evidence class follows from its inputs: a `demo` source or
/// a `synthetic`/`generated` lineage marks a scenario, whatever else holds;
/// an unmarked record is a report exactly when it is a volcano or its lineage
/// says `expert review`; every other record (any earthquake, fire or storm
/// with a plain source and lineage) is an observation.
pub proof fn evidence_class_follows_markers(
    source: Option<Seq<char>>,
    lineage: Seq<Seq<char>>,
    t: NaturalEventType,
)
    ensures
        ({
            let s = lowered_source(source);
            let l = lowered_lineage(lineage);
            let marked = text_contains(s, "demo"@) || text_contains(l, "synthetic"@) || text_contains(
                l,
                "generated"@,
            );
            let class = evidence_class_of(source, lineage, t);
            &&& marked ==> class == EvidenceClass::Scenario
            &&& !marked && t == NaturalEventType::Volcano ==> class == EvidenceClass::Reported
            &&& !marked && text_contains(l, "expert review"@) ==> class == EvidenceClass::Reported
            &&& !marked && t != NaturalEventType::Volcano && !text_contains(l, "expert review"@)
                ==> class == EvidenceClass::Observed
            &&& class == EvidenceClass::Reported ==> t == NaturalEventType::Volcano || text_contains(
                l,
                "expert review"@,
            )
            &&& class != EvidenceClass::Derived && class != EvidenceClass::Inferred && class
                != EvidenceClass::Forecast
        }),
{
}

proof fn lemma_wildfire_has_fire(c: Seq<char>)
    requires
        text_contains(c, "wildfire"@),
    ensures
        text_contains(c, "fire"@),
{
    reveal_strlit("wildfire");
    reveal_strlit("fire");
    let i = choose|i: int| occurs_at(c, "wildfire"@, i);
    assert(c.subrange(i + 4, i + 8) =~= "fire"@) by {
        assert forall|k: int| 0 <= k < 4 implies c.subrange(i + 4, i + 8)[k] == "fire"@[k] by {
            assert(c.subrange(i, i + 8)[k + 4] == "wildfire"@[k + 4]);
        }
    }
    assert(occurs_at(c, "fire"@, i + 4));
}

/// No category text names an event type.
pub open spec fn names_no_type(category: Seq<char>) -> bool {
    let c = ascii_lower(category);
    !text_contains(c, "fire"@) && !text_contains(c, "volcano"@) && !text_contains(c, "earthquake"@)
        && !text_contains(c, "seismic"@) && !text_contains(c, "storm"@) && !text_contains(c, "cyclone"@)
}

proof fn lemma_unnamed_category(category: Seq<char>)
    requires
        names_no_type(category),
    ensures
        category_event_type(category) is None,
{
    if text_contains(ascii_lower(category), "wildfire"@) {
        lemma_wildfire_has_fire(ascii_lower(category));
    }
}

/// How a record's event type follows from its categories: the first category
/// decides when its lowercase text names a type (a fire word first, then
/// `volcano`, then `earthquake` or `seismic`, then `storm` or `cyclone`); a
/// first category that names none is skipped; and with no naming category at
/// all the dataset's fallback type stands.
pub proof fn event_type_follows_categories(categories: Seq<Seq<char>>, fallback: NaturalEventType)
    ensures
        categories.len() > 0 ==> ({
            let c = ascii_lower(categories[0]);
            let t = classify_type(categories, fallback);
            &&& text_contains(c, "fire"@) ==> t == NaturalEventType::Fire
            &&& !text_contains(c, "fire"@) && text_contains(c, "volcano"@) ==> t
                == NaturalEventType::Volcano
            &&& !text_contains(c, "fire"@) && !text_contains(c, "volcano"@) && (text_contains(
                c,
                "earthquake"@,
            ) || text_contains(c, "seismic"@)) ==> t == NaturalEventType::Earthquake
            &&& !text_contains(c, "fire"@) && !text_contains(c, "volcano"@) && !text_contains(
                c,
                "earthquake"@,
            ) && !text_contains(c, "seismic"@) && (text_contains(c, "storm"@) || text_contains(
                c,
                "cyclone"@,
            )) ==> t == NaturalEventType::Storm
            &&& names_no_type(categories[0]) ==> t == classify_type(categories.drop_first(), fallback)
        }),
        (forall|i: int| 0 <= i < categories.len() ==> names_no_type(#[trigger] categories[i]))
            ==> classify_type(categories, fallback) == fallback,
    decreases categories.len(),
{
    if categories.len() > 0 {
        let c = ascii_lower(categories[0]);
        if text_contains(c, "wildfire"@) {
            lemma_wildfire_has_fire(c);
        }
        if names_no_type(categories[0]) {
            lemma_unnamed_category(categories[0]);
        }
        event_type_follows_categories(categories.drop_first(), fallback);
        if forall|i: int| 0 <= i < categories.len() ==> names_no_type(#[trigger] categories[i]) {
            assert(names_no_type(categories[0]));
            assert forall|i: int| 0 <= i < categories.drop_first().len() implies names_no_type(
                #[trigger] categories.drop_first()[i],
            ) by {
                assert(categories.drop_first()[i] == categories[i + 1]);
            }
        }
    }
}

/// The natural-event layers carry distinct audited sources, each naming the
/// provider of its records: USGS for earthquakes, FIRMS and EONET for the
/// mixed fire layer, EONET for storms and the Smithsonian GVP for volcanoes.
pub proof fn natural_event_sources_name_their_providers()
    ensures
        text_contains(audited_source(Layer::Earthquakes), "USGS"@),
        text_contains(audited_source(Layer::Fires), "FIRMS"@),
        text_contains(audited_source(Layer::Fires), "EONET"@),
        text_contains(audited_source(Layer::Storms), "EONET"@),
        text_contains(audited_source(Layer::Volcanoes), "GVP"@),
        forall|a: Layer, b: Layer|
            (a == Layer::Earthquakes || a == Layer::Fires || a == Layer::Storms || a == Layer::Volcanoes)
                && (b == Layer::Earthquakes || b == Layer::Fires || b == Layer::Storms || b
                == Layer::Volcanoes) && a != b ==> #[trigger] audited_source(a) != #[trigger] audited_source(b),
{
    reveal_strlit("USGS earthquake snapshot");
    reveal_strlit("mixed: synthetic FIRMS demo + observed EONET wildfire records");
    reveal_strlit("NASA EONET mixed natural-event snapshot");
    reveal_strlit("Smithsonian GVP expert-reviewed records");
    reveal_strlit("USGS");
    reveal_strlit("FIRMS");
    reveal_strlit("EONET");
    reveal_strlit("GVP");
    let eq = audited_source(Layer::Earthquakes);
    let fi = audited_source(Layer::Fires);
    let st = audited_source(Layer::Storms);
    let vo = audited_source(Layer::Volcanoes);
    assert(eq.subrange(0, 4) =~= "USGS"@);
    assert(occurs_at(eq, "USGS"@, 0));
    assert(fi.subrange(17, 22) =~= "FIRMS"@);
    assert(occurs_at(fi, "FIRMS"@, 17));
    assert(fi.subrange(39, 44) =~= "EONET"@);
    assert(occurs_at(fi, "EONET"@, 39));
    assert(st.subrange(5, 10) =~= "EONET"@);
    assert(occurs_at(st, "EONET"@, 5));
    assert(vo.subrange(12, 15) =~= "GVP"@);
    assert(occurs_at(vo, "GVP"@, 12));
    assert(eq[0] != fi[0] && eq[0] != st[0] && eq[0] != vo[0]);
    assert(fi[0] != st[0] && fi[0] != vo[0] && st[0] != vo[0]);
}

} // verus!
