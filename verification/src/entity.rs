//! Renderer-agnostic identity and space-time primitives.
//!
//! Coordinates and altitudes are binary64 values held by their bit patterns
//! (see [`crate::ieee`]).
use vstd::prelude::*;
use crate::ieee::{f64_bits_in_closed, f64_in_closed, F64_180, F64_90, F64_MINUS_180, F64_MINUS_90};
use crate::text::string_views;

verus! {

/// Stable, opaque Sol Atlas identity of a thing in the world model.
#[derive(Debug, Clone, PartialEq, Eq, PartialOrd, Ord, Hash)]
pub struct AtlasEntityId(pub String);

impl AtlasEntityId {
    pub fn new(value: &str) -> (r: Self)
        ensures
            r.0@ == value@,
    {
        AtlasEntityId(String::from_str(value))
    }

    pub fn as_str(&self) -> (r: &str)
        ensures
            r@ == self.0@,
    {
        self.0.as_str()
    }
}

impl vstd::std_specs::convert::FromSpecImpl<&str> for AtlasEntityId {
    open spec fn obeys_from_spec() -> bool {
        false
    }

    open spec fn from_spec(v: &str) -> AtlasEntityId {
        arbitrary()
    }
}

impl From<&str> for AtlasEntityId {
    fn from(value: &str) -> (r: Self)
        ensures
            r.0@ == value@,
    {
        Self::new(value)
    }
}

impl vstd::std_specs::convert::FromSpecImpl<String> for AtlasEntityId {
    open spec fn obeys_from_spec() -> bool {
        true
    }

    open spec fn from_spec(v: String) -> AtlasEntityId {
        AtlasEntityId(v)
    }
}

impl From<String> for AtlasEntityId {
    fn from(value: String) -> (r: Self)
        ensures
            r == AtlasEntityId(value),
    {
        AtlasEntityId(value)
    }
}

/// Identifier given to the same entity by an external system.
#[derive(Debug, Clone, PartialEq, Eq)]
pub struct ExternalId {
    /// Stable namespace, e.g. `overture-gers`, `osm-node`, `wikidata`.
    pub namespace: String,
    pub value: String,
}

/// The namespace and value of an external id.
pub open spec fn external_id_view(e: ExternalId) -> (Seq<char>, Seq<char>) {
    (e.namespace@, e.value@)
}

impl ExternalId {
    pub fn new(namespace: &str, value: &str) -> (r: Self)
        ensures
            r.namespace@ == namespace@,
            r.value@ == value@,
    {
        ExternalId { namespace: String::from_str(namespace), value: String::from_str(value) }
    }
}

/// Coordinate frame of a spatial extent.
#[derive(Debug, Clone, PartialEq, Eq)]
pub enum ReferenceFrame {
    EarthWgs84,
    CelestialBody { body: String, frame: String },
    Local { name: String },
}

/// Invalid latitude/longitude supplied to a WGS84 point.
#[derive(Debug, Clone, Copy, PartialEq, Eq, Structural)]
pub enum CoordinateError {
    LatitudeOutOfRange,
    LongitudeOutOfRange,
}

/// A position with an explicit coordinate frame (binary64 bit patterns).
#[derive(Debug, Clone, PartialEq)]
pub struct GeoPoint {
    pub lat: u64,
    pub lon: u64,
    pub altitude_m: Option<u64>,
    pub reference_frame: ReferenceFrame,
}

/// Latitude within `[-90, 90]`.
pub open spec fn valid_latitude(lat: u64) -> bool {
    f64_in_closed(F64_MINUS_90, lat, F64_90)
}

/// Longitude within `[-180, 180]`.
pub open spec fn valid_longitude(lon: u64) -> bool {
    f64_in_closed(F64_MINUS_180, lon, F64_180)
}

impl GeoPoint {
    /// Validated WGS84 position; the latitude is checked first.
    pub fn wgs84(lat: u64, lon: u64, altitude_m: Option<u64>) -> (r: Result<Self, CoordinateError>)
        ensures
            match r {
                Ok(p) => valid_latitude(lat) && valid_longitude(lon) && p.lat == lat && p.lon == lon
                    && p.altitude_m == altitude_m && p.reference_frame == ReferenceFrame::EarthWgs84,
                Err(CoordinateError::LatitudeOutOfRange) => !valid_latitude(lat),
                Err(CoordinateError::LongitudeOutOfRange) => valid_latitude(lat) && !valid_longitude(
                    lon,
                ),
            },
    {
        if !f64_bits_in_closed(F64_MINUS_90, lat, F64_90) {
            return Err(CoordinateError::LatitudeOutOfRange);
        }
        if !f64_bits_in_closed(F64_MINUS_180, lon, F64_180) {
            return Err(CoordinateError::LongitudeOutOfRange);
        }
        Ok(GeoPoint { lat, lon, altitude_m, reference_frame: ReferenceFrame::EarthWgs84 })
    }

    /// A point in a non-WGS84 frame; frame-specific adapters interpret the axes.
    pub fn in_frame(lat: u64, lon: u64, altitude_m: Option<u64>, frame: ReferenceFrame) -> (r: Self)
        ensures
            r == (GeoPoint { lat, lon, altitude_m, reference_frame: frame }),
    {
        GeoPoint { lat, lon, altitude_m, reference_frame: frame }
    }
}

/// Spatial footprint of an entity.
#[derive(Debug, Clone, PartialEq)]
pub enum SpatialExtent {
    Point(GeoPoint),
    Polyline(Vec<GeoPoint>),
    /// Polygon rings; the first ring is the exterior, later rings are holes.
    Polygon(Vec<Vec<GeoPoint>>),
    /// Geometry delegated to another Atlas entity.
    EntityRef(AtlasEntityId),
}

/// Interval in which an entity representation applies (Unix milliseconds).
#[derive(Debug, Clone, Copy, PartialEq, Eq, Default, Structural)]
pub struct TemporalExtent {
    pub valid_from_unix_ms: Option<i64>,
    pub valid_until_unix_ms: Option<i64>,
}

impl TemporalExtent {
    pub fn timeless() -> (r: Self)
        ensures
            r.valid_from_unix_ms is None,
            r.valid_until_unix_ms is None,
    {
        TemporalExtent { valid_from_unix_ms: None, valid_until_unix_ms: None }
    }
}

/// A typed edge from one entity to another.
#[derive(Debug, Clone, PartialEq, Eq)]
pub struct Relationship {
    /// Open predicate vocabulary, e.g. `located_in`, `feeds`, `operated_by`.
    pub predicate: String,
    pub target: AtlasEntityId,
}

impl Relationship {
    pub fn new(predicate: &str, target: AtlasEntityId) -> (r: Self)
        ensures
            r.predicate@ == predicate@,
            r.target == target,
    {
        Relationship { predicate: String::from_str(predicate), target }
    }
}

/// Audience authorized to receive an entity projection.
#[derive(Debug, Clone, PartialEq, Eq)]
pub enum Audience {
    Private,
    Capability(String),
    TrustedGroup(String),
    Community(String),
    Public,
}

/// Requested disclosure boundary of an entity.
#[derive(Debug, Clone, PartialEq, Eq)]
pub struct VisibilityPolicy {
    pub audience: Audience,
    pub spatial_precision_m: Option<u32>,
    pub temporal_precision_s: Option<u64>,
    pub expires_at_unix_ms: Option<i64>,
    pub redisclosure_allowed: bool,
}

impl VisibilityPolicy {
    pub fn private() -> (r: Self)
        ensures
            r.audience == Audience::Private,
            r.spatial_precision_m is None,
            r.temporal_precision_s is None,
            r.expires_at_unix_ms is None,
            !r.redisclosure_allowed,
    {
        VisibilityPolicy {
            audience: Audience::Private,
            spatial_precision_m: None,
            temporal_precision_s: None,
            expires_at_unix_ms: None,
            redisclosure_allowed: false,
        }
    }

    pub fn public() -> (r: Self)
        ensures
            r.audience == Audience::Public,
            r.spatial_precision_m is None,
            r.temporal_precision_s is None,
            r.expires_at_unix_ms is None,
            r.redisclosure_allowed,
    {
        VisibilityPolicy {
            audience: Audience::Public,
            spatial_precision_m: None,
            temporal_precision_s: None,
            expires_at_unix_ms: None,
            redisclosure_allowed: true,
        }
    }
}

/// Universal identity shell for a thing in Sol Atlas.
#[derive(Debug, Clone, PartialEq)]
pub struct AtlasEntity {
    pub id: AtlasEntityId,
    pub display_name: Option<String>,
    /// Open, additive ontology terms such as `hospital`, `bridge`, `river`.
    pub kinds: Vec<String>,
    pub external_ids: Vec<ExternalId>,
    pub spatial: Option<SpatialExtent>,
    pub temporal: TemporalExtent,
    pub relationships: Vec<Relationship>,
    pub visibility: VisibilityPolicy,
}

/// The kind list after adding `kind`: unchanged when present, else appended.
pub open spec fn with_kind(kinds: Seq<Seq<char>>, kind: Seq<char>) -> Seq<Seq<char>> {
    if kinds.contains(kind) {
        kinds
    } else {
        kinds.push(kind)
    }
}

/// The external-id list after adding `e`: unchanged when an equal id is
/// present, else appended.
pub open spec fn with_external_id(ids: Seq<ExternalId>, e: ExternalId) -> Seq<ExternalId> {
    if exists|k: int| 0 <= k < ids.len() && external_id_view(#[trigger] ids[k]) == external_id_view(e) {
        ids
    } else {
        ids.push(e)
    }
}

/// No two external ids of the list are equal.
pub open spec fn distinct_external_ids(ids: Seq<ExternalId>) -> bool {
    forall|i: int, j: int|
        0 <= i < ids.len() && 0 <= j < ids.len() && i != j ==> external_id_view(#[trigger] ids[i])
            != external_id_view(#[trigger] ids[j])
}

impl AtlasEntity {
    /// Visibility is mandatory: callers choose the disclosure boundary.
    pub fn new(id: &str, visibility: VisibilityPolicy) -> (r: Self)
        ensures
            r.id.0@ == id@,
            r.display_name is None,
            r.kinds@.len() == 0,
            r.external_ids@.len() == 0,
            r.spatial is None,
            r.temporal.valid_from_unix_ms is None,
            r.temporal.valid_until_unix_ms is None,
            r.relationships@.len() == 0,
            r.visibility == visibility,
    {
        AtlasEntity {
            id: AtlasEntityId::new(id),
            display_name: None,
            kinds: Vec::new(),
            external_ids: Vec::new(),
            spatial: None,
            temporal: TemporalExtent::timeless(),
            relationships: Vec::new(),
            visibility,
        }
    }

    /// Adds an ontology kind unless an equal kind is already listed.
    pub fn add_kind(&mut self, kind: &str)
        ensures
            string_views(final(self).kinds@) == with_kind(string_views(old(self).kinds@), kind@),
            final(self).id == old(self).id,
            final(self).display_name == old(self).display_name,
            final(self).external_ids == old(self).external_ids,
            final(self).spatial == old(self).spatial,
            final(self).temporal == old(self).temporal,
            final(self).relationships == old(self).relationships,
            final(self).visibility == old(self).visibility,
    {
        let ghost views = string_views(self.kinds@);
        let owned = String::from_str(kind);
        let mut i: usize = 0;
        while i < self.kinds.len()
            invariant
                i <= self.kinds.len(),
                views == string_views(self.kinds@),
                owned@ == kind@,
                forall|k: int| 0 <= k < i ==> views[k] != owned@,
            decreases self.kinds.len() - i,
        {
            if self.kinds[i] == owned {
                assert(views[i as int] == owned@);
                assert(views.contains(kind@));
                return;
            }
            i = i + 1;
        }
        self.kinds.push(owned);
        proof {
            assert(string_views(self.kinds@) =~= views.push(owned@));
        }
    }

    /// Adds an external id unless an equal one is already listed.
    pub fn add_external_id(&mut self, external_id: ExternalId)
        ensures
            final(self).external_ids@ == with_external_id(old(self).external_ids@, external_id),
            final(self).id == old(self).id,
            final(self).display_name == old(self).display_name,
            final(self).kinds == old(self).kinds,
            final(self).spatial == old(self).spatial,
            final(self).temporal == old(self).temporal,
            final(self).relationships == old(self).relationships,
            final(self).visibility == old(self).visibility,
    {
        let mut i: usize = 0;
        while i < self.external_ids.len()
            invariant
                i <= self.external_ids.len(),
                forall|k: int|
                    0 <= k < i ==> external_id_view(#[trigger] self.external_ids@[k])
                        != external_id_view(external_id),
            decreases self.external_ids.len() - i,
        {
            let same = self.external_ids[i].namespace == external_id.namespace
                && self.external_ids[i].value == external_id.value;
            if same {
                assert(external_id_view(self.external_ids@[i as int]) == external_id_view(
                    external_id,
                ));
                return;
            }
            i = i + 1;
        }
        self.external_ids.push(external_id);
    }
}

/// Adding a kind leaves it listed, keeps a duplicate-free list duplicate-free,
/// and adding it a second time changes nothing.
pub proof fn add_kind_deduplicates(kinds: Seq<Seq<char>>, kind: Seq<char>)
    ensures
        with_kind(kinds, kind).contains(kind),
        kinds.no_duplicates() ==> with_kind(kinds, kind).no_duplicates(),
        with_kind(with_kind(kinds, kind), kind) == with_kind(kinds, kind),
        forall|k: int| 0 <= k < kinds.len() ==> with_kind(kinds, kind)[k] == kinds[k],
{
    let r = with_kind(kinds, kind);
    if !kinds.contains(kind) {
        assert(r[kinds.len() as int] == kind);
        if kinds.no_duplicates() {
            assert forall|i: int, j: int| 0 <= i < r.len() && 0 <= j < r.len() && i != j implies r[i]
                != r[j] by {
                if i == kinds.len() {
                    assert(r[j] == kinds[j]);
                    if kinds[j] == kind {
                        assert(kinds.contains(kind));
                    }
                } else if j == kinds.len() {
                    assert(r[i] == kinds[i]);
                    if kinds[i] == kind {
                        assert(kinds.contains(kind));
                    }
                } else {
                    assert(r[i] == kinds[i]);
                    assert(r[j] == kinds[j]);
                }
            }
        }
    }
}

/// Adding an external id leaves an equal id listed, keeps a list of distinct
/// ids distinct, and adding it a second time changes nothing.
pub proof fn add_external_id_deduplicates(ids: Seq<ExternalId>, e: ExternalId)
    ensures
        exists|k: int|
            0 <= k < with_external_id(ids, e).len() && external_id_view(
                #[trigger] with_external_id(ids, e)[k],
            ) == external_id_view(e),
        distinct_external_ids(ids) ==> distinct_external_ids(with_external_id(ids, e)),
        with_external_id(with_external_id(ids, e), e) == with_external_id(ids, e),
{
    let r = with_external_id(ids, e);
    if exists|k: int| 0 <= k < ids.len() && external_id_view(#[trigger] ids[k]) == external_id_view(e) {
    } else {
        assert(r[ids.len() as int] == e);
        assert(external_id_view(r[ids.len() as int]) == external_id_view(e));
        if distinct_external_ids(ids) {
            assert forall|i: int, j: int| 0 <= i < r.len() && 0 <= j < r.len() && i != j implies external_id_view(
                #[trigger] r[i],
            ) != external_id_view(#[trigger] r[j]) by {
                if i == ids.len() {
                    assert(r[j] == ids[j]);
                } else if j == ids.len() {
                    assert(r[i] == ids[i]);
                } else {
                    assert(r[i] == ids[i]);
                    assert(r[j] == ids[j]);
                }
            }
        }
        assert(with_external_id(r, e) == r);
    }
}

} // verus!
