//! The GeoJSON subset of the natural-event datasets.
//!
//! A dataset is an object with a `features` array. Each feature is an object
//! with an optional string `id`, a `properties` object and a `geometry`
//! object whose `coordinates` is an array of numbers. Optional members may be
//! absent or `null`; a member of the wrong JSON type makes the whole dataset
//! unreadable. Unknown members are ignored.
//!
//! Each of these records may also be written as an array that gives its
//! fields in declaration order (`[features]`, `[id, properties, geometry]`,
//! `[coordinates]`, and the properties in the order of [`Properties`]);
//! trailing optional fields may be left out, and an array longer than the
//! record has fields is unreadable.
//!
//! The document is read through `serde_json::Value`, which keeps the last of
//! two members with the same key; such a document is read with that member.
use vstd::prelude::*;
use serde_json::Value;
use crate::json::{
    elements, is_null, is_object, json_elements, json_is_null, json_is_object, json_member,
    json_number_bits, json_text, member, number_bits, text,
};

verus! {

/// Source-record properties the evidence adapter reads. Numbers are binary64
/// bit patterns.
#[derive(Debug, Clone, Default)]
pub struct Properties {
    pub magnitude: Option<u64>,
    pub magnitude_unit: Option<String>,
    pub brightness: Option<u64>,
    pub title: Option<String>,
    pub place: Option<String>,
    pub name: Option<String>,
    pub source: Option<String>,
    pub time: Option<String>,
    pub detection_time: Option<String>,
    pub date: Option<String>,
    pub event_id: Option<String>,
    pub link: Option<String>,
    pub categories: Vec<String>,
    pub data_lineage: Vec<String>,
}

/// One feature of a dataset.
#[derive(Debug, Clone)]
pub struct Feature {
    pub id: Option<String>,
    pub properties: Properties,
    pub coordinates: Vec<u64>,
}

/// Mathematical content of [`Properties`].
pub struct PropertiesModel {
    pub magnitude: Option<u64>,
    pub magnitude_unit: Option<Seq<char>>,
    pub brightness: Option<u64>,
    pub title: Option<Seq<char>>,
    pub place: Option<Seq<char>>,
    pub name: Option<Seq<char>>,
    pub source: Option<Seq<char>>,
    pub time: Option<Seq<char>>,
    pub detection_time: Option<Seq<char>>,
    pub date: Option<Seq<char>>,
    pub event_id: Option<Seq<char>>,
    pub link: Option<Seq<char>>,
    pub categories: Seq<Seq<char>>,
    pub data_lineage: Seq<Seq<char>>,
}

/// Mathematical content of [`Feature`].
pub struct FeatureModel {
    pub id: Option<Seq<char>>,
    pub properties: PropertiesModel,
    pub coordinates: Seq<u64>,
}

impl View for Properties {
    type V = PropertiesModel;

    open spec fn view(&self) -> PropertiesModel {
        PropertiesModel {
            magnitude: self.magnitude,
            magnitude_unit: self.magnitude_unit.deep_view(),
            brightness: self.brightness,
            title: self.title.deep_view(),
            place: self.place.deep_view(),
            name: self.name.deep_view(),
            source: self.source.deep_view(),
            time: self.time.deep_view(),
            detection_time: self.detection_time.deep_view(),
            date: self.date.deep_view(),
            event_id: self.event_id.deep_view(),
            link: self.link.deep_view(),
            categories: self.categories.deep_view(),
            data_lineage: self.data_lineage.deep_view(),
        }
    }
}

impl View for Feature {
    type V = FeatureModel;

    open spec fn view(&self) -> FeatureModel {
        FeatureModel {
            id: self.id.deep_view(),
            properties: self.properties@,
            coordinates: self.coordinates@,
        }
    }
}

// ---------------------------------------------------------------------------
// Decoding, stated over the JSON names (outer `None`: unreadable)
// ---------------------------------------------------------------------------

/// A struct with `n` fields may be written as an object, or as an array of at
/// most `n` elements giving the fields in declaration order.
pub open spec fn struct_shaped(v: Value, n: nat) -> bool {
    json_is_object(v) || match json_elements(v) {
        Some(es) => es.len() <= n,
        None => false,
    }
}

/// Field `key`, declared at position `pos`, of a struct-shaped value: the
/// member of an object, or the element of an array; `None` when absent.
pub open spec fn json_field(v: Value, key: Seq<char>, pos: nat) -> Option<Value> {
    if json_is_object(v) {
        json_member(v, key)
    } else {
        match json_elements(v) {
            Some(es) => if pos < es.len() {
                Some(es[pos as int])
            } else {
                None
            },
            None => None,
        }
    }
}

/// Optional text member: absent or `null` gives `None`, a string its text.
pub open spec fn optional_text(obj: Value, key: Seq<char>, pos: nat) -> Option<Option<Seq<char>>> {
    match json_field(obj, key, pos) {
        None => Some(None),
        Some(m) => if json_is_null(m) {
            Some(None)
        } else {
            match json_text(m) {
                Some(t) => Some(Some(t)),
                None => None,
            }
        },
    }
}

/// Optional number member.
pub open spec fn optional_number(obj: Value, key: Seq<char>, pos: nat) -> Option<Option<u64>> {
    match json_field(obj, key, pos) {
        None => Some(None),
        Some(m) => if json_is_null(m) {
            Some(None)
        } else {
            match json_number_bits(m) {
                Some(n) => Some(Some(n)),
                None => None,
            }
        },
    }
}

/// All elements as texts.
pub open spec fn all_texts(es: Seq<Value>) -> Option<Seq<Seq<char>>>
    decreases es.len(),
{
    if es.len() == 0 {
        Some(Seq::empty())
    } else {
        match (all_texts(es.drop_last()), json_text(es.last())) {
            (Some(ts), Some(t)) => Some(ts.push(t)),
            _ => None,
        }
    }
}

/// All elements as numbers.
pub open spec fn all_numbers(es: Seq<Value>) -> Option<Seq<u64>>
    decreases es.len(),
{
    if es.len() == 0 {
        Some(Seq::empty())
    } else {
        match (all_numbers(es.drop_last()), json_number_bits(es.last())) {
            (Some(ns), Some(n)) => Some(ns.push(n)),
            _ => None,
        }
    }
}

/// Text-list member with an empty default when absent.
pub open spec fn text_list(obj: Value, key: Seq<char>, pos: nat) -> Option<Seq<Seq<char>>> {
    match json_field(obj, key, pos) {
        None => Some(Seq::empty()),
        Some(m) => match json_elements(m) {
            Some(es) => all_texts(es),
            None => None,
        },
    }
}

pub open spec fn decode_properties(v: Value) -> Option<PropertiesModel> {
    if !struct_shaped(v, 14) {
        None
    } else {
        match (
            optional_number(v, "magnitude"@, 0),
            optional_text(v, "magnitude_unit"@, 1),
            optional_number(v, "brightness"@, 2),
            optional_text(v, "title"@, 3),
            optional_text(v, "place"@, 4),
            optional_text(v, "name"@, 5),
            optional_text(v, "source"@, 6),
        ) {
            (Some(magnitude), Some(magnitude_unit), Some(brightness), Some(title), Some(place), Some(name), Some(source)) => {
                match (
                    optional_text(v, "time"@, 7),
                    optional_text(v, "detection_time"@, 8),
                    optional_text(v, "date"@, 9),
                    optional_text(v, "event_id"@, 10),
                    optional_text(v, "link"@, 11),
                    text_list(v, "categories"@, 12),
                    text_list(v, "data_lineage"@, 13),
                ) {
                    (Some(time), Some(detection_time), Some(date), Some(event_id), Some(link), Some(categories), Some(data_lineage)) => Some(PropertiesModel {
                        magnitude,
                        magnitude_unit,
                        brightness,
                        title,
                        place,
                        name,
                        source,
                        time,
                        detection_time,
                        date,
                        event_id,
                        link,
                        categories,
                        data_lineage,
                    }),
                    _ => None,
                }
            },
            _ => None,
        }
    }
}

/// Coordinates of a geometry object.
pub open spec fn decode_coordinates(geometry: Value) -> Option<Seq<u64>> {
    if !struct_shaped(geometry, 1) {
        None
    } else {
        match json_field(geometry, "coordinates"@, 0) {
            Some(c) => match json_elements(c) {
                Some(es) => all_numbers(es),
                None => None,
            },
            None => None,
        }
    }
}

pub open spec fn decode_feature(v: Value) -> Option<FeatureModel> {
    if !struct_shaped(v, 3) {
        None
    } else {
        match (optional_text(v, "id"@, 0), json_field(v, "properties"@, 1), json_field(v, "geometry"@, 2)) {
            (Some(id), Some(p), Some(g)) => match (decode_properties(p), decode_coordinates(g)) {
                (Some(properties), Some(coordinates)) => Some(FeatureModel { id, properties, coordinates }),
                _ => None,
            },
            _ => None,
        }
    }
}

pub open spec fn decode_features(es: Seq<Value>) -> Option<Seq<FeatureModel>>
    decreases es.len(),
{
    if es.len() == 0 {
        Some(Seq::empty())
    } else {
        match (decode_features(es.drop_last()), decode_feature(es.last())) {
            (Some(fs), Some(f)) => Some(fs.push(f)),
            _ => None,
        }
    }
}

/// The features of a dataset document, or `None` when it is unreadable.
pub open spec fn decode_collection(doc: Value) -> Option<Seq<FeatureModel>> {
    if !struct_shaped(doc, 1) {
        None
    } else {
        match json_field(doc, "features"@, 0) {
            Some(f) => match json_elements(f) {
                Some(es) => decode_features(es),
                None => None,
            },
            None => None,
        }
    }
}

/// Views of a list of features.
pub open spec fn feature_views(fs: Seq<Feature>) -> Seq<FeatureModel> {
    fs.map_values(|f: Feature| f@)
}

// ---------------------------------------------------------------------------
// Executable decoding
// ---------------------------------------------------------------------------

fn struct_shape(v: &Value, n: usize) -> (r: bool)
    ensures
        r == struct_shaped(*v, n as nat),
{
    if is_object(v) {
        true
    } else {
        match elements(v) {
            Some(es) => es.len() <= n,
            None => false,
        }
    }
}

fn field<'a>(v: &'a Value, key: &str, pos: usize) -> (r: Option<&'a Value>)
    ensures
        match r {
            Some(m) => json_field(*v, key@, pos as nat) == Some(*m),
            None => json_field(*v, key@, pos as nat) is None,
        },
{
    if is_object(v) {
        member(v, key)
    } else {
        match elements(v) {
            Some(es) => if pos < es.len() {
                Some(&es[pos])
            } else {
                None
            },
            None => None,
        }
    }
}

fn read_optional_text(obj: &Value, key: &str, pos: usize) -> (r: Option<Option<String>>)
    ensures
        match r {
            Some(t) => optional_text(*obj, key@, pos as nat) == Some(t.deep_view()),
            None => optional_text(*obj, key@, pos as nat) is None,
        },
{
    match field(obj, key, pos) {
        None => Some(None),
        Some(m) => {
            if is_null(m) {
                Some(None)
            } else {
                match text(m) {
                    Some(t) => Some(Some(String::from_str(t))),
                    None => None,
                }
            }
        },
    }
}

fn read_optional_number(obj: &Value, key: &str, pos: usize) -> (r: Option<Option<u64>>)
    ensures
        r == optional_number(*obj, key@, pos as nat),
{
    match field(obj, key, pos) {
        None => Some(None),
        Some(m) => {
            if is_null(m) {
                Some(None)
            } else {
                match number_bits(m) {
                    Some(n) => Some(Some(n)),
                    None => None,
                }
            }
        },
    }
}

fn read_texts(es: &Vec<Value>) -> (r: Option<Vec<String>>)
    ensures
        match r {
            Some(ts) => all_texts(es@) == Some(ts.deep_view()),
            None => all_texts(es@) is None,
        },
{
    let mut out: Vec<String> = Vec::new();
    let mut i: usize = 0;
    while i < es.len()
        invariant
            i <= es.len(),
            all_texts(es@.subrange(0, i as int)) == Some(out.deep_view()),
        decreases es.len() - i,
    {
        proof {
            assert(es@.subrange(0, i + 1).drop_last() =~= es@.subrange(0, i as int));
        }
        match text(&es[i]) {
            Some(t) => {
                let s = String::from_str(t);
                let ghost before = out.deep_view();
                out.push(s);
                proof {
                    assert(out.deep_view() =~= before.push(s@));
                }
            },
            None => {
                proof {
                    lemma_texts_prefix_fails(es@, i as int);
                }
                return None;
            },
        }
        i = i + 1;
    }
    proof {
        assert(es@.subrange(0, es@.len() as int) =~= es@);
    }
    Some(out)
}

proof fn lemma_texts_prefix_fails(es: Seq<Value>, i: int)
    requires
        0 <= i < es.len(),
        json_text(es[i]) is None,
    ensures
        all_texts(es) is None,
    decreases es.len(),
{
    if i < es.len() - 1 {
        lemma_texts_prefix_fails(es.drop_last(), i);
    }
}

proof fn lemma_numbers_prefix_fails(es: Seq<Value>, i: int)
    requires
        0 <= i < es.len(),
        json_number_bits(es[i]) is None,
    ensures
        all_numbers(es) is None,
    decreases es.len(),
{
    if i < es.len() - 1 {
        lemma_numbers_prefix_fails(es.drop_last(), i);
    }
}

proof fn lemma_features_prefix_fails(es: Seq<Value>, i: int)
    requires
        0 <= i < es.len(),
        decode_feature(es[i]) is None,
    ensures
        decode_features(es) is None,
    decreases es.len(),
{
    if i < es.len() - 1 {
        lemma_features_prefix_fails(es.drop_last(), i);
    }
}

fn read_numbers(es: &Vec<Value>) -> (r: Option<Vec<u64>>)
    ensures
        match r {
            Some(ns) => all_numbers(es@) == Some(ns@),
            None => all_numbers(es@) is None,
        },
{
    let mut out: Vec<u64> = Vec::new();
    let mut i: usize = 0;
    while i < es.len()
        invariant
            i <= es.len(),
            all_numbers(es@.subrange(0, i as int)) == Some(out@),
        decreases es.len() - i,
    {
        proof {
            assert(es@.subrange(0, i + 1).drop_last() =~= es@.subrange(0, i as int));
        }
        match number_bits(&es[i]) {
            Some(n) => {
                out.push(n);
            },
            None => {
                proof {
                    lemma_numbers_prefix_fails(es@, i as int);
                }
                return None;
            },
        }
        i = i + 1;
    }
    proof {
        assert(es@.subrange(0, es@.len() as int) =~= es@);
    }
    Some(out)
}

fn read_text_list(obj: &Value, key: &str, pos: usize) -> (r: Option<Vec<String>>)
    ensures
        match r {
            Some(ts) => text_list(*obj, key@, pos as nat) == Some(ts.deep_view()),
            None => text_list(*obj, key@, pos as nat) is None,
        },
{
    match field(obj, key, pos) {
        None => {
            let out: Vec<String> = Vec::new();
            assert(out.deep_view() =~= Seq::<Seq<char>>::empty());
            Some(out)
        },
        Some(m) => match elements(m) {
            Some(es) => read_texts(es),
            None => None,
        },
    }
}

/// Reads a properties object.
pub fn read_properties(v: &Value) -> (r: Option<Properties>)
    ensures
        match r {
            Some(p) => decode_properties(*v) == Some(p@),
            None => decode_properties(*v) is None,
        },
{
    if !struct_shape(v, 14) {
        return None;
    }
    let magnitude = match read_optional_number(v, "magnitude", 0) {
        Some(x) => x,
        None => return None,
    };
    let magnitude_unit = match read_optional_text(v, "magnitude_unit", 1) {
        Some(x) => x,
        None => return None,
    };
    let brightness = match read_optional_number(v, "brightness", 2) {
        Some(x) => x,
        None => return None,
    };
    let title = match read_optional_text(v, "title", 3) {
        Some(x) => x,
        None => return None,
    };
    let place = match read_optional_text(v, "place", 4) {
        Some(x) => x,
        None => return None,
    };
    let name = match read_optional_text(v, "name", 5) {
        Some(x) => x,
        None => return None,
    };
    let source = match read_optional_text(v, "source", 6) {
        Some(x) => x,
        None => return None,
    };
    let time = match read_optional_text(v, "time", 7) {
        Some(x) => x,
        None => return None,
    };
    let detection_time = match read_optional_text(v, "detection_time", 8) {
        Some(x) => x,
        None => return None,
    };
    let date = match read_optional_text(v, "date", 9) {
        Some(x) => x,
        None => return None,
    };
    let event_id = match read_optional_text(v, "event_id", 10) {
        Some(x) => x,
        None => return None,
    };
    let link = match read_optional_text(v, "link", 11) {
        Some(x) => x,
        None => return None,
    };
    let categories = match read_text_list(v, "categories", 12) {
        Some(x) => x,
        None => return None,
    };
    let data_lineage = match read_text_list(v, "data_lineage", 13) {
        Some(x) => x,
        None => return None,
    };
    Some(
        Properties {
            magnitude,
            magnitude_unit,
            brightness,
            title,
            place,
            name,
            source,
            time,
            detection_time,
            date,
            event_id,
            link,
            categories,
            data_lineage,
        },
    )
}

fn read_coordinates(g: &Value) -> (r: Option<Vec<u64>>)
    ensures
        match r {
            Some(c) => decode_coordinates(*g) == Some(c@),
            None => decode_coordinates(*g) is None,
        },
{
    if !struct_shape(g, 1) {
        return None;
    }
    match field(g, "coordinates", 0) {
        Some(c) => match elements(c) {
            Some(es) => read_numbers(es),
            None => None,
        },
        None => None,
    }
}

/// Reads one feature object.
pub fn read_feature(v: &Value) -> (r: Option<Feature>)
    ensures
        match r {
            Some(f) => decode_feature(*v) == Some(f@),
            None => decode_feature(*v) is None,
        },
{
    if !struct_shape(v, 3) {
        return None;
    }
    let id = match read_optional_text(v, "id", 0) {
        Some(x) => x,
        None => return None,
    };
    let p = match field(v, "properties", 1) {
        Some(p) => p,
        None => return None,
    };
    let g = match field(v, "geometry", 2) {
        Some(g) => g,
        None => return None,
    };
    let properties = match read_properties(p) {
        Some(x) => x,
        None => return None,
    };
    let coordinates = match read_coordinates(g) {
        Some(x) => x,
        None => return None,
    };
    Some(Feature { id, properties, coordinates })
}

/// Reads the features of a dataset document.
pub fn read_collection(doc: &Value) -> (r: Option<Vec<Feature>>)
    ensures
        match r {
            Some(fs) => decode_collection(*doc) == Some(feature_views(fs@)),
            None => decode_collection(*doc) is None,
        },
{
    if !struct_shape(doc, 1) {
        return None;
    }
    let list = match field(doc, "features", 0) {
        Some(f) => f,
        None => return None,
    };
    let es = match elements(list) {
        Some(es) => es,
        None => return None,
    };
    let mut out: Vec<Feature> = Vec::new();
    let mut i: usize = 0;
    while i < es.len()
        invariant
            i <= es.len(),
            decode_collection(*doc) == decode_features(es@),
            decode_features(es@.subrange(0, i as int)) == Some(feature_views(out@)),
        decreases es.len() - i,
    {
        proof {
            assert(es@.subrange(0, i + 1).drop_last() =~= es@.subrange(0, i as int));
        }
        match read_feature(&es[i]) {
            Some(f) => {
                let ghost before = feature_views(out@);
                out.push(f);
                proof {
                    assert(feature_views(out@) =~= before.push(f@));
                }
            },
            None => {
                proof {
                    lemma_features_prefix_fails(es@, i as int);
                }
                return None;
            },
        }
        i = i + 1;
    }
    proof {
        assert(es@.subrange(0, es@.len() as int) =~= es@);
    }
    Some(out)
}

} // verus!
