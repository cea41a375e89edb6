//! Presentation-safe summaries of evidence records, so renderers need not
//! understand the evidence enums to display provenance.
use vstd::prelude::*;
use crate::evidence::EvidenceBearingNaturalEvent;
use crate::planetary::{measurement_view, EvidenceClass, TemporalExtent, Uncertainty};
use crate::text::{append_chars, chars_of, signed_decimal, signed_decimal_chars, string_of};
use crate::time_text::{display_pattern, format_utc_seconds, utc_calendar_text};

verus! {

/// Display fields of one evidence record.
#[derive(Debug, Clone, PartialEq)]
pub struct EventEvidenceSummary {
    pub observation_id: String,
    pub class: &'static str,
    pub source: String,
    pub resource: String,
    pub source_time: String,
    pub measurement_value: Option<String>,
    pub measurement_unit: Option<String>,
    pub uncertainty: String,
}

/// Lowercase name of an evidence class.
pub open spec fn class_name(class: EvidenceClass) -> Seq<char> {
    match class {
        EvidenceClass::Reported => "reported"@,
        EvidenceClass::Observed => "observed"@,
        EvidenceClass::Derived => "derived"@,
        EvidenceClass::Inferred => "inferred"@,
        EvidenceClass::Forecast => "forecast"@,
        EvidenceClass::Scenario => "scenario"@,
    }
}

pub fn class_label(class: EvidenceClass) -> (r: &'static str)
    ensures
        r@ == class_name(class),
{
    match class {
        EvidenceClass::Reported => "reported",
        EvidenceClass::Observed => "observed",
        EvidenceClass::Derived => "derived",
        EvidenceClass::Inferred => "inferred",
        EvidenceClass::Forecast => "forecast",
        EvidenceClass::Scenario => "scenario",
    }
}

/// UTC calendar text of Unix seconds, or `Unix <seconds>` when out of range.
pub open spec fn unix_text(seconds: i64) -> Seq<char> {
    match utc_calendar_text(seconds, display_pattern()) {
        Some(s) => s,
        None => "Unix "@ + signed_decimal(seconds as int),
    }
}

/// Text of a time extent.
pub open spec fn temporal_text(t: TemporalExtent) -> Seq<char> {
    match t {
        TemporalExtent::Unspecified => "source time not supplied"@,
        TemporalExtent::Instant(s) => unix_text(s),
        TemporalExtent::Interval { start, end } => unix_text(start) + " to "@ + unix_text(end),
    }
}

pub fn format_unix(timestamp: i64) -> (r: String)
    ensures
        r@ == unix_text(timestamp),
{
    match format_utc_seconds(timestamp, "%Y-%m-%d %H:%M:%S UTC") {
        Some(s) => s,
        None => {
            let mut out = chars_of("Unix ");
            let digits = signed_decimal_chars(timestamp);
            append_chars(&mut out, &digits);
            string_of(&out)
        },
    }
}

pub fn temporal_label(temporal: TemporalExtent) -> (r: String)
    ensures
        r@ == temporal_text(temporal),
{
    match temporal {
        TemporalExtent::Unspecified => String::from_str("source time not supplied"),
        TemporalExtent::Instant(timestamp) => format_unix(timestamp),
        TemporalExtent::Interval { start, end } => {
            let mut out = chars_of(format_unix(start).as_str());
            let middle = chars_of(" to ");
            append_chars(&mut out, &middle);
            let last = chars_of(format_unix(end).as_str());
            append_chars(&mut out, &last);
            string_of(&out)
        },
    }
}

/// Summary of a record. The texts of the measured value and of a specified
/// uncertainty are written by the caller (they are floating-point
/// formatting); the value text appears only when the record has a
/// measurement, and an unspecified uncertainty reads `not supplied`.
pub fn summarize_event_evidence(
    record: &EvidenceBearingNaturalEvent,
    measurement_value_text: String,
    uncertainty_text: String,
) -> (r: EventEvidenceSummary)
    ensures
        r.observation_id@ == record.observation.id@,
        r.class@ == class_name(record.observation.class),
        r.source@ == if record.observation.evidence@.len() > 0 {
            record.observation.evidence@[0].source_system@
        } else {
            "unknown source"@
        },
        r.resource@ == if record.observation.evidence@.len() > 0 {
            record.observation.evidence@[0].resource_id@
        } else {
            "unknown resource"@
        },
        r.source_time@ == temporal_text(record.observation.temporal),
        r.measurement_value.deep_view() == match record.observation.measurement {
            Some(_) => Some(measurement_value_text@),
            None => None,
        },
        r.measurement_unit.deep_view() == match measurement_view(record.observation.measurement) {
            Some(m) => Some(m.unit),
            None => None,
        },
        r.uncertainty@ == match record.observation.uncertainty {
            Uncertainty::Unspecified => "not supplied"@,
            _ => uncertainty_text@,
        },
{
    let observation = &record.observation;
    let (source, resource) = if observation.evidence.len() > 0 {
        (observation.evidence[0].source_system.clone(), observation.evidence[0].resource_id.clone())
    } else {
        (String::from_str("unknown source"), String::from_str("unknown resource"))
    };
    let (measurement_value, measurement_unit) = match &observation.measurement {
        Some(m) => (Some(measurement_value_text), Some(m.unit.clone())),
        None => (None, None),
    };
    let uncertainty = match observation.uncertainty {
        Uncertainty::Unspecified => String::from_str("not supplied"),
        _ => uncertainty_text,
    };
    EventEvidenceSummary {
        observation_id: observation.id.clone(),
        class: class_label(observation.class),
        source,
        resource,
        source_time: temporal_label(observation.temporal),
        measurement_value,
        measurement_unit,
        uncertainty,
    }
}

} // verus!
