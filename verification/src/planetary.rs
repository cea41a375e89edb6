//! Planetary-evidence records: what a source says it observed, where, when,
//! how it was measured and which external records back it.
//!
//! Measurement values and uncertainty bounds are binary64 bit patterns.
use vstd::prelude::*;
use crate::entity::SpatialExtent;
use crate::ieee::{f64_bits_is_finite, f64_is_finite};

verus! {

/// How an environmental record relates to the physical world.
#[derive(Debug, Clone, Copy, PartialEq, Eq, Hash, Structural)]
pub enum EvidenceClass {
    /// A human or expert report.
    Reported,
    /// A direct instrument or satellite observation.
    Observed,
    /// A product computed from other observations.
    Derived,
    /// A model inference.
    Inferred,
    /// A prediction of the future.
    Forecast,
    /// A synthetic or planning scenario.
    Scenario,
}

/// When an observation applies (Unix seconds).
#[derive(Debug, Clone, Copy, PartialEq, Eq, Structural)]
pub enum TemporalExtent {
    Unspecified,
    Instant(i64),
    Interval { start: i64, end: i64 },
}

impl TemporalExtent {
    pub fn instant(timestamp: i64) -> (r: Self)
        ensures
            r == TemporalExtent::Instant(timestamp),
    {
        TemporalExtent::Instant(timestamp)
    }
}

/// Uncertainty of a measurement (bounds are binary64 bit patterns).
#[derive(Debug, Clone, Copy, PartialEq, Eq, Structural)]
pub enum Uncertainty {
    Unspecified,
    Interval { lower: u64, upper: u64, confidence: Option<u64> },
    StandardDeviation(u64),
}

/// Rejected evidence input.
#[derive(Debug, Clone, Copy, PartialEq, Eq, Structural)]
pub enum EvidenceError {
    NonFiniteMeasurement,
    EmptyUnit,
    EmptyObservationId,
    EmptyPhenomenon,
    MissingEvidence,
}

/// A scalar measurement with its unit.
#[derive(Debug, Clone, PartialEq)]
pub struct Measurement {
    pub value: u64,
    pub unit: String,
}

pub struct MeasurementModel {
    pub value: u64,
    pub unit: Seq<char>,
}

impl View for Measurement {
    type V = MeasurementModel;

    open spec fn view(&self) -> MeasurementModel {
        MeasurementModel { value: self.value, unit: self.unit@ }
    }
}

/// A measurement is accepted when its value is finite and its unit is named.
pub open spec fn measurement_accepted(value: u64, unit: Seq<char>) -> bool {
    f64_is_finite(value) && unit.len() > 0
}

impl Measurement {
    pub fn new(value: u64, unit: &str) -> (r: Result<Self, EvidenceError>)
        ensures
            match r {
                Ok(m) => measurement_accepted(value, unit@) && m@ == (MeasurementModel {
                    value,
                    unit: unit@,
                }),
                Err(EvidenceError::NonFiniteMeasurement) => !f64_is_finite(value),
                Err(EvidenceError::EmptyUnit) => f64_is_finite(value) && unit@.len() == 0,
                Err(_) => false,
            },
    {
        if !f64_bits_is_finite(value) {
            return Err(EvidenceError::NonFiniteMeasurement);
        }
        if unit.is_empty() {
            return Err(EvidenceError::EmptyUnit);
        }
        Ok(Measurement { value, unit: String::from_str(unit) })
    }
}

/// A pointer to the external record backing an observation.
#[derive(Debug, Clone, PartialEq)]
pub struct ExternalEvidenceRef {
    pub source_system: String,
    pub resource_id: String,
    pub content_digest: Option<String>,
    pub retrieved_at: Option<i64>,
    pub license: Option<String>,
}

pub struct ExternalEvidenceRefModel {
    pub source_system: Seq<char>,
    pub resource_id: Seq<char>,
    pub content_digest: Option<Seq<char>>,
    pub retrieved_at: Option<i64>,
    pub license: Option<Seq<char>>,
}

impl View for ExternalEvidenceRef {
    type V = ExternalEvidenceRefModel;

    open spec fn view(&self) -> ExternalEvidenceRefModel {
        ExternalEvidenceRefModel {
            source_system: self.source_system@,
            resource_id: self.resource_id@,
            content_digest: self.content_digest.deep_view(),
            retrieved_at: self.retrieved_at,
            license: self.license.deep_view(),
        }
    }
}

/// One environmental observation with its provenance.
#[derive(Debug, Clone, PartialEq)]
pub struct EnvironmentalObservation {
    pub id: String,
    pub phenomenon: String,
    pub class: EvidenceClass,
    pub measurement: Option<Measurement>,
    pub spatial: SpatialExtent,
    pub temporal: TemporalExtent,
    pub uncertainty: Uncertainty,
    pub evidence: Vec<ExternalEvidenceRef>,
}

pub struct EnvironmentalObservationModel {
    pub id: Seq<char>,
    pub phenomenon: Seq<char>,
    pub class: EvidenceClass,
    pub measurement: Option<MeasurementModel>,
    pub spatial: SpatialExtent,
    pub temporal: TemporalExtent,
    pub uncertainty: Uncertainty,
    pub evidence: Seq<ExternalEvidenceRefModel>,
}

pub open spec fn measurement_view(m: Option<Measurement>) -> Option<MeasurementModel> {
    match m {
        Some(x) => Some(x@),
        None => None,
    }
}

pub open spec fn evidence_views(v: Seq<ExternalEvidenceRef>) -> Seq<ExternalEvidenceRefModel> {
    v.map_values(|r: ExternalEvidenceRef| r@)
}

impl View for EnvironmentalObservation {
    type V = EnvironmentalObservationModel;

    open spec fn view(&self) -> EnvironmentalObservationModel {
        EnvironmentalObservationModel {
            id: self.id@,
            phenomenon: self.phenomenon@,
            class: self.class,
            measurement: measurement_view(self.measurement),
            spatial: self.spatial,
            temporal: self.temporal,
            uncertainty: self.uncertainty,
            evidence: evidence_views(self.evidence@),
        }
    }
}

impl EnvironmentalObservation {
    /// An observation needs an id, a named phenomenon and at least one
    /// backing record; the checks run in that order.
    pub fn new(
        id: String,
        phenomenon: &str,
        class: EvidenceClass,
        measurement: Option<Measurement>,
        spatial: SpatialExtent,
        temporal: TemporalExtent,
        uncertainty: Uncertainty,
        evidence: Vec<ExternalEvidenceRef>,
    ) -> (r: Result<Self, EvidenceError>)
        ensures
            match r {
                Ok(o) => id@.len() > 0 && phenomenon@.len() > 0 && evidence@.len() > 0 && o@ == (
                EnvironmentalObservationModel {
                    id: id@,
                    phenomenon: phenomenon@,
                    class,
                    measurement: measurement_view(measurement),
                    spatial,
                    temporal,
                    uncertainty,
                    evidence: evidence_views(evidence@),
                }),
                Err(EvidenceError::EmptyObservationId) => id@.len() == 0,
                Err(EvidenceError::EmptyPhenomenon) => id@.len() > 0 && phenomenon@.len() == 0,
                Err(EvidenceError::MissingEvidence) => id@.len() > 0 && phenomenon@.len() > 0
                    && evidence@.len() == 0,
                Err(_) => false,
            },
    {
        if id.as_str().is_empty() {
            return Err(EvidenceError::EmptyObservationId);
        }
        if phenomenon.is_empty() {
            return Err(EvidenceError::EmptyPhenomenon);
        }
        if evidence.len() == 0 {
            return Err(EvidenceError::MissingEvidence);
        }
        Ok(
            EnvironmentalObservation {
                id,
                phenomenon: String::from_str(phenomenon),
                class,
                measurement,
                spatial,
                temporal,
                uncertainty,
                evidence,
            },
        )
    }
}

} // verus!
