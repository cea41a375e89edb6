//! Provenance-bearing claims about Atlas entities.
//!
//! Claims are separate from entity identity: several sources may describe
//! one entity, disagree, or supersede earlier observations without changing
//! the entity's identity.
use vstd::prelude::*;
use serde_json::Value;
use crate::entity::AtlasEntityId;
use crate::ieee::{f32_bits_is_finite, f32_bits_le, f32_in_closed, f32_is_finite, f32_le, F32_ONE, F32_ZERO};
use crate::types::DataKind;
use std::cmp::Ordering;

verus! {

/// Stable identity of one assertion.
#[derive(Debug, Clone, PartialEq, Eq, PartialOrd, Ord, Hash)]
pub struct ClaimId(pub String);

impl ClaimId {
    pub fn new(value: &str) -> (r: Self)
        ensures
            r.0@ == value@,
    {
        ClaimId(String::from_str(value))
    }
}

impl vstd::std_specs::convert::FromSpecImpl<&str> for ClaimId {
    open spec fn obeys_from_spec() -> bool {
        false
    }

    open spec fn from_spec(v: &str) -> ClaimId {
        arbitrary()
    }
}

impl From<&str> for ClaimId {
    fn from(value: &str) -> (r: Self)
        ensures
            r.0@ == value@,
    {
        Self::new(value)
    }
}

impl vstd::std_specs::convert::FromSpecImpl<String> for ClaimId {
    open spec fn obeys_from_spec() -> bool {
        true
    }

    open spec fn from_spec(v: String) -> ClaimId {
        ClaimId(v)
    }
}

impl From<String> for ClaimId {
    fn from(value: String) -> (r: Self)
        ensures
            r == ClaimId(value),
    {
        ClaimId(value)
    }
}

/// How an assertion relates to evidence and reality.
///
/// `Verified` means the supplied evidence passed its stated checks; it grants
/// no authority over the subject entity.
#[derive(Debug, Clone, Copy, PartialEq, Eq, Hash, Structural)]
pub enum EvidenceClass {
    Observed,
    Verified,
    Curated,
    Estimated,
    Predicted,
    Contested,
    Scenario,
}

/// The claim class of a layer-level data kind.
pub open spec fn class_of_kind(kind: DataKind) -> EvidenceClass {
    match kind {
        DataKind::Observed => EvidenceClass::Observed,
        DataKind::Curated => EvidenceClass::Curated,
        DataKind::Scenario => EvidenceClass::Scenario,
    }
}

impl vstd::std_specs::convert::FromSpecImpl<DataKind> for EvidenceClass {
    open spec fn obeys_from_spec() -> bool {
        true
    }

    open spec fn from_spec(v: DataKind) -> EvidenceClass {
        class_of_kind(v)
    }
}

impl From<DataKind> for EvidenceClass {
    fn from(value: DataKind) -> (r: Self) {
        match value {
            DataKind::Observed => EvidenceClass::Observed,
            DataKind::Curated => EvidenceClass::Curated,
            DataKind::Scenario => EvidenceClass::Scenario,
        }
    }
}

/// The bridge from layer-level kinds to claim classes loses nothing: distinct
/// kinds give distinct classes, and each kind keeps its name.
pub proof fn kind_bridge_is_lossless(a: DataKind, b: DataKind)
    ensures
        class_of_kind(a) == class_of_kind(b) ==> a == b,
        class_of_kind(DataKind::Observed) == EvidenceClass::Observed,
        class_of_kind(DataKind::Curated) == EvidenceClass::Curated,
        class_of_kind(DataKind::Scenario) == EvidenceClass::Scenario,
{
}

/// A confidence value accepted by [`Confidence::new`]: within `[0, 1]`
/// (binary32 bit pattern; `-0.0` is accepted as it compares equal to `0.0`).
pub open spec fn valid_confidence(bits: u32) -> bool {
    f32_in_closed(F32_ZERO, bits, F32_ONE)
}

/// Confidence constrained to the inclusive interval `[0, 1]`, held as the
/// bit pattern of a binary32 value.
#[derive(Debug, Clone, Copy)]
pub struct Confidence(u32);

/// Rejected confidence value.
#[derive(Debug, Clone, Copy, PartialEq, Eq, Structural)]
pub enum ConfidenceError {
    NonFinite,
    OutOfRange,
}

impl ConfidenceError {
    /// Human-readable description of the error.
    pub fn message(&self) -> (r: &'static str)
        ensures
            r@ == match self {
                ConfidenceError::NonFinite => "confidence must be finite"@,
                ConfidenceError::OutOfRange => "confidence must be within [0, 1]"@,
            },
    {
        match self {
            ConfidenceError::NonFinite => "confidence must be finite",
            ConfidenceError::OutOfRange => "confidence must be within [0, 1]",
        }
    }
}

impl Confidence {
    #[verifier::type_invariant]
    spec fn well_formed(self) -> bool {
        valid_confidence(self.0)
    }

    /// The bit pattern held.
    pub closed spec fn bits(self) -> u32 {
        self.0
    }

    /// Accepts a binary32 value (given by its bits) that is finite and within
    /// `[0, 1]`.
    pub fn new(value: u32) -> (r: Result<Self, ConfidenceError>)
        ensures
            match r {
                Ok(c) => valid_confidence(value) && c.bits() == value,
                Err(ConfidenceError::NonFinite) => !f32_is_finite(value),
                Err(ConfidenceError::OutOfRange) => f32_is_finite(value) && !valid_confidence(value),
            },
    {
        if !f32_bits_is_finite(value) {
            return Err(ConfidenceError::NonFinite);
        }
        if !(f32_bits_le(F32_ZERO, value) && f32_bits_le(value, F32_ONE)) {
            return Err(ConfidenceError::OutOfRange);
        }
        Ok(Confidence(value))
    }

    /// Full confidence, `1.0`.
    pub fn certain() -> (r: Self)
        ensures
            r.bits() == F32_ONE,
    {
        Confidence(F32_ONE)
    }

    /// The binary32 bits of the value.
    pub fn value(self) -> (r: u32)
        ensures
            r == self.bits(),
            valid_confidence(r),
    {
        proof {
            use_type_invariant(&self);
        }
        self.0
    }
}

/// Numeric order of two confidences: `None` never occurs, as no confidence
/// is NaN.
pub open spec fn confidence_order(a: Confidence, b: Confidence) -> Option<Ordering> {
    if f32_le(a.bits(), b.bits()) {
        if f32_le(b.bits(), a.bits()) {
            Some(Ordering::Equal)
        } else {
            Some(Ordering::Less)
        }
    } else if f32_le(b.bits(), a.bits()) {
        Some(Ordering::Greater)
    } else {
        None
    }
}

/// Confidences compare as numbers, so `-0.0` equals `0.0`.
impl PartialEq for Confidence {
    fn eq(&self, other: &Self) -> (r: bool) {
        f32_bits_le(self.0, other.0) && f32_bits_le(other.0, self.0)
    }
}

impl vstd::std_specs::cmp::PartialEqSpecImpl for Confidence {
    open spec fn obeys_eq_spec() -> bool {
        true
    }

    open spec fn eq_spec(&self, other: &Confidence) -> bool {
        f32_le(self.bits(), other.bits()) && f32_le(other.bits(), self.bits())
    }
}

impl PartialOrd for Confidence {
    fn partial_cmp(&self, other: &Self) -> (r: Option<Ordering>) {
        if f32_bits_le(self.0, other.0) {
            if f32_bits_le(other.0, self.0) {
                Some(Ordering::Equal)
            } else {
                Some(Ordering::Less)
            }
        } else if f32_bits_le(other.0, self.0) {
            Some(Ordering::Greater)
        } else {
            None
        }
    }
}

impl vstd::std_specs::cmp::PartialOrdSpecImpl for Confidence {
    open spec fn obeys_partial_cmp_spec() -> bool {
        true
    }

    open spec fn partial_cmp_spec(&self, other: &Confidence) -> Option<Ordering> {
        confidence_order(*self, *other)
    }
}

/// Optional authority context of a claim. Absence is meaningful: evidence
/// can be useful without any right to command or govern the entity.
#[derive(Debug, Clone, PartialEq, Eq)]
pub struct AuthorityRef {
    pub authority_id: String,
    pub capability: Option<String>,
    pub jurisdiction: Option<String>,
}

/// Where a claim came from and how it was produced.
#[derive(Debug, Clone, PartialEq, Eq)]
pub struct Provenance {
    pub source: String,
    pub source_record_id: Option<String>,
    pub source_uri: Option<String>,
    pub evidence_class: EvidenceClass,
    pub observed_at_unix_ms: Option<i64>,
    pub ingested_at_unix_ms: Option<i64>,
    pub method: Option<String>,
}

impl Provenance {
    pub fn new(source: &str, evidence_class: EvidenceClass) -> (r: Self)
        ensures
            r.source@ == source@,
            r.evidence_class == evidence_class,
            r.source_record_id is None,
            r.source_uri is None,
            r.observed_at_unix_ms is None,
            r.ingested_at_unix_ms is None,
            r.method is None,
    {
        Provenance {
            source: String::from_str(source),
            source_record_id: None,
            source_uri: None,
            evidence_class,
            observed_at_unix_ms: None,
            ingested_at_unix_ms: None,
            method: None,
        }
    }
}

/// Lifecycle state of a claim; historical claims stay addressable.
#[derive(Debug, Clone, PartialEq, Eq)]
pub enum ClaimStatus {
    Active,
    Retracted { reason: String },
    Superseded { by: ClaimId },
}

/// One assertion about one Atlas entity.
#[derive(Debug, Clone, PartialEq)]
pub struct AtlasClaim {
    pub id: ClaimId,
    pub subject: AtlasEntityId,
    /// Open predicate vocabulary, e.g. `icu_beds_available`, `operator`.
    pub predicate: String,
    pub value: Value,
    pub confidence: Confidence,
    pub provenance: Provenance,
    pub authority: Option<AuthorityRef>,
    pub status: ClaimStatus,
}

impl AtlasClaim {
    /// A new active claim with no authority context.
    pub fn new(
        id: ClaimId,
        subject: AtlasEntityId,
        predicate: &str,
        value: Value,
        confidence: Confidence,
        provenance: Provenance,
    ) -> (r: Self)
        ensures
            r.id == id,
            r.subject == subject,
            r.predicate@ == predicate@,
            r.value == value,
            r.confidence == confidence,
            r.provenance == provenance,
            r.authority is None,
            r.status == ClaimStatus::Active,
    {
        AtlasClaim {
            id,
            subject,
            predicate: String::from_str(predicate),
            value,
            confidence,
            provenance,
            authority: None,
            status: ClaimStatus::Active,
        }
    }
}

} // verus!
