//! Domain types and their mathematical views.
#![allow(unused_imports)]

use vstd::prelude::*;

use crate::model::{Duplicate, SameView, Plain, copy_plain_vec, same_plain_vec};
use crate::{AnalysisAttempt, AnalysisResult, AnalysisResultView, ContentKey, ContentKeyView, DecodeMode, DurationMs, FailureFacts, FailureFactsView, Operation, RunId, SearchMeasurement, ToolRevisions, ToolRevisionsView, UnixMillis, VideoCodec, VideoCodecView, VmafTarget};

verus! {

/// The source as identified by content; width and height are post-rotation.
#[derive(Clone, Debug, PartialEq, Eq)]
pub struct SourceFacts {
    pub content_key: ContentKey,
    pub codec: VideoCodec,
    pub width: u32,
    pub height: u32,
    pub duration_ms: u64,
    pub size_bytes: u64,
}

/// The mathematical value of a [`SourceFacts`].
pub struct SourceFactsView {
    pub content_key: ContentKeyView,
    pub codec: VideoCodecView,
    pub width: u32,
    pub height: u32,
    pub duration_ms: u64,
    pub size_bytes: u64,
}

impl View for SourceFacts {
    type V = SourceFactsView;

    open spec fn view(&self) -> SourceFactsView {
        SourceFactsView {
            content_key: self.content_key@,
            codec: self.codec@,
            width: self.width,
            height: self.height,
            duration_ms: self.duration_ms,
            size_bytes: self.size_bytes,
        }
    }
}

impl Duplicate for SourceFacts {
    fn duplicate(&self) -> (copy: Self) {
        SourceFacts {
            content_key: self.content_key.duplicate(),
            codec: self.codec.duplicate(),
            width: self.width,
            height: self.height,
            duration_ms: self.duration_ms,
            size_bytes: self.size_bytes,
        }
    }
}

impl SameView for SourceFacts {
    fn same_view(&self, other: &Self) -> (same: bool) {
        (self.content_key.same_view(&other.content_key))
            && (self.codec.same_view(&other.codec))
            && (self.width == other.width)
            && (self.height == other.height)
            && (self.duration_ms == other.duration_ms)
            && (self.size_bytes == other.size_bytes)
    }
}

/// How the source compared across a phase's read interval.
#[derive(Clone, Copy, Debug, PartialEq, Eq, Structural)]
pub enum SourceAssessment {
    Matched,
    IdentityDiffers,
    PropertiesChanged,
    Absent,
    Unassessable,
}

impl View for SourceAssessment {
    type V = SourceAssessment;

    open spec fn view(&self) -> SourceAssessment {
        *self
    }
}

impl Duplicate for SourceAssessment {
    fn duplicate(&self) -> (copy: Self) {
        *self
    }
}

impl SameView for SourceAssessment {
    fn same_view(&self, other: &Self) -> (same: bool) {
        *self == *other
    }
}

impl Plain for SourceAssessment {
    proof fn lemma_view_is_self(&self) {
    }
}

/// What a quality search claimed.
#[derive(Clone, Debug, PartialEq, Eq)]
pub struct SearchEvidence {
    pub analysis: AnalysisResult,
    pub duration: Option<DurationMs>,
    pub assessment: Option<SourceAssessment>,
}

/// The mathematical value of a [`SearchEvidence`].
pub struct SearchEvidenceView {
    pub analysis: AnalysisResultView,
    pub duration: Option<DurationMs>,
    pub assessment: Option<SourceAssessment>,
}

impl View for SearchEvidence {
    type V = SearchEvidenceView;

    open spec fn view(&self) -> SearchEvidenceView {
        SearchEvidenceView {
            analysis: self.analysis@,
            duration: self.duration,
            assessment: self.assessment,
        }
    }
}

impl Duplicate for SearchEvidence {
    fn duplicate(&self) -> (copy: Self) {
        SearchEvidence {
            analysis: self.analysis.duplicate(),
            duration: self.duration,
            assessment: self.assessment,
        }
    }
}

impl SameView for SearchEvidence {
    fn same_view(&self, other: &Self) -> (same: bool) {
        (self.analysis.same_view(&other.analysis))
            && (self.duration == other.duration)
            && (self.assessment == other.assessment)
    }
}

/// Both byte sizes of one produced output.
#[derive(Clone, Copy, Debug, PartialEq, Eq, Structural)]
pub struct MeasuredSizes {
    pub input: u64,
    pub output: u64,
}

impl View for MeasuredSizes {
    type V = MeasuredSizes;

    open spec fn view(&self) -> MeasuredSizes {
        *self
    }
}

impl Duplicate for MeasuredSizes {
    fn duplicate(&self) -> (copy: Self) {
        *self
    }
}

impl SameView for MeasuredSizes {
    fn same_view(&self, other: &Self) -> (same: bool) {
        *self == *other
    }
}

impl Plain for MeasuredSizes {
    proof fn lemma_view_is_self(&self) {
    }
}

/// What a finished encode measured.
#[derive(Clone, Copy, Debug, PartialEq, Eq, Structural)]
pub enum EncodeMeasurement {
    Live { sizes: MeasuredSizes, decode: DecodeMode },
    Recovered { sizes: Option<MeasuredSizes> },
}

impl View for EncodeMeasurement {
    type V = EncodeMeasurement;

    open spec fn view(&self) -> EncodeMeasurement {
        *self
    }
}

impl Duplicate for EncodeMeasurement {
    fn duplicate(&self) -> (copy: Self) {
        *self
    }
}

impl SameView for EncodeMeasurement {
    fn same_view(&self, other: &Self) -> (same: bool) {
        *self == *other
    }
}

impl Plain for EncodeMeasurement {
    proof fn lemma_view_is_self(&self) {
    }
}

/// What a finished encode measured, with its duration.
#[derive(Clone, Debug, PartialEq, Eq)]
pub struct EncodeEvidence {
    pub measurement: EncodeMeasurement,
    pub duration: Option<DurationMs>,
    pub output_content_key: Option<ContentKey>,
    pub assessment: Option<SourceAssessment>,
}

/// The mathematical value of a [`EncodeEvidence`].
pub struct EncodeEvidenceView {
    pub measurement: EncodeMeasurement,
    pub duration: Option<DurationMs>,
    pub output_content_key: Option<ContentKeyView>,
    pub assessment: Option<SourceAssessment>,
}

impl View for EncodeEvidence {
    type V = EncodeEvidenceView;

    open spec fn view(&self) -> EncodeEvidenceView {
        EncodeEvidenceView {
            measurement: self.measurement,
            duration: self.duration,
            output_content_key: match self.output_content_key { Some(x) => Some(x@), None => None },
            assessment: self.assessment,
        }
    }
}

impl Duplicate for EncodeEvidence {
    fn duplicate(&self) -> (copy: Self) {
        EncodeEvidence {
            measurement: self.measurement,
            duration: self.duration,
            output_content_key: match &self.output_content_key { Some(x) => Some(x.duplicate()), None => None },
            assessment: self.assessment,
        }
    }
}

impl SameView for EncodeEvidence {
    fn same_view(&self, other: &Self) -> (same: bool) {
        (self.measurement == other.measurement)
            && (self.duration == other.duration)
            && (match (&self.output_content_key, &other.output_content_key) { (Some(x), Some(y)) => (*x).same_view(&(*y)), (None, None) => true, _ => false })
            && (self.assessment == other.assessment)
    }
}

/// What a finished remux measured.
#[derive(Clone, Copy, Debug, PartialEq, Eq, Structural)]
pub enum RemuxMeasurement {
    Live { sizes: MeasuredSizes },
    Recovered { sizes: Option<MeasuredSizes> },
}

impl View for RemuxMeasurement {
    type V = RemuxMeasurement;

    open spec fn view(&self) -> RemuxMeasurement {
        *self
    }
}

impl Duplicate for RemuxMeasurement {
    fn duplicate(&self) -> (copy: Self) {
        *self
    }
}

impl SameView for RemuxMeasurement {
    fn same_view(&self, other: &Self) -> (same: bool) {
        *self == *other
    }
}

impl Plain for RemuxMeasurement {
    proof fn lemma_view_is_self(&self) {
    }
}

/// What a finished remux measured.
#[derive(Clone, Debug, PartialEq, Eq)]
pub struct RemuxEvidence {
    pub measurement: RemuxMeasurement,
    pub output_content_key: Option<ContentKey>,
    pub assessment: Option<SourceAssessment>,
}

/// The mathematical value of a [`RemuxEvidence`].
pub struct RemuxEvidenceView {
    pub measurement: RemuxMeasurement,
    pub output_content_key: Option<ContentKeyView>,
    pub assessment: Option<SourceAssessment>,
}

impl View for RemuxEvidence {
    type V = RemuxEvidenceView;

    open spec fn view(&self) -> RemuxEvidenceView {
        RemuxEvidenceView {
            measurement: self.measurement,
            output_content_key: match self.output_content_key { Some(x) => Some(x@), None => None },
            assessment: self.assessment,
        }
    }
}

impl Duplicate for RemuxEvidence {
    fn duplicate(&self) -> (copy: Self) {
        RemuxEvidence {
            measurement: self.measurement,
            output_content_key: match &self.output_content_key { Some(x) => Some(x.duplicate()), None => None },
            assessment: self.assessment,
        }
    }
}

impl SameView for RemuxEvidence {
    fn same_view(&self, other: &Self) -> (same: bool) {
        (self.measurement == other.measurement)
            && (match (&self.output_content_key, &other.output_content_key) { (Some(x), Some(y)) => (*x).same_view(&(*y)), (None, None) => true, _ => false })
            && (self.assessment == other.assessment)
    }
}

/// What a run concluded, carrying only the evidence that outcome can hold.
#[derive(Clone, Debug, PartialEq, Eq)]
pub enum ObservedOutcome {
    Analyzed { search: SearchEvidence },
    Converted { search: SearchEvidence, encode: EncodeEvidence },
    Remuxed { remux: RemuxEvidence },
    NotWorthwhile { requested: VmafTarget, floor: VmafTarget, attempts: Vec<AnalysisAttempt> },
    Failed { facts: FailureFacts },
    Stopped,
}

/// The mathematical value of a [`ObservedOutcome`].
pub enum ObservedOutcomeView {
    Analyzed { search: SearchEvidenceView },
    Converted { search: SearchEvidenceView, encode: EncodeEvidenceView },
    Remuxed { remux: RemuxEvidenceView },
    NotWorthwhile { requested: VmafTarget, floor: VmafTarget, attempts: Seq<AnalysisAttempt> },
    Failed { facts: FailureFactsView },
    Stopped,
}

impl View for ObservedOutcome {
    type V = ObservedOutcomeView;

    open spec fn view(&self) -> ObservedOutcomeView {
        match self {
            ObservedOutcome::Analyzed { search } => ObservedOutcomeView::Analyzed { search: search@ },
            ObservedOutcome::Converted { search, encode } => ObservedOutcomeView::Converted { search: search@, encode: encode@ },
            ObservedOutcome::Remuxed { remux } => ObservedOutcomeView::Remuxed { remux: remux@ },
            ObservedOutcome::NotWorthwhile { requested, floor, attempts } => ObservedOutcomeView::NotWorthwhile { requested: *requested, floor: *floor, attempts: attempts@ },
            ObservedOutcome::Failed { facts } => ObservedOutcomeView::Failed { facts: facts@ },
            ObservedOutcome::Stopped => ObservedOutcomeView::Stopped,
        }
    }
}

impl Duplicate for ObservedOutcome {
    fn duplicate(&self) -> (copy: Self) {
        match self {
            ObservedOutcome::Analyzed { search } => ObservedOutcome::Analyzed { search: (*search).duplicate() },
            ObservedOutcome::Converted { search, encode } => ObservedOutcome::Converted { search: (*search).duplicate(), encode: (*encode).duplicate() },
            ObservedOutcome::Remuxed { remux } => ObservedOutcome::Remuxed { remux: (*remux).duplicate() },
            ObservedOutcome::NotWorthwhile { requested, floor, attempts } => ObservedOutcome::NotWorthwhile { requested: *requested, floor: *floor, attempts: copy_plain_vec(&(*attempts)) },
            ObservedOutcome::Failed { facts } => ObservedOutcome::Failed { facts: (*facts).duplicate() },
            ObservedOutcome::Stopped => ObservedOutcome::Stopped,
        }
    }
}

impl SameView for ObservedOutcome {
    fn same_view(&self, other: &Self) -> (same: bool) {
        match (self, other) {
            (ObservedOutcome::Analyzed { search: a_search }, ObservedOutcome::Analyzed { search: b_search }) => ((*a_search).same_view(&(*b_search))),
            (ObservedOutcome::Converted { search: a_search, encode: a_encode }, ObservedOutcome::Converted { search: b_search, encode: b_encode }) => ((*a_search).same_view(&(*b_search))) && ((*a_encode).same_view(&(*b_encode))),
            (ObservedOutcome::Remuxed { remux: a_remux }, ObservedOutcome::Remuxed { remux: b_remux }) => ((*a_remux).same_view(&(*b_remux))),
            (ObservedOutcome::NotWorthwhile { requested: a_requested, floor: a_floor, attempts: a_attempts }, ObservedOutcome::NotWorthwhile { requested: b_requested, floor: b_floor, attempts: b_attempts }) => (*a_requested == *b_requested) && (*a_floor == *b_floor) && (same_plain_vec(&(*a_attempts), &(*b_attempts))),
            (ObservedOutcome::Failed { facts: a_facts }, ObservedOutcome::Failed { facts: b_facts }) => ((*a_facts).same_view(&(*b_facts))),
            (ObservedOutcome::Stopped, ObservedOutcome::Stopped) => true,
            _ => false,
        }
    }
}

/// One terminal run.
#[derive(Clone, Debug, PartialEq, Eq)]
pub struct Observation {
    pub run_id: RunId,
    pub operation: Operation,
    pub source: Option<SourceFacts>,
    pub revisions: ToolRevisions,
    pub outcome: ObservedOutcome,
    pub started_at: Option<UnixMillis>,
    pub finished_at: Option<UnixMillis>,
}

/// The mathematical value of a [`Observation`].
pub struct ObservationView {
    pub run_id: RunId,
    pub operation: Operation,
    pub source: Option<SourceFactsView>,
    pub revisions: ToolRevisionsView,
    pub outcome: ObservedOutcomeView,
    pub started_at: Option<UnixMillis>,
    pub finished_at: Option<UnixMillis>,
}

impl View for Observation {
    type V = ObservationView;

    open spec fn view(&self) -> ObservationView {
        ObservationView {
            run_id: self.run_id,
            operation: self.operation,
            source: match self.source { Some(x) => Some(x@), None => None },
            revisions: self.revisions@,
            outcome: self.outcome@,
            started_at: self.started_at,
            finished_at: self.finished_at,
        }
    }
}

impl Duplicate for Observation {
    fn duplicate(&self) -> (copy: Self) {
        Observation {
            run_id: self.run_id,
            operation: self.operation,
            source: match &self.source { Some(x) => Some(x.duplicate()), None => None },
            revisions: self.revisions.duplicate(),
            outcome: self.outcome.duplicate(),
            started_at: self.started_at,
            finished_at: self.finished_at,
        }
    }
}

impl SameView for Observation {
    fn same_view(&self, other: &Self) -> (same: bool) {
        (self.run_id == other.run_id)
            && (self.operation == other.operation)
            && (match (&self.source, &other.source) { (Some(x), Some(y)) => (*x).same_view(&(*y)), (None, None) => true, _ => false })
            && (self.revisions.same_view(&other.revisions))
            && (self.outcome.same_view(&other.outcome))
            && (self.started_at == other.started_at)
            && (self.finished_at == other.finished_at)
    }
}

/// What a decisive observation concluded about its content.
#[derive(Clone, Copy, Debug, PartialEq, Eq, Structural)]
pub enum DecisiveKind {
    Converted,
    Remuxed,
    NotWorthwhile { requested: VmafTarget, floor: VmafTarget },
}

impl View for DecisiveKind {
    type V = DecisiveKind;

    open spec fn view(&self) -> DecisiveKind {
        *self
    }
}

impl Duplicate for DecisiveKind {
    fn duplicate(&self) -> (copy: Self) {
        *self
    }
}

impl SameView for DecisiveKind {
    fn same_view(&self, other: &Self) -> (same: bool) {
        *self == *other
    }
}

impl Plain for DecisiveKind {
    proof fn lemma_view_is_self(&self) {
    }
}

/// An observation that decides the standing of its content.
#[derive(Clone, Debug, PartialEq, Eq)]
pub struct DecisiveFact {
    pub content_key: ContentKey,
    pub kind: DecisiveKind,
    pub finished_at: Option<UnixMillis>,
}

/// The mathematical value of a [`DecisiveFact`].
pub struct DecisiveFactView {
    pub content_key: ContentKeyView,
    pub kind: DecisiveKind,
    pub finished_at: Option<UnixMillis>,
}

impl View for DecisiveFact {
    type V = DecisiveFactView;

    open spec fn view(&self) -> DecisiveFactView {
        DecisiveFactView {
            content_key: self.content_key@,
            kind: self.kind,
            finished_at: self.finished_at,
        }
    }
}

impl Duplicate for DecisiveFact {
    fn duplicate(&self) -> (copy: Self) {
        DecisiveFact {
            content_key: self.content_key.duplicate(),
            kind: self.kind,
            finished_at: self.finished_at,
        }
    }
}

impl SameView for DecisiveFact {
    fn same_view(&self, other: &Self) -> (same: bool) {
        (self.content_key.same_view(&other.content_key))
            && (self.kind == other.kind)
            && (self.finished_at == other.finished_at)
    }
}

/// Kind of produced output.
#[derive(Clone, Copy, Debug, PartialEq, Eq, Structural)]
pub enum OutputKind {
    Converted,
    Remuxed,
}

impl View for OutputKind {
    type V = OutputKind;

    open spec fn view(&self) -> OutputKind {
        *self
    }
}

impl Duplicate for OutputKind {
    fn duplicate(&self) -> (copy: Self) {
        *self
    }
}

impl SameView for OutputKind {
    fn same_view(&self, other: &Self) -> (same: bool) {
        *self == *other
    }
}

impl Plain for OutputKind {
    proof fn lemma_view_is_self(&self) {
    }
}

/// A produced output with both sizes measured on a matched source.
#[derive(Clone, Debug, PartialEq, Eq)]
pub struct ReductionFact {
    pub source: SourceFacts,
    pub kind: OutputKind,
    pub sizes: MeasuredSizes,
    pub finished_at: Option<UnixMillis>,
    pub search: Option<AnalysisResult>,
}

/// The mathematical value of a [`ReductionFact`].
pub struct ReductionFactView {
    pub source: SourceFactsView,
    pub kind: OutputKind,
    pub sizes: MeasuredSizes,
    pub finished_at: Option<UnixMillis>,
    pub search: Option<AnalysisResultView>,
}

impl View for ReductionFact {
    type V = ReductionFactView;

    open spec fn view(&self) -> ReductionFactView {
        ReductionFactView {
            source: self.source@,
            kind: self.kind,
            sizes: self.sizes,
            finished_at: self.finished_at,
            search: match self.search { Some(x) => Some(x@), None => None },
        }
    }
}

impl Duplicate for ReductionFact {
    fn duplicate(&self) -> (copy: Self) {
        ReductionFact {
            source: self.source.duplicate(),
            kind: self.kind,
            sizes: self.sizes,
            finished_at: self.finished_at,
            search: match &self.search { Some(x) => Some(x.duplicate()), None => None },
        }
    }
}

impl SameView for ReductionFact {
    fn same_view(&self, other: &Self) -> (same: bool) {
        (self.source.same_view(&other.source))
            && (self.kind == other.kind)
            && (self.sizes == other.sizes)
            && (self.finished_at == other.finished_at)
            && (match (&self.search, &other.search) { (Some(x), Some(y)) => (*x).same_view(&(*y)), (None, None) => true, _ => false })
    }
}

/// Measured wall time of one phase over one source.
#[derive(Clone, Debug, PartialEq, Eq)]
pub struct RateSample {
    pub source: SourceFacts,
    pub elapsed: DurationMs,
}

/// The mathematical value of a [`RateSample`].
pub struct RateSampleView {
    pub source: SourceFactsView,
    pub elapsed: DurationMs,
}

impl View for RateSample {
    type V = RateSampleView;

    open spec fn view(&self) -> RateSampleView {
        RateSampleView {
            source: self.source@,
            elapsed: self.elapsed,
        }
    }
}

impl Duplicate for RateSample {
    fn duplicate(&self) -> (copy: Self) {
        RateSample {
            source: self.source.duplicate(),
            elapsed: self.elapsed,
        }
    }
}

impl SameView for RateSample {
    fn same_view(&self, other: &Self) -> (same: bool) {
        (self.source.same_view(&other.source))
            && (self.elapsed == other.elapsed)
    }
}

/// A prediction and the measurement that tests it, from the same run.
#[derive(Clone, Debug, PartialEq, Eq)]
pub struct PredictionPair {
    pub source: SourceFacts,
    pub predicted: SearchMeasurement,
    pub measured: MeasuredSizes,
    pub encoding: DurationMs,
}

/// The mathematical value of a [`PredictionPair`].
pub struct PredictionPairView {
    pub source: SourceFactsView,
    pub predicted: SearchMeasurement,
    pub measured: MeasuredSizes,
    pub encoding: DurationMs,
}

impl View for PredictionPair {
    type V = PredictionPairView;

    open spec fn view(&self) -> PredictionPairView {
        PredictionPairView {
            source: self.source@,
            predicted: self.predicted,
            measured: self.measured,
            encoding: self.encoding,
        }
    }
}

impl Duplicate for PredictionPair {
    fn duplicate(&self) -> (copy: Self) {
        PredictionPair {
            source: self.source.duplicate(),
            predicted: self.predicted,
            measured: self.measured,
            encoding: self.encoding,
        }
    }
}

impl SameView for PredictionPair {
    fn same_view(&self, other: &Self) -> (same: bool) {
        (self.source.same_view(&other.source))
            && (self.predicted == other.predicted)
            && (self.measured == other.measured)
            && (self.encoding == other.encoding)
    }
}

} // verus!
