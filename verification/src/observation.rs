//! Observations: one immutable record per terminal run, derived from the
//! run, record and output ledgers, and the facts each consumer may draw
//! from it. Predictions and measurements stay distinct, and an absent fact
//! stays absent.

use vstd::prelude::*;

use crate::key_order::{runs_by_id, runs_in_id_order};

use crate::job::{measurement_validation, result_consistency};
use crate::lookup::{entry_views, find_key, lookup};
use crate::model::{views, Duplicate, SameView};
use crate::output::{find_output, transaction_of};
use crate::state::{find_run, grown, lemma_durable_views};
use crate::{
    AnalysisAttempt, AnalysisResult, AnalysisResultView, CompletionEvidence, ContentKey,
    ContentKeyView, ConversionRun, ConversionRunView, DecisiveFact, DecisiveFactView, DecisiveKind,
    DurableState, DurableStateView, DurationMs, EncodeEvidence, EncodeEvidenceView,
    EncodeMeasurement, ItemOutcome, ItemOutcomeView, JobPhase,
    MeasuredSizes, Observation, ObservationView, ObservedOutcome, ObservedOutcomeView, Operation,
    OutputKind, PhaseSpan, PredictionPair, PredictionPairView, RateSample, RateSampleView,
    ReductionFact, ReductionFactView, RemuxEvidence, RemuxEvidenceView, RemuxMeasurement,
    RunId, SearchEvidence, SearchEvidenceView, SourceAssessment, SourceFacts,
    SourceFactsView, ToolRevisions, ToolRevisionsView,
};

verus! {

impl MeasuredSizes {
    /// Signed reduction: source minus output size, negative when the
    /// output grew.
    pub fn reduction_bytes(self) -> (reduction: i128)
        ensures
            reduction == self.input - self.output,
    {
        self.input as i128 - self.output as i128
    }
}

/// Whether a not-worthwhile attempt lies outside the tried ladder.
pub open spec fn outside_ladder(attempt: AnalysisAttempt, requested: crate::VmafTarget, floor: crate::VmafTarget) -> bool {
    attempt.target.0 > requested.0 || attempt.target.0 < floor.0
}

/// Whether an attempt carries an invalid measurement.
pub open spec fn invalid_measurement(attempt: AnalysisAttempt) -> bool {
    match attempt.last_measurement {
        Some(measurement) => measurement_validation(measurement) is Err,
        None => false,
    }
}

impl ObservationView {
    /// Consistency the type shape cannot express.
    pub open spec fn validation(self) -> Result<(), &'static str> {
        if self.started_at is Some && self.finished_at is Some && (self.started_at->0).0 > (self.finished_at->0).0 {
            Err("observation finished before it started")
        } else {
            match self.outcome {
                ObservedOutcomeView::Analyzed { search } => result_consistency(search.analysis),
                ObservedOutcomeView::Converted { search, encode } => {
                    if result_consistency(search.analysis) is Err {
                        result_consistency(search.analysis)
                    } else if encode.measurement is Live && encode.duration is None {
                        Err("live encode measurement requires an encode duration")
                    } else {
                        Ok(())
                    }
                },
                ObservedOutcomeView::NotWorthwhile { requested, floor, attempts } => {
                    if floor.0 > requested.0 {
                        Err("not-worthwhile floor exceeds the requested target")
                    } else if attempts.len() == 0 {
                        Err("not-worthwhile observation carries no attempts")
                    } else if exists|k: int| 0 <= k < attempts.len() && outside_ladder(#[trigger] attempts[k], requested, floor) {
                        Err("not-worthwhile attempt targets outside the fallback range")
                    } else if exists|k: int| 0 <= k < attempts.len() && invalid_measurement(#[trigger] attempts[k]) {
                        Err("VMAF score exceeds the maximum")
                    } else {
                        Ok(())
                    }
                },
                _ => Ok(()),
            }
        }
    }

    /// The content the observation is about, when identified.
    pub open spec fn content(self) -> Option<ContentKeyView> {
        match self.source {
            Some(source) => Some(source.content_key),
            None => None,
        }
    }

    /// The decision the observation makes about its content, if any.
    pub open spec fn decisive(self) -> Option<DecisiveFactView> {
        let kind = match self.outcome {
            ObservedOutcomeView::Converted { .. } => Some(DecisiveKind::Converted),
            ObservedOutcomeView::Remuxed { .. } => Some(DecisiveKind::Remuxed),
            ObservedOutcomeView::NotWorthwhile { requested, floor, .. } => Some(
                DecisiveKind::NotWorthwhile { requested, floor },
            ),
            _ => None,
        };
        if kind is Some && self.content() is Some {
            Some(DecisiveFactView { content_key: self.content()->0, kind: kind->0, finished_at: self.finished_at })
        } else {
            None
        }
    }

    /// The output reduction the observation measured on a matched source.
    pub open spec fn reduction(self) -> Option<ReductionFactView> {
        let facts: Option<(OutputKind, Option<MeasuredSizes>, Option<SourceAssessment>, Option<AnalysisResultView>)> = match self.outcome {
            ObservedOutcomeView::Converted { search, encode } => Some(
                (OutputKind::Converted, encode.measurement.measured(), encode.assessment, Some(search.analysis)),
            ),
            ObservedOutcomeView::Remuxed { remux } => Some(
                (OutputKind::Remuxed, remux.measurement.measured(), remux.assessment, None),
            ),
            _ => None,
        };
        match (self.source, facts) {
            (Some(source), Some((kind, Some(sizes), assessment, search))) => if assessment == Some(SourceAssessment::Matched) {
                Some(ReductionFactView { source, kind, sizes, finished_at: self.finished_at, search })
            } else {
                None
            },
            _ => None,
        }
    }

    /// The phase time the observation measured for `operation` on a
    /// matched source of known positive duration.
    pub open spec fn rate(self, operation: Operation) -> Option<RateSampleView> {
        let timing: Option<(Option<DurationMs>, Option<SourceAssessment>)> = match (operation, self.outcome) {
            (Operation::Analyze, ObservedOutcomeView::Analyzed { search }) => Some((search.duration, search.assessment)),
            (Operation::Analyze, ObservedOutcomeView::Converted { search, .. }) => Some(
                (search.duration, search.assessment),
            ),
            (Operation::Convert, ObservedOutcomeView::Converted { encode, .. }) => Some(
                (encode.duration, encode.assessment),
            ),
            _ => None,
        };
        match (self.source, timing) {
            (Some(source), Some((Some(elapsed), assessment))) => if source.duration_ms > 0 && elapsed.0 != 0
                && assessment == Some(SourceAssessment::Matched) {
                Some(RateSampleView { source, elapsed })
            } else {
                None
            },
            _ => None,
        }
    }

    /// A conversion's prediction and the measurement that tests it, both
    /// phases matched.
    pub open spec fn prediction(self) -> Option<PredictionPairView> {
        match (self.source, self.outcome) {
            (Some(source), ObservedOutcomeView::Converted { search, encode }) => {
                if search.assessment == Some(SourceAssessment::Matched) && encode.assessment == Some(
                    SourceAssessment::Matched,
                ) && encode.measurement.measured() is Some && encode.duration is Some {
                    Some(
                        PredictionPairView {
                            source,
                            predicted: search.analysis.measurement,
                            measured: encode.measurement.measured()->0,
                            encoding: encode.duration->0,
                        },
                    )
                } else {
                    None
                }
            },
            _ => None,
        }
    }
}

impl EncodeMeasurement {
    /// The sizes an encode measured, when known.
    pub open spec fn measured(self) -> Option<MeasuredSizes> {
        match self {
            EncodeMeasurement::Live { sizes, .. } => Some(sizes),
            EncodeMeasurement::Recovered { sizes } => sizes,
        }
    }


    /// The sizes an encode measured, when known.
    pub fn sizes(&self) -> (sizes: Option<MeasuredSizes>)
        ensures
            sizes == self.measured(),
    {
        match self {
            EncodeMeasurement::Live { sizes, .. } => Some(*sizes),
            EncodeMeasurement::Recovered { sizes } => *sizes,
        }
    }
}

impl RemuxMeasurement {
    /// The sizes a remux measured, when known.
    pub open spec fn measured(self) -> Option<MeasuredSizes> {
        match self {
            RemuxMeasurement::Live { sizes } => Some(sizes),
            RemuxMeasurement::Recovered { sizes } => sizes,
        }
    }

    /// The sizes a remux measured, when known.
    pub fn sizes(&self) -> (sizes: Option<MeasuredSizes>)
        ensures
            sizes == self.measured(),
    {
        match self {
            RemuxMeasurement::Live { sizes } => Some(*sizes),
            RemuxMeasurement::Recovered { sizes } => *sizes,
        }
    }
}

fn matched(assessment: Option<SourceAssessment>) -> (matched: bool)
    ensures
        matched == (assessment == Some(SourceAssessment::Matched)),
{
    match assessment {
        Some(SourceAssessment::Matched) => true,
        _ => false,
    }
}

impl Observation {
    /// Consistency the type shape cannot express.
    #[verifier::loop_isolation(false)]
    pub fn validate(&self) -> (result: Result<(), &'static str>)
        ensures
            result == self@.validation(),
    {
        if let (Some(started), Some(finished)) = (self.started_at, self.finished_at) {
            if started.0 > finished.0 {
                return Err("observation finished before it started");
            }
        }
        match &self.outcome {
            ObservedOutcome::Analyzed { search } => search.analysis.validate_consistent(),
            ObservedOutcome::Converted { search, encode } => {
                search.analysis.validate_consistent()?;
                let live = match encode.measurement {
                    EncodeMeasurement::Live { .. } => true,
                    _ => false,
                };
                if live && encode.duration.is_none() {
                    return Err("live encode measurement requires an encode duration");
                }
                Ok(())
            },
            ObservedOutcome::NotWorthwhile { requested, floor, attempts } => {
                if floor.0 > requested.0 {
                    return Err("not-worthwhile floor exceeds the requested target");
                }
                if attempts.len() == 0 {
                    return Err("not-worthwhile observation carries no attempts");
                }
                let mut index: usize = 0;
                while index < attempts.len()
                    invariant
                        index <= attempts.len(),
                        forall|k: int| 0 <= k < index ==> !outside_ladder(#[trigger] attempts@[k], *requested, *floor),
                    decreases attempts.len() - index,
                {
                    if attempts[index].target.0 > requested.0 || attempts[index].target.0 < floor.0 {
                        assert(outside_ladder(attempts@[index as int], *requested, *floor));
                        return Err("not-worthwhile attempt targets outside the fallback range");
                    }
                    index += 1;
                }
                let mut position: usize = 0;
                while position < attempts.len()
                    invariant
                        position <= attempts.len(),
                        forall|k: int| 0 <= k < attempts@.len() ==> !outside_ladder(#[trigger] attempts@[k], *requested, *floor),
                        forall|k: int| 0 <= k < position ==> !invalid_measurement(#[trigger] attempts@[k]),
                    decreases attempts.len() - position,
                {
                    if let Some(measurement) = &attempts[position].last_measurement {
                        if measurement.validate().is_err() {
                            assert(invalid_measurement(attempts@[position as int]));
                            return Err("VMAF score exceeds the maximum");
                        }
                    }
                    position += 1;
                }
                Ok(())
            },
            _ => Ok(()),
        }
    }

    /// The content this observation is about, when identified.
    pub fn content_key(&self) -> (key: Option<&ContentKey>)
        ensures
            match key {
                Some(found) => self@.content() == Some(found@),
                None => self@.content() is None,
            },
    {
        match &self.source {
            Some(source) => Some(&source.content_key),
            None => None,
        }
    }

    /// Whether this observation decides its content's standing.
    pub fn decisive_fact(&self) -> (fact: Option<DecisiveFact>)
        ensures
            match fact {
                Some(found) => self@.decisive() == Some(found@),
                None => self@.decisive() is None,
            },
    {
        let kind = match &self.outcome {
            ObservedOutcome::Converted { .. } => DecisiveKind::Converted,
            ObservedOutcome::Remuxed { .. } => DecisiveKind::Remuxed,
            ObservedOutcome::NotWorthwhile { requested, floor, .. } => DecisiveKind::NotWorthwhile {
                requested: *requested,
                floor: *floor,
            },
            _ => {
                return None;
            },
        };
        match self.content_key() {
            Some(key) => Some(DecisiveFact { content_key: key.duplicate(), kind, finished_at: self.finished_at }),
            None => None,
        }
    }

    /// Eligible for output-size reduction aggregates: a produced output
    /// with both sizes measured whose source matched.
    pub fn reduction_fact(&self) -> (fact: Option<ReductionFact>)
        ensures
            match fact {
                Some(found) => self@.reduction() == Some(found@),
                None => self@.reduction() is None,
            },
    {
        let source = match &self.source {
            Some(source) => source,
            None => {
                return None;
            },
        };
        let (kind, sizes, assessment, search) = match &self.outcome {
            ObservedOutcome::Converted { search, encode } => (
                OutputKind::Converted,
                encode.measurement.sizes(),
                encode.assessment,
                Some(search.analysis.duplicate()),
            ),
            ObservedOutcome::Remuxed { remux } => (OutputKind::Remuxed, remux.measurement.sizes(), remux.assessment, None),
            _ => {
                return None;
            },
        };
        let sizes = match sizes {
            Some(sizes) => sizes,
            None => {
                return None;
            },
        };
        if !matched(assessment) {
            return None;
        }
        Some(ReductionFact { source: source.duplicate(), kind, sizes, finished_at: self.finished_at, search })
    }

    /// Eligible for the time cohort of `operation`.
    pub fn rate_sample(&self, operation: Operation) -> (sample: Option<RateSample>)
        ensures
            match sample {
                Some(found) => self@.rate(operation) == Some(found@),
                None => self@.rate(operation) is None,
            },
    {
        let source = match &self.source {
            Some(source) => source,
            None => {
                return None;
            },
        };
        let (elapsed, assessment) = match (operation, &self.outcome) {
            (Operation::Analyze, ObservedOutcome::Analyzed { search }) => (search.duration, search.assessment),
            (Operation::Analyze, ObservedOutcome::Converted { search, .. }) => (search.duration, search.assessment),
            (Operation::Convert, ObservedOutcome::Converted { encode, .. }) => (encode.duration, encode.assessment),
            _ => {
                return None;
            },
        };
        let elapsed = match elapsed {
            Some(elapsed) => elapsed,
            None => {
                return None;
            },
        };
        if source.duration_ms == 0 || elapsed.0 == 0 || !matched(assessment) {
            return None;
        }
        Some(RateSample { source: source.duplicate(), elapsed })
    }

    /// Eligible for prediction backtests.
    pub fn prediction_pair(&self) -> (pair: Option<PredictionPair>)
        ensures
            match pair {
                Some(found) => self@.prediction() == Some(found@),
                None => self@.prediction() is None,
            },
    {
        let source = match &self.source {
            Some(source) => source,
            None => {
                return None;
            },
        };
        let (search, encode) = match &self.outcome {
            ObservedOutcome::Converted { search, encode } => (search, encode),
            _ => {
                return None;
            },
        };
        if !matched(search.assessment) || !matched(encode.assessment) {
            return None;
        }
        let measured = match encode.measurement.sizes() {
            Some(sizes) => sizes,
            None => {
                return None;
            },
        };
        let encoding = match encode.duration {
            Some(duration) => duration,
            None => {
                return None;
            },
        };
        Some(PredictionPair { source: source.duplicate(), predicted: search.analysis.measurement, measured, encoding })
    }
}

/// The total of the spans of `phase`, saturating.
pub open spec fn phase_total(spans: Seq<PhaseSpan>, phase: JobPhase) -> u64
    decreases spans.len(),
{
    if spans.len() == 0 {
        0
    } else {
        let earlier = phase_total(spans.drop_last(), phase);
        if spans.last().phase == phase {
            grown(earlier, spans.last().duration.0)
        } else {
            earlier
        }
    }
}

/// Total wall time of one phase; `None` when no span of it was recorded,
/// which is distinct from a zero-length phase.
pub open spec fn phase_time(spans: Seq<PhaseSpan>, phase: JobPhase) -> Option<DurationMs> {
    if exists|k: int| 0 <= k < spans.len() && #[trigger] spans[k].phase == phase {
        Some(DurationMs(phase_total(spans, phase)))
    } else {
        None
    }
}

/// Total wall time of one phase.
pub fn phase_duration(spans: &Vec<PhaseSpan>, phase: JobPhase) -> (duration: Option<DurationMs>)
    ensures
        duration == phase_time(spans@, phase),
{
    let mut measured = false;
    let mut total: u64 = 0;
    let mut index: usize = 0;
    while index < spans.len()
        invariant
            index <= spans.len(),
            total == phase_total(spans@.subrange(0, index as int), phase),
            measured == exists|k: int| 0 <= k < index && #[trigger] spans@[k].phase == phase,
        decreases spans.len() - index,
    {
        assert(spans@.subrange(0, index as int + 1).drop_last() =~= spans@.subrange(0, index as int));
        if spans[index].phase == phase {
            measured = true;
            total = total.saturating_add(spans[index].duration.0);
        }
        index += 1;
    }
    assert(spans@.subrange(0, spans.len() as int) =~= spans@);
    if measured {
        Some(DurationMs(total))
    } else {
        None
    }
}

/// The search a run holds, as evidence.
pub open spec fn search_of(run: ConversionRunView) -> Option<SearchEvidenceView> {
    match run.analysis {
        Some(analysis) => Some(
            SearchEvidenceView { analysis, duration: phase_time(run.phase_spans, JobPhase::Analyzing), assessment: None },
        ),
        None => None,
    }
}

/// The sizes a crash-recovered success can honestly report: those of the
/// promoted artifact and the recorded input, when durable.
pub open spec fn recovered(state: DurableStateView, run_id: RunId) -> Option<MeasuredSizes> {
    match transaction_of(state.outputs, run_id) {
        Some(transaction) => match transaction.promoted() {
            Some(artifact) => Some(
                MeasuredSizes { input: transaction.input_identity.destructive.size, output: artifact.destructive.size },
            ),
            None => None,
        },
        None => None,
    }
}

/// What a terminal run concluded, with the evidence it can hold; skipped
/// runs, unfinished runs and inconsistent evidence give nothing.
pub open spec fn observed_outcome(state: DurableStateView, run: ConversionRunView) -> Option<ObservedOutcomeView> {
    match run.outcome {
        None => None,
        Some(outcome) => match outcome {
            ItemOutcomeView::Skipped { .. } => None,
            ItemOutcomeView::Analyzed => match search_of(run) {
                Some(search) => Some(ObservedOutcomeView::Analyzed { search }),
                None => None,
            },
            ItemOutcomeView::Converted(evidence) => {
                let measurement = match evidence {
                    CompletionEvidence::LiveEncode { input_size, output_size, encode_decode, .. } => Some(
                        EncodeMeasurement::Live {
                            sizes: MeasuredSizes { input: input_size, output: output_size },
                            decode: encode_decode,
                        },
                    ),
                    CompletionEvidence::LiveRemux { .. } => None,
                    CompletionEvidence::RecoveredAtStartup => Some(
                        EncodeMeasurement::Recovered { sizes: recovered(state, run.spec.run_id) },
                    ),
                };
                match (search_of(run), measurement) {
                    (Some(search), Some(measurement)) => Some(
                        ObservedOutcomeView::Converted {
                            search,
                            encode: EncodeEvidenceView {
                                measurement,
                                duration: phase_time(run.phase_spans, JobPhase::Encoding),
                                output_content_key: run.output_content_key,
                                assessment: None,
                            },
                        },
                    ),
                    _ => None,
                }
            },
            ItemOutcomeView::Remuxed(evidence) => {
                let measurement = match evidence {
                    CompletionEvidence::LiveRemux { input_size, output_size } => Some(
                        RemuxMeasurement::Live { sizes: MeasuredSizes { input: input_size, output: output_size } },
                    ),
                    CompletionEvidence::LiveEncode { .. } => None,
                    CompletionEvidence::RecoveredAtStartup => Some(
                        RemuxMeasurement::Recovered { sizes: recovered(state, run.spec.run_id) },
                    ),
                };
                match measurement {
                    Some(measurement) => Some(
                        ObservedOutcomeView::Remuxed {
                            remux: RemuxEvidenceView {
                                measurement,
                                output_content_key: run.output_content_key,
                                assessment: None,
                            },
                        },
                    ),
                    None => None,
                }
            },
            ItemOutcomeView::NotWorthwhile { attempts } => Some(
                ObservedOutcomeView::NotWorthwhile {
                    requested: run.spec.execution.requested_target,
                    floor: run.spec.execution.fallback_floor,
                    attempts,
                },
            ),
            ItemOutcomeView::Failed(facts) => Some(ObservedOutcomeView::Failed { facts }),
            ItemOutcomeView::Stopped => Some(ObservedOutcomeView::Stopped),
        },
    }
}

/// The source of a run as identified by content, with post-rotation
/// dimensions.
pub open spec fn source_of(state: DurableStateView, run: ConversionRunView) -> Option<SourceFactsView> {
    match run.spec.content_key {
        Some(key) => match lookup(state.records, key) {
            Some(record) => Some(
                SourceFactsView {
                    content_key: key,
                    codec: record.metadata.codec,
                    width: record.metadata.displayed_dimensions().0,
                    height: record.metadata.displayed_dimensions().1,
                    duration_ms: record.metadata.duration_ms,
                    size_bytes: record.metadata.size_bytes,
                },
            ),
            None => None,
        },
        None => None,
    }
}

/// The observation of a run, when it has one.
pub open spec fn observation_of(state: DurableStateView, run: ConversionRunView) -> Option<ObservationView> {
    match observed_outcome(state, run) {
        Some(outcome) => Some(
            ObservationView {
                run_id: run.spec.run_id,
                operation: run.spec.operation,
                source: source_of(state, run),
                revisions: ToolRevisionsView {
                    ab_av1: run.spec.execution.profile.ab_av1_revision,
                    ffmpeg: run.spec.execution.profile.ffmpeg_revision,
                    encoder: run.spec.execution.profile.encoder_revision,
                },
                outcome,
                started_at: run.started_at,
                finished_at: run.finished_at,
            },
        ),
        None => None,
    }
}

/// The observations of the runs, in run order.
pub open spec fn observations_of(state: DurableStateView, runs: Seq<ConversionRunView>) -> Seq<ObservationView>
    decreases runs.len(),
{
    if runs.len() == 0 {
        Seq::empty()
    } else {
        let earlier = observations_of(state, runs.drop_last());
        match observation_of(state, runs.last()) {
            Some(observation) => earlier.push(observation),
            None => earlier,
        }
    }
}

fn search_evidence(run: &ConversionRun) -> (search: Option<SearchEvidence>)
    ensures
        match search {
            Some(found) => search_of(run@) == Some(found@),
            None => search_of(run@) is None,
        },
{
    match &run.analysis {
        Some(analysis) => Some(
            SearchEvidence {
                analysis: analysis.duplicate(),
                duration: phase_duration(&run.phase_spans, JobPhase::Analyzing),
                assessment: None,
            },
        ),
        None => None,
    }
}

fn recovered_sizes(state: &DurableState, run_id: RunId) -> (sizes: Option<MeasuredSizes>)
    ensures
        sizes == recovered(state@, run_id),
{
    proof {
        lemma_durable_views(*state);
    }
    let index = match find_output(&state.outputs, run_id) {
        Some(index) => index,
        None => {
            return None;
        },
    };
    assert(state@.outputs[index as int] == state.outputs@[index as int]@);
    let transaction = &state.outputs[index];
    match transaction.promoted_identity() {
        Some(artifact) => Some(
            MeasuredSizes { input: transaction.input_identity.destructive.size, output: artifact.destructive.size },
        ),
        None => None,
    }
}

fn source_facts(state: &DurableState, run: &ConversionRun) -> (source: Option<SourceFacts>)
    ensures
        match source {
            Some(found) => source_of(state@, run@) == Some(found@),
            None => source_of(state@, run@) is None,
        },
{
    proof {
        lemma_durable_views(*state);
    }
    let key = match &run.spec.content_key {
        Some(key) => key,
        None => {
            return None;
        },
    };
    let index = match find_key(&state.records, key) {
        Some(index) => index,
        None => {
            return None;
        },
    };
    assert(state@.records[index as int] == state.records@[index as int]@);
    let metadata = &state.records[index].1.metadata;
    let (width, height) = metadata.post_rotation_dimensions();
    Some(
        SourceFacts {
            content_key: key.duplicate(),
            codec: metadata.codec.duplicate(),
            width,
            height,
            duration_ms: metadata.duration_ms,
            size_bytes: metadata.size_bytes,
        },
    )
}

/// The observation of one run: `None` for an unfinished or skipped run, or
/// one whose evidence contradicts its outcome.
pub fn observe(state: &DurableState, run: &ConversionRun) -> (observation: Option<Observation>)
    ensures
        match observation {
            Some(found) => observation_of(state@, run@) == Some(found@),
            None => observation_of(state@, run@) is None,
        },
{
    let finished = match &run.outcome {
        Some(outcome) => outcome,
        None => {
            return None;
        },
    };
    let outcome = match finished {
        ItemOutcome::Skipped { .. } => {
            return None;
        },
        ItemOutcome::Analyzed => match search_evidence(run) {
            Some(search) => ObservedOutcome::Analyzed { search },
            None => {
                return None;
            },
        },
        ItemOutcome::Converted(evidence) => {
            let measurement = match evidence {
                CompletionEvidence::LiveEncode { input_size, output_size, encode_decode, .. } => EncodeMeasurement::Live {
                    sizes: MeasuredSizes { input: *input_size, output: *output_size },
                    decode: *encode_decode,
                },
                CompletionEvidence::LiveRemux { .. } => {
                    return None;
                },
                CompletionEvidence::RecoveredAtStartup => EncodeMeasurement::Recovered {
                    sizes: recovered_sizes(state, run.spec.run_id),
                },
            };
            let search = match search_evidence(run) {
                Some(search) => search,
                None => {
                    return None;
                },
            };
            let output_content_key = match &run.output_content_key {
                Some(key) => Some(key.duplicate()),
                None => None,
            };
            ObservedOutcome::Converted {
                search,
                encode: EncodeEvidence {
                    measurement,
                    duration: phase_duration(&run.phase_spans, JobPhase::Encoding),
                    output_content_key,
                    assessment: None,
                },
            }
        },
        ItemOutcome::Remuxed(evidence) => {
            let measurement = match evidence {
                CompletionEvidence::LiveRemux { input_size, output_size } => RemuxMeasurement::Live {
                    sizes: MeasuredSizes { input: *input_size, output: *output_size },
                },
                CompletionEvidence::LiveEncode { .. } => {
                    return None;
                },
                CompletionEvidence::RecoveredAtStartup => RemuxMeasurement::Recovered {
                    sizes: recovered_sizes(state, run.spec.run_id),
                },
            };
            let output_content_key = match &run.output_content_key {
                Some(key) => Some(key.duplicate()),
                None => None,
            };
            ObservedOutcome::Remuxed { remux: RemuxEvidence { measurement, output_content_key, assessment: None } }
        },
        ItemOutcome::NotWorthwhile { attempts } => ObservedOutcome::NotWorthwhile {
            requested: run.spec.execution.requested_target,
            floor: run.spec.execution.fallback_floor,
            attempts: crate::model::copy_plain_vec(attempts),
        },
        ItemOutcome::Failed(facts) => ObservedOutcome::Failed { facts: facts.duplicate() },
        ItemOutcome::Stopped => ObservedOutcome::Stopped,
    };
    let profile = &run.spec.execution.profile;
    Some(
        Observation {
            run_id: run.spec.run_id,
            operation: run.spec.operation,
            source: source_facts(state, run),
            revisions: ToolRevisions {
                ab_av1: profile.ab_av1_revision.duplicate(),
                ffmpeg: profile.ffmpeg_revision.duplicate(),
                encoder: profile.encoder_revision.duplicate(),
            },
            outcome,
            started_at: run.started_at,
            finished_at: run.finished_at,
        },
    )
}

/// Every terminal, non-skipped run as an observation, in ascending run-id
/// order.
#[verifier::loop_isolation(false)]
pub fn observations(state: &DurableState) -> (found: Vec<Observation>)
    ensures
        views(found@) == observations_of(state@, runs_by_id(state@.conversion_runs)),
{
    proof {
        lemma_durable_views(*state);
    }
    let order = runs_in_id_order(&state.conversion_runs);
    let ghost runs = state@.conversion_runs;
    let ghost sorted = runs_by_id(runs);
    assert(sorted.len() == order.len());
    let mut found: Vec<Observation> = Vec::new();
    let mut index: usize = 0;
    while index < order.len()
        invariant
            index <= order.len(),
            runs == state@.conversion_runs,
            runs == views(state.conversion_runs@),
            sorted == runs_by_id(runs),
            views(found@) == observations_of(state@, sorted.subrange(0, index as int)),
        decreases order.len() - index,
    {
        assert(sorted.subrange(0, index as int + 1).drop_last() =~= sorted.subrange(0, index as int));
        let at = order[index];
        assert(sorted[index as int] == runs[at as int]);
        assert(runs[at as int] == state.conversion_runs@[at as int]@);
        if let Some(observation) = observe(state, &state.conversion_runs[at]) {
            let ghost prior = views(found@);
            found.push(observation);
            assert(views(found@) =~= prior.push(observation@));
        }
        index += 1;
    }
    assert(sorted.subrange(0, sorted.len() as int) =~= sorted);
    found
}

/// Whether an observation decides the standing of `content_key`.
pub open spec fn decides(observation: ObservationView, content_key: ContentKeyView) -> bool {
    observation.decisive() is Some && observation.decisive()->0.content_key == content_key
}

/// The latest observation that decides the standing of `content_key`.
pub open spec fn latest_decision(observations: Seq<ObservationView>, content_key: ContentKeyView) -> Option<ObservationView>
    decreases observations.len(),
{
    if observations.len() == 0 {
        None
    } else if decides(observations.last(), content_key) {
        Some(observations.last())
    } else {
        latest_decision(observations.drop_last(), content_key)
    }
}

/// The latest decisive observation about `content_key`, or `None` when
/// nothing has decided its standing.
pub fn standing<'a>(observations: &'a Vec<Observation>, content_key: &ContentKey) -> (decided: Option<&'a Observation>)
    ensures
        match decided {
            Some(found) => latest_decision(views(observations@), content_key@) == Some(found@),
            None => latest_decision(views(observations@), content_key@) is None,
        },
{
    let ghost all = views(observations@);
    let mut remaining: usize = observations.len();
    assert(all.subrange(0, remaining as int) =~= all);
    while remaining > 0
        invariant
            remaining <= observations.len(),
            all == views(observations@),
            latest_decision(all, content_key@) == latest_decision(all.subrange(0, remaining as int), content_key@),
        decreases remaining,
    {
        let index = remaining - 1;
        assert(all.subrange(0, remaining as int).drop_last() =~= all.subrange(0, index as int));
        assert(all[index as int] == observations@[index as int]@);
        let decisive = match observations[index].decisive_fact() {
            Some(fact) => fact.content_key.same_view(content_key),
            None => false,
        };
        if decisive {
            return Some(&observations[index]);
        }
        remaining = index;
    }
    None
}

} // verus!
