//! The integer side of time estimation: resolution classes by pixel count,
//! the historical rate samples a state holds, the specificity ladder that
//! picks the group answering an estimate, the analysis prediction that wins
//! over history, and the confidence grade of an estimate. A rate is a
//! measured phase time over the video duration it covered; the median of a
//! group's rates and its scaling are floating point, outside this library.

use vstd::prelude::*;

use crate::key_order::records_by_key;

use crate::analysis_status::record_of;
use crate::lookup::lookup;
use crate::model::{views, Duplicate, SameView};
use crate::projection::{collect_stat_facts, phase_totals, phase_totals_of, stat_facts_of};
use crate::state::lemma_durable_views;
use crate::{
    AnalysisResult, AnalysisResultView, ConversionRun, ConversionRunView, DurableState,
    DurableStateView, EstimateBasis, EstimateConfidence, HistoricalTier, ItemOutcome,
    ItemOutcomeView, Operation, ResolutionBucket, StatFactView, TimeEstimate, VideoCodec,
    VideoCodecView, VideoMeta, VideoMetaView,
};

verus! {

/// Pixels from which a frame counts as 4K.
pub const UHD_4K_MIN_PIXELS: u64 = 8_294_400u64;
/// Pixels from which a frame counts as 1440p.
pub const QHD_1440_MIN_PIXELS: u64 = 3_686_400u64;
/// Pixels from which a frame counts as 1080p.
pub const FHD_1080_MIN_PIXELS: u64 = 2_073_600u64;
/// Pixels from which a frame counts as 720p.
pub const HD_720_MIN_PIXELS: u64 = 921_600u64;

/// The resolution class of a frame by its pixel count; none when either
/// dimension is unknown (zero). The product is rotation-invariant.
pub open spec fn bucket_of(width: u32, height: u32) -> Option<ResolutionBucket> {
    let pixels = width * height;
    if pixels == 0 {
        None
    } else if pixels >= UHD_4K_MIN_PIXELS {
        Some(ResolutionBucket::Uhd4k)
    } else if pixels >= QHD_1440_MIN_PIXELS {
        Some(ResolutionBucket::Qhd1440)
    } else if pixels >= FHD_1080_MIN_PIXELS {
        Some(ResolutionBucket::Hd1080)
    } else if pixels >= HD_720_MIN_PIXELS {
        Some(ResolutionBucket::Hd720)
    } else {
        Some(ResolutionBucket::Sd)
    }
}

impl ResolutionBucket {
    /// The resolution class of a frame, `None` when a dimension is zero.
    pub fn from_dimensions(width: u32, height: u32) -> (bucket: Option<Self>)
        ensures
            bucket == bucket_of(width, height),
    {
        assert((width as u64) * (height as u64) <= u64::MAX) by (nonlinear_arith)
            requires
                width <= u32::MAX,
                height <= u32::MAX,
        {
        }
        let pixels = (width as u64) * (height as u64);
        if pixels == 0 {
            return None;
        }
        Some(
            if pixels >= UHD_4K_MIN_PIXELS {
                ResolutionBucket::Uhd4k
            } else if pixels >= QHD_1440_MIN_PIXELS {
                ResolutionBucket::Qhd1440
            } else if pixels >= FHD_1080_MIN_PIXELS {
                ResolutionBucket::Hd1080
            } else if pixels >= HD_720_MIN_PIXELS {
                ResolutionBucket::Hd720
            } else {
                ResolutionBucket::Sd
            },
        )
    }
}

/// The grade of an estimate: analysis-backed is precise, historical is an
/// estimate.
pub open spec fn grade(basis: EstimateBasis) -> EstimateConfidence {
    match basis {
        EstimateBasis::AnalysisPrediction => EstimateConfidence::Precise,
        EstimateBasis::Historical(_) => EstimateConfidence::Estimated,
    }
}

impl TimeEstimate {
    /// How the estimate is marked.
    pub fn confidence(&self) -> (confidence: EstimateConfidence)
        ensures
            confidence == grade(self.basis),
    {
        match self.basis {
            EstimateBasis::AnalysisPrediction => EstimateConfidence::Precise,
            EstimateBasis::Historical(_) => EstimateConfidence::Estimated,
        }
    }
}


/// A group answers only once it holds this many rate samples; sparser groups
/// defer to the next tier of the ladder.
pub const MIN_GROUP_SAMPLES: usize = 3usize;

/// One historical rate sample: the phase time a run measured and the video
/// duration it covered, keyed by the source's codec and resolution class.
pub struct RateObservation {
    pub codec: VideoCodec,
    pub bucket: Option<ResolutionBucket>,
    pub elapsed_ms: u64,
    pub duration_ms: u64,
}

/// The mathematical value of a [`RateObservation`].
pub struct RateObservationView {
    pub codec: VideoCodecView,
    pub bucket: Option<ResolutionBucket>,
    pub elapsed_ms: u64,
    pub duration_ms: u64,
}

impl View for RateObservation {
    type V = RateObservationView;

    open spec fn view(&self) -> RateObservationView {
        RateObservationView {
            codec: self.codec@,
            bucket: self.bucket,
            elapsed_ms: self.elapsed_ms,
            duration_ms: self.duration_ms,
        }
    }
}

impl Duplicate for RateObservation {
    fn duplicate(&self) -> (copy: Self) {
        RateObservation {
            codec: self.codec.duplicate(),
            bucket: self.bucket,
            elapsed_ms: self.elapsed_ms,
            duration_ms: self.duration_ms,
        }
    }
}

/// The sample a measurement makes; none when the phase was not measured or
/// the video has no duration, so that no group holds an unusable rate.
pub open spec fn observed(codec: VideoCodecView, width: u32, height: u32, elapsed_ms: u64, duration_ms: u64) -> Option<
    RateObservationView,
> {
    if elapsed_ms == 0 || duration_ms == 0 {
        None
    } else {
        Some(RateObservationView { codec, bucket: bucket_of(width, height), elapsed_ms, duration_ms })
    }
}

/// The phase an operation's estimate measures: encoding for a conversion,
/// the quality search for an analysis.
pub open spec fn measured_phase(fact: StatFactView, operation: Operation) -> u64 {
    match operation {
        Operation::Convert => fact.encoding_ms,
        Operation::Analyze => fact.analyzing_ms,
    }
}

/// The samples the facts hold for `operation`, in fact order.
pub open spec fn fact_samples(facts: Seq<StatFactView>, operation: Operation) -> Seq<RateObservationView>
    decreases facts.len(),
{
    if facts.len() == 0 {
        Seq::empty()
    } else {
        let earlier = fact_samples(facts.drop_last(), operation);
        let fact = facts.last();
        match observed(fact.codec, fact.width, fact.height, measured_phase(fact, operation), fact.duration_ms) {
            Some(sample) => earlier.push(sample),
            None => earlier,
        }
    }
}

/// The search sample of an analyzed-only run, against its content's
/// record: such a run decides nothing and so makes no fact, but its search
/// time is a real measurement.
pub open spec fn analyzed_sample(state: DurableStateView, run: ConversionRunView) -> Option<RateObservationView> {
    match (run.outcome, run.spec.content_key) {
        (Some(ItemOutcomeView::Analyzed), Some(key)) => match lookup(state.records, key) {
            Some(record) => observed(
                record.metadata.codec,
                record.metadata.width,
                record.metadata.height,
                phase_totals_of(Some(run)).0,
                record.metadata.duration_ms,
            ),
            None => None,
        },
        _ => None,
    }
}

/// The search samples of the analyzed-only runs, in run order.
pub open spec fn analyzed_samples(state: DurableStateView, runs: Seq<ConversionRunView>) -> Seq<RateObservationView>
    decreases runs.len(),
{
    if runs.len() == 0 {
        Seq::empty()
    } else {
        let earlier = analyzed_samples(state, runs.drop_last());
        match analyzed_sample(state, runs.last()) {
            Some(sample) => earlier.push(sample),
            None => earlier,
        }
    }
}

/// Every rate sample of `operation` a state holds: one per fact whose phase
/// was measured, and for analyses also one per analyzed-only run.
pub open spec fn rate_samples_of(state: DurableStateView, operation: Operation) -> Seq<RateObservationView> {
    let from_facts = fact_samples(stat_facts_of(state, records_by_key(state.records)), operation);
    match operation {
        Operation::Convert => from_facts,
        Operation::Analyze => from_facts + analyzed_samples(state, state.conversion_runs),
    }
}

fn observe_rate(codec: &VideoCodec, width: u32, height: u32, elapsed_ms: u64, duration_ms: u64) -> (sample: Option<RateObservation>)
    ensures
        (match sample { Some(found) => Some(found@), None => None }) == observed(codec@, width, height, elapsed_ms, duration_ms),
{
    if elapsed_ms == 0 || duration_ms == 0 {
        None
    } else {
        Some(RateObservation {
            codec: codec.duplicate(),
            bucket: ResolutionBucket::from_dimensions(width, height),
            elapsed_ms,
            duration_ms,
        })
    }
}

fn analyzed_run_sample(state: &DurableState, run: &ConversionRun) -> (sample: Option<RateObservation>)
    ensures
        (match sample { Some(found) => Some(found@), None => None }) == analyzed_sample(state@, run@),
{
    let analyzed = match &run.outcome {
        Some(ItemOutcome::Analyzed) => true,
        _ => false,
    };
    if !analyzed {
        return None;
    }
    let key = match &run.spec.content_key {
        Some(key) => key,
        None => {
            return None;
        },
    };
    match record_of(state, key) {
        Some(record) => {
            let (analyzing_ms, _) = phase_totals(Some(run));
            let metadata = &record.metadata;
            observe_rate(&metadata.codec, metadata.width, metadata.height, analyzing_ms, metadata.duration_ms)
        },
        None => None,
    }
}

/// Every rate sample of `operation` the state holds.
#[verifier::loop_isolation(false)]
pub fn rate_samples(state: &DurableState, operation: Operation) -> (samples: Vec<RateObservation>)
    ensures
        views(samples@) == rate_samples_of(state@, operation),
{
    proof {
        lemma_durable_views(*state);
    }
    let facts = collect_stat_facts(state);
    let ghost fact_views = views(facts@);
    let mut samples: Vec<RateObservation> = Vec::new();
    let mut index: usize = 0;
    while index < facts.len()
        invariant
            index <= facts.len(),
            fact_views == views(facts@),
            views(samples@) == fact_samples(fact_views.take(index as int), operation),
        decreases facts.len() - index,
    {
        assert(fact_views.take(index as int + 1).drop_last() =~= fact_views.take(index as int));
        let fact = &facts[index];
        let elapsed = match operation {
            Operation::Convert => fact.encoding_ms,
            Operation::Analyze => fact.analyzing_ms,
        };
        if let Some(sample) = observe_rate(&fact.codec, fact.width, fact.height, elapsed, fact.duration_ms) {
            let ghost prior = views(samples@);
            samples.push(sample);
            assert(views(samples@) =~= prior.push(samples@.last()@));
        }
        index += 1;
    }
    assert(fact_views.take(fact_views.len() as int) =~= fact_views);
    if let Operation::Convert = operation {
        return samples;
    }
    let ghost from_facts = views(samples@);
    let ghost runs = state@.conversion_runs;
    let mut position: usize = 0;
    while position < state.conversion_runs.len()
        invariant
            position <= state.conversion_runs.len(),
            runs == views(state.conversion_runs@),
            views(samples@) == from_facts + analyzed_samples(state@, runs.take(position as int)),
        decreases state.conversion_runs.len() - position,
    {
        assert(runs.take(position as int + 1).drop_last() =~= runs.take(position as int));
        assert(runs[position as int] == state.conversion_runs@[position as int]@);
        if let Some(sample) = analyzed_run_sample(state, &state.conversion_runs[position]) {
            let ghost prior = views(samples@);
            samples.push(sample);
            assert(views(samples@) =~= prior.push(samples@.last()@));
        }
        position += 1;
    }
    assert(runs.take(runs.len() as int) =~= runs);
    samples
}

/// Whether a sample belongs to a tier's group for a video of `codec` in
/// resolution class `bucket`.
pub open spec fn in_tier(sample: RateObservationView, tier: HistoricalTier, codec: VideoCodecView, bucket: Option<ResolutionBucket>) -> bool {
    match tier {
        HistoricalTier::CodecResolution => sample.codec == codec && bucket is Some && sample.bucket == bucket,
        HistoricalTier::Codec => sample.codec == codec,
        HistoricalTier::Global => true,
    }
}

/// The samples of a tier's group, in sample order.
pub open spec fn tier_group(
    samples: Seq<RateObservationView>,
    tier: HistoricalTier,
    codec: VideoCodecView,
    bucket: Option<ResolutionBucket>,
) -> Seq<RateObservationView>
    decreases samples.len(),
{
    if samples.len() == 0 {
        Seq::empty()
    } else {
        let earlier = tier_group(samples.drop_last(), tier, codec, bucket);
        if in_tier(samples.last(), tier, codec, bucket) {
            earlier.push(samples.last())
        } else {
            earlier
        }
    }
}

/// The most specific tier whose group holds enough samples: codec and
/// resolution class, then codec, then every sample.
pub open spec fn answering_tier(samples: Seq<RateObservationView>, codec: VideoCodecView, bucket: Option<ResolutionBucket>) -> Option<
    HistoricalTier,
> {
    if tier_group(samples, HistoricalTier::CodecResolution, codec, bucket).len() >= MIN_GROUP_SAMPLES {
        Some(HistoricalTier::CodecResolution)
    } else if tier_group(samples, HistoricalTier::Codec, codec, bucket).len() >= MIN_GROUP_SAMPLES {
        Some(HistoricalTier::Codec)
    } else if tier_group(samples, HistoricalTier::Global, codec, bucket).len() >= MIN_GROUP_SAMPLES {
        Some(HistoricalTier::Global)
    } else {
        None
    }
}

fn collect_tier(samples: &Vec<RateObservation>, tier: HistoricalTier, codec: &VideoCodec, bucket: Option<ResolutionBucket>) -> (group: Vec<RateObservation>)
    ensures
        views(group@) == tier_group(views(samples@), tier, codec@, bucket),
{
    let ghost all = views(samples@);
    let mut group: Vec<RateObservation> = Vec::new();
    let mut index: usize = 0;
    while index < samples.len()
        invariant
            index <= samples.len(),
            all == views(samples@),
            views(group@) == tier_group(all.take(index as int), tier, codec@, bucket),
        decreases samples.len() - index,
    {
        assert(all.take(index as int + 1).drop_last() =~= all.take(index as int));
        let sample = &samples[index];
        let belongs = match tier {
            HistoricalTier::CodecResolution => sample.codec.same_view(codec) && bucket.is_some() && sample.bucket == bucket,
            HistoricalTier::Codec => sample.codec.same_view(codec),
            HistoricalTier::Global => true,
        };
        if belongs {
            let ghost prior = views(group@);
            group.push(sample.duplicate());
            assert(views(group@) =~= prior.push(all[index as int]));
        }
        index += 1;
    }
    assert(all.take(all.len() as int) =~= all);
    group
}

/// The tier that answers for a video of `codec` in resolution class
/// `bucket`, with its group's samples; `None` while even the pool of every
/// sample is too sparse.
pub fn historical_group(samples: &Vec<RateObservation>, codec: &VideoCodec, bucket: Option<ResolutionBucket>) -> (found: Option<(HistoricalTier, Vec<RateObservation>)>)
    ensures
        match found {
            Some((tier, group)) => answering_tier(views(samples@), codec@, bucket) == Some(tier) && views(group@) == tier_group(
                views(samples@),
                tier,
                codec@,
                bucket,
            ),
            None => answering_tier(views(samples@), codec@, bucket) is None,
        },
{
    let specific = collect_tier(samples, HistoricalTier::CodecResolution, codec, bucket);
    if specific.len() >= MIN_GROUP_SAMPLES {
        return Some((HistoricalTier::CodecResolution, specific));
    }
    let by_codec = collect_tier(samples, HistoricalTier::Codec, codec, bucket);
    if by_codec.len() >= MIN_GROUP_SAMPLES {
        return Some((HistoricalTier::Codec, by_codec));
    }
    let global = collect_tier(samples, HistoricalTier::Global, codec, bucket);
    if global.len() >= MIN_GROUP_SAMPLES {
        return Some((HistoricalTier::Global, global));
    }
    None
}

/// The estimate a fresh analysis gives: its predicted encode duration, for
/// conversions only (the prediction covers encoding), and only when it
/// predicted anything.
pub open spec fn prediction(operation: Operation, fresh_analysis: Option<AnalysisResultView>) -> Option<TimeEstimate> {
    match fresh_analysis {
        Some(analysis) => if operation == Operation::Convert && analysis.measurement.predicted_duration_ms > 0 {
            Some(TimeEstimate { duration_ms: analysis.measurement.predicted_duration_ms, basis: EstimateBasis::AnalysisPrediction })
        } else {
            None
        },
        None => None,
    }
}

/// The analysis-backed estimate, which wins over any historical one.
pub fn analysis_estimate(operation: Operation, fresh_analysis: Option<&AnalysisResult>) -> (estimate: Option<TimeEstimate>)
    ensures
        estimate == prediction(operation, match fresh_analysis { Some(a) => Some(a@), None => None }),
{
    match fresh_analysis {
        Some(analysis) => {
            let convert = match operation {
                Operation::Convert => true,
                Operation::Analyze => false,
            };
            let predicted = analysis.measurement.predicted_duration_ms;
            if convert && predicted > 0 {
                Some(TimeEstimate { duration_ms: predicted, basis: EstimateBasis::AnalysisPrediction })
            } else {
                None
            }
        },
        None => None,
    }
}

/// The historical rate samples of both operations, gathered once per
/// estimation round.
pub struct EstimationSamples {
    pub convert: Vec<RateObservation>,
    pub analyze: Vec<RateObservation>,
}

impl EstimationSamples {
    /// The samples the state holds for each operation.
    pub fn from_state(state: &DurableState) -> (samples: Self)
        ensures
            views(samples.convert@) == rate_samples_of(state@, Operation::Convert),
            views(samples.analyze@) == rate_samples_of(state@, Operation::Analyze),
    {
        EstimationSamples {
            convert: rate_samples(state, Operation::Convert),
            analyze: rate_samples(state, Operation::Analyze),
        }
    }

    /// The samples of one operation.
    pub open spec fn of(self, operation: Operation) -> Seq<RateObservationView> {
        match operation {
            Operation::Convert => views(self.convert@),
            Operation::Analyze => views(self.analyze@),
        }
    }

    /// Where a historical estimate for a video comes from: the answering
    /// tier and its samples; `None` for a video without duration, which no
    /// rate can scale, or when history is too sparse.
    pub fn historical_basis(&self, operation: Operation, metadata: &VideoMeta) -> (found: Option<(HistoricalTier, Vec<RateObservation>)>)
        ensures
            match found {
                Some((tier, group)) => {
                    &&& metadata.duration_ms > 0
                    &&& answering_tier(self.of(operation), metadata@.codec, bucket_of(metadata.width, metadata.height)) == Some(tier)
                    &&& views(group@) == tier_group(self.of(operation), tier, metadata@.codec, bucket_of(metadata.width, metadata.height))
                },
                None => metadata.duration_ms == 0 || answering_tier(
                    self.of(operation),
                    metadata@.codec,
                    bucket_of(metadata.width, metadata.height),
                ) is None,
            },
    {
        if metadata.duration_ms == 0 {
            return None;
        }
        let bucket = ResolutionBucket::from_dimensions(metadata.width, metadata.height);
        match operation {
            Operation::Convert => historical_group(&self.convert, &metadata.codec, bucket),
            Operation::Analyze => historical_group(&self.analyze, &metadata.codec, bucket),
        }
    }
}

} // verus!
