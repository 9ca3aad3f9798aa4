use crfty_core::estimation::{analysis_estimate, EstimationSamples, MIN_GROUP_SAMPLES};
use crfty_core::{EstimateBasis, EstimateConfidence, HistoricalTier, ResolutionBucket, TimeEstimate};

use crfty_core::{
    AnalysisIntent, AnalysisProfile, AnalysisResult, ClaimId, CompletionEvidence, ContentKey,
    ConversionRun, Crf, DecodeMode, DurableState, DurationMs, ExecutionSettings, FileRecord,
    ItemOutcome, JobAction, JobPhase, JobSpec, MediaContainer, Operation, OutputTarget, PhaseSpan,
    QueueItemId, RunId, SearchMeasurement, StreamByteSizes, UnixMillis, Verdict, VerdictKind,
    VideoCodec, VideoMeta, VmafScore, VmafTarget,
};

#[test]
fn resolution_buckets_match_the_pixel_cutoffs() {
    let bucket = |width, height| ResolutionBucket::from_dimensions(width, height);
    assert_eq!(bucket(3840, 2160), Some(ResolutionBucket::Uhd4k));
    assert_eq!(bucket(2560, 1440), Some(ResolutionBucket::Qhd1440));
    assert_eq!(bucket(1920, 1080), Some(ResolutionBucket::Hd1080));
    assert_eq!(bucket(1280, 720), Some(ResolutionBucket::Hd720));
    assert_eq!(bucket(720, 480), Some(ResolutionBucket::Sd));
    assert_eq!(bucket(1080, 1920), Some(ResolutionBucket::Hd1080));
    assert_eq!(bucket(0, 1080), None);
}

#[test]
fn bucket_cutoffs_are_inclusive_lower_bounds() {
    assert_eq!(ResolutionBucket::from_dimensions(1280, 720), Some(ResolutionBucket::Hd720));
    assert_eq!(ResolutionBucket::from_dimensions(1279, 720), Some(ResolutionBucket::Sd));
    assert_eq!(ResolutionBucket::from_dimensions(u32::MAX, u32::MAX), Some(ResolutionBucket::Uhd4k));
}

#[test]
fn analysis_backed_estimates_are_precise_and_history_is_estimated() {
    let precise = TimeEstimate {
        duration_ms: 1_000,
        basis: EstimateBasis::AnalysisPrediction,
    };
    assert_eq!(precise.confidence(), EstimateConfidence::Precise);
    for tier in [HistoricalTier::CodecResolution, HistoricalTier::Codec, HistoricalTier::Global] {
        let estimate = TimeEstimate {
            duration_ms: 1_000,
            basis: EstimateBasis::Historical(tier),
        };
        assert_eq!(estimate.confidence(), EstimateConfidence::Estimated);
    }
}
fn meta(codec: VideoCodec, width: u32, height: u32, duration_ms: u64) -> VideoMeta {
    VideoMeta {
        codec,
        container: MediaContainer::Matroska,
        width,
        height,
        rotation_degrees: 0,
        duration_ms,
        size_bytes: 1_000_000,
        audio: Vec::new(),
        subtitle_count: 0,
    }
}

fn spans(analyzing_ms: u64, encoding_ms: u64) -> Vec<PhaseSpan> {
    let mut spans = Vec::new();
    if analyzing_ms > 0 {
        spans.push(PhaseSpan {
            phase: JobPhase::Analyzing,
            duration: DurationMs(analyzing_ms),
        });
    }
    if encoding_ms > 0 {
        spans.push(PhaseSpan {
            phase: JobPhase::Encoding,
            duration: DurationMs(encoding_ms),
        });
    }
    spans
}

fn run_shell(run: u64, content_key: &ContentKey, operation: Operation) -> ConversionRun {
    ConversionRun {
        spec: JobSpec {
            item_id: QueueItemId(run),
            claim_id: ClaimId(run),
            run_id: RunId(run),
            input: format!("input-{run}.mkv"),
            content_key: Some(content_key.clone()),
            operation,
            intent: AnalysisIntent::ReuseIfFresh,
            output_target: OutputTarget::Suffix {
                suffix: "-av1".to_owned(),
            },
            execution: ExecutionSettings::production(AnalysisProfile::production(), false),
            action: JobAction::Encode {
                selected_analysis: None,
            },
        },
        analysis: None,
        output_content_key: None,
        outcome: None,
        started_at: Some(UnixMillis(0)),
        finished_at: Some(UnixMillis(1_000_000)),
        phase_spans: Vec::new(),
    }
}

fn decided(state: &mut DurableState, run: u64, source: VideoMeta, kind: VerdictKind, outcome: ItemOutcome, phase_spans: Vec<PhaseSpan>) {
    let content_key = ContentKey(format!("content-{run:04}"));
    let mut record = FileRecord::new(source);
    record.verdict = Some(Verdict {
        kind,
        source_run: Some(RunId(run)),
        decided_at: UnixMillis(1_000_000),
    });
    state.records.push((content_key.clone(), record));
    let mut conversion = run_shell(run, &content_key, Operation::Convert);
    conversion.outcome = Some(outcome);
    conversion.phase_spans = phase_spans;
    state.conversion_runs.push(conversion);
}

fn add_converted(state: &mut DurableState, run: u64, source: VideoMeta, analyzing_ms: u64, encoding_ms: u64) {
    let kind = VerdictKind::Converted {
        output_content_key: Some(ContentKey(format!("out-{run:04}"))),
        input_size: None,
        output_size: None,
        encoding_time: None,
        crf: None,
        vmaf: None,
        target: None,
    };
    let outcome = ItemOutcome::Converted(CompletionEvidence::LiveEncode {
        input_size: 1_000_000,
        output_size: 400_000,
        stream_sizes: StreamByteSizes {
            video: 400_000,
            audio: 0,
            subtitle: 0,
            other: 0,
        },
        encode_decode: DecodeMode::Software,
    });
    decided(state, run, source, kind, outcome, spans(analyzing_ms, encoding_ms));
}

fn add_not_worthwhile(state: &mut DurableState, run: u64, source: VideoMeta, analyzing_ms: u64) {
    let kind = VerdictKind::NotWorthwhile {
        requested: VmafTarget(95),
        floor: VmafTarget(90),
    };
    let outcome = ItemOutcome::NotWorthwhile { attempts: Vec::new() };
    decided(state, run, source, kind, outcome, spans(analyzing_ms, 0));
}

fn add_analyzed(state: &mut DurableState, run: u64, source: VideoMeta, analyzing_ms: u64) {
    let content_key = ContentKey(format!("content-{run:04}"));
    state.records.push((content_key.clone(), FileRecord::new(source)));
    let mut analyzed = run_shell(run, &content_key, Operation::Analyze);
    analyzed.outcome = Some(ItemOutcome::Analyzed);
    analyzed.phase_spans = spans(analyzing_ms, 0);
    state.conversion_runs.push(analyzed);
}

fn hd_hevc(duration_ms: u64) -> VideoMeta {
    meta(VideoCodec::Hevc, 1920, 1080, duration_ms)
}

/// Five HEVC 1080p conversions of a 600s video at rates 1..=5.
fn hevc_ladder_state() -> DurableState {
    let mut state = DurableState::default();
    for step in 1..=5u64 {
        add_converted(&mut state, step, hd_hevc(600_000), 0, step * 600_000);
    }
    state
}

fn analysis_with_prediction(predicted_duration_ms: u64) -> AnalysisResult {
    AnalysisResult {
        requested_target: VmafTarget(95),
        successful_target: VmafTarget(95),
        fallback_floor: VmafTarget(90),
        fallback_step: 1,
        failed_attempts: Vec::new(),
        measurement: SearchMeasurement {
            crf: Crf(24_000),
            score: VmafScore(9_512),
            predicted_size: 400_000,
            predicted_percent_basis_points: 4_000,
            predicted_duration_ms,
            from_cache: false,
        },
        profile: AnalysisProfile::production(),
    }
}

fn elapsed(samples: &[crfty_core::estimation::RateObservation]) -> Vec<u64> {
    samples.iter().map(|sample| sample.elapsed_ms).collect()
}

#[test]
fn a_fresh_prediction_answers_conversions_only() {
    let analysis = analysis_with_prediction(123_456);
    let estimate = analysis_estimate(Operation::Convert, Some(&analysis)).expect("prediction");
    assert_eq!(estimate.duration_ms, 123_456);
    assert_eq!(estimate.basis, EstimateBasis::AnalysisPrediction);
    assert_eq!(estimate.confidence(), EstimateConfidence::Precise);
    assert_eq!(analysis_estimate(Operation::Analyze, Some(&analysis)), None);
    assert_eq!(analysis_estimate(Operation::Convert, Some(&analysis_with_prediction(0))), None);
    assert_eq!(analysis_estimate(Operation::Convert, None), None);
}

#[test]
fn the_ladder_answers_from_the_most_specific_group_with_enough_samples() {
    let samples = EstimationSamples::from_state(&hevc_ladder_state());
    assert_eq!(samples.convert.len(), 5);
    assert!(samples.analyze.is_empty());

    let (tier, group) = samples.historical_basis(Operation::Convert, &hd_hevc(600_000)).expect("specific group");
    assert_eq!(tier, HistoricalTier::CodecResolution);
    assert_eq!(elapsed(&group), vec![600_000, 1_200_000, 1_800_000, 2_400_000, 3_000_000]);
    assert!(group.iter().all(|sample| sample.duration_ms == 600_000 && sample.bucket == Some(ResolutionBucket::Hd1080)));

    let uhd = meta(VideoCodec::Hevc, 3840, 2160, 600_000);
    let (tier, group) = samples.historical_basis(Operation::Convert, &uhd).expect("codec group");
    assert_eq!(tier, HistoricalTier::Codec);
    assert_eq!(group.len(), 5);

    let h264 = meta(VideoCodec::H264, 1920, 1080, 600_000);
    let (tier, group) = samples.historical_basis(Operation::Convert, &h264).expect("global pool");
    assert_eq!(tier, HistoricalTier::Global);
    assert_eq!(group.len(), 5);

    assert!(samples.historical_basis(Operation::Analyze, &hd_hevc(600_000)).is_none());
    assert!(samples.historical_basis(Operation::Convert, &hd_hevc(0)).is_none());
}

#[test]
fn a_sparse_history_answers_nothing() {
    let mut state = DurableState::default();
    for step in 1..=2u64 {
        add_converted(&mut state, step, hd_hevc(600_000), 0, step * 600_000);
    }
    let samples = EstimationSamples::from_state(&state);
    assert_eq!(samples.convert.len(), MIN_GROUP_SAMPLES - 1);
    assert!(samples.historical_basis(Operation::Convert, &hd_hevc(600_000)).is_none());
}

#[test]
fn search_samples_come_from_facts_and_analyzed_runs() {
    let mut state = DurableState::default();
    add_not_worthwhile(&mut state, 1, hd_hevc(600_000), 600_000);
    add_not_worthwhile(&mut state, 2, hd_hevc(600_000), 1_200_000);
    add_converted(&mut state, 3, hd_hevc(600_000), 1_800_000, 2_400_000);
    add_analyzed(&mut state, 4, hd_hevc(600_000), 2_400_000);
    add_analyzed(&mut state, 5, hd_hevc(600_000), 3_000_000);
    let samples = EstimationSamples::from_state(&state);
    assert_eq!(elapsed(&samples.analyze), vec![600_000, 1_200_000, 1_800_000, 2_400_000, 3_000_000]);
    assert_eq!(elapsed(&samples.convert), vec![2_400_000]);
    let (tier, group) = samples.historical_basis(Operation::Analyze, &hd_hevc(600_000)).expect("analyze group");
    assert_eq!(tier, HistoricalTier::CodecResolution);
    assert_eq!(group.len(), 5);
    assert!(samples.historical_basis(Operation::Convert, &hd_hevc(600_000)).is_none());
}

#[test]
fn zero_durations_and_unmeasured_phases_make_no_samples() {
    let mut state = DurableState::default();
    for step in 1..=5u64 {
        add_converted(&mut state, step, hd_hevc(0), 0, 600_000);
    }
    add_converted(&mut state, 6, hd_hevc(600_000), 0, 0);
    let samples = EstimationSamples::from_state(&state);
    assert!(samples.convert.is_empty());
    assert!(samples.analyze.is_empty());
    assert!(samples.historical_basis(Operation::Convert, &hd_hevc(600_000)).is_none());
}
