use crfty_core::observation::{observations, phase_duration, standing};
use crfty_core::{
    AnalysisAttempt, AnalysisIntent, AnalysisProfile, AnalysisResult, ArtifactIdentity, AudioCodec,
    AudioStreamMeta, ClaimId, CompletionEvidence, ContentKey, ConversionRun, Crf, DecodeMode,
    DestructiveIdentity, DurableState, DurationMs, EncodeMeasurement, ExecutionSettings,
    FailureFacts, FailureKind, FileRecord, FileSystemId, ItemOutcome, JobAction, JobPhase, JobSpec,
    MeasuredSizes, MediaContainer, Observation, ObservedOutcome, Operation, OutputState,
    OutputTarget, OutputTransaction, PhaseSpan, QueueItemId, Replacement, RunId,
    SearchMeasurement, SkipReason, StreamByteSizes, UnixMillis, VideoCodec, VideoMeta, VmafScore,
    VmafTarget, SourceAssessment, OutputKind, DecisiveKind,
};

const FINISHED: UnixMillis = UnixMillis(1_700_000_000_000);

fn key(name: &str) -> ContentKey {
    ContentKey(name.to_owned())
}

fn meta(codec: VideoCodec, size_bytes: u64) -> VideoMeta {
    VideoMeta {
        codec,
        container: MediaContainer::Matroska,
        width: 1920,
        height: 1080,
        rotation_degrees: 0,
        duration_ms: 600_000,
        size_bytes,
        audio: vec![AudioStreamMeta {
            codec: AudioCodec::Aac,
            channels: 2,
        }],
        subtitle_count: 0,
    }
}

fn analysis(crf_milli: u32, score_centi: u16) -> AnalysisResult {
    AnalysisResult {
        requested_target: VmafTarget(95),
        successful_target: VmafTarget(95),
        fallback_floor: VmafTarget(90),
        fallback_step: 1,
        failed_attempts: Vec::new(),
        measurement: SearchMeasurement {
            crf: Crf(crf_milli),
            score: VmafScore(score_centi),
            predicted_size: 1_000,
            predicted_percent_basis_points: 5_000,
            predicted_duration_ms: 60_000,
            from_cache: false,
        },
        profile: AnalysisProfile::production(),
    }
}

fn finished_run(run: u64, content_key: &ContentKey, outcome: ItemOutcome, finished_at: UnixMillis) -> ConversionRun {
    ConversionRun {
        spec: JobSpec {
            item_id: QueueItemId(run),
            claim_id: ClaimId(run),
            run_id: RunId(run),
            input: format!("input-{run}.mkv"),
            content_key: Some(content_key.clone()),
            operation: Operation::Convert,
            intent: AnalysisIntent::ReuseIfFresh,
            output_target: OutputTarget::Suffix {
                suffix: "-av1".to_owned(),
            },
            execution: ExecutionSettings::production(AnalysisProfile::production(), false),
            action: JobAction::Encode {
                selected_analysis: None,
            },
        },
        analysis: Some(analysis(24_000, 9_512)),
        output_content_key: None,
        outcome: Some(outcome),
        started_at: Some(UnixMillis(finished_at.0.saturating_sub(1_000))),
        finished_at: Some(finished_at),
        phase_spans: vec![
            PhaseSpan {
                phase: JobPhase::Analyzing,
                duration: DurationMs(60_000),
            },
            PhaseSpan {
                phase: JobPhase::Encoding,
                duration: DurationMs(240_000),
            },
        ],
    }
}

fn live(input_size: u64, output_size: u64) -> CompletionEvidence {
    CompletionEvidence::LiveEncode {
        input_size,
        output_size,
        stream_sizes: StreamByteSizes {
            video: output_size,
            audio: 0,
            subtitle: 0,
            other: 0,
        },
        encode_decode: DecodeMode::Software,
    }
}

fn state_with(runs: Vec<ConversionRun>) -> DurableState {
    let mut state = DurableState::default();
    for run in runs {
        if let Some(content_key) = &run.spec.content_key {
            if !state.records.iter().any(|(key, _)| key == content_key) {
                state
                    .records
                    .push((content_key.clone(), FileRecord::new(meta(VideoCodec::Hevc, 8_000))));
            }
        }
        state.conversion_runs.push(run);
    }
    state
}

fn run(id: u64, content: &str, outcome: ItemOutcome) -> ConversionRun {
    let mut run = finished_run(id, &key(content), outcome, UnixMillis(FINISHED.0 + id));
    match &run.outcome {
        Some(ItemOutcome::Remuxed(_)) => {
            run.analysis = None;
            run.spec.action = JobAction::Remux;
            run.phase_spans.clear();
        }
        Some(ItemOutcome::NotWorthwhile { .. }) => {
            run.analysis = None;
            run.phase_spans.truncate(1);
        }
        Some(ItemOutcome::Analyzed) => {
            run.spec.operation = Operation::Analyze;
            run.spec.action = JobAction::Analyze {
                selected_analysis: None,
            };
            run.phase_spans.truncate(1);
        }
        _ => {}
    }
    run
}

fn not_worthwhile() -> ItemOutcome {
    ItemOutcome::NotWorthwhile {
        attempts: vec![AnalysisAttempt {
            target: VmafTarget(95),
            last_measurement: None,
        }],
    }
}

fn identity(size: u64) -> DestructiveIdentity {
    DestructiveIdentity {
        file_id: FileSystemId::Unix {
            device: 1,
            inode: size,
        },
        size,
        modified_ns: None,
    }
}

fn committed_output(run_id: u64, input: u64, output: u64) -> OutputTransaction {
    OutputTransaction {
        run_id: RunId(run_id),
        input: format!("input-{run_id}.mkv"),
        input_identity: ArtifactIdentity {
            content_key: key("input"),
            destructive: identity(input),
        },
        staging: "staging".to_owned(),
        initial_staging_identity: ArtifactIdentity {
            content_key: key("empty"),
            destructive: identity(0),
        },
        final_path: "final.mkv".to_owned(),
        final_preimage: None,
        replacement: Replacement::KeepOriginal,
        state: OutputState::Committed {
            final_identity: ArtifactIdentity {
                content_key: key("output"),
                destructive: identity(output),
            },
        },
    }
}

fn only(state: &DurableState) -> Observation {
    let mut found = observations(state);
    assert_eq!(found.len(), 1, "exactly one observation");
    found.pop().expect("length checked")
}

#[test]
fn every_terminal_outcome_except_skipped_becomes_one_observation() {
    let state = state_with(vec![
        run(1, "a", ItemOutcome::Analyzed),
        run(2, "a", ItemOutcome::Converted(live(8_000, 3_000))),
        run(
            3,
            "b",
            ItemOutcome::Remuxed(CompletionEvidence::LiveRemux {
                input_size: 8_000,
                output_size: 7_900,
            }),
        ),
        run(4, "c", not_worthwhile()),
        run(
            5,
            "d",
            ItemOutcome::Failed(FailureFacts::new(FailureKind::EncodeRun, "boom".to_owned())),
        ),
        run(6, "d", ItemOutcome::Stopped),
        run(
            8,
            "e",
            ItemOutcome::Skipped {
                reason: SkipReason::AlreadyAv1Matroska,
            },
        ),
        ConversionRun {
            outcome: None,
            ..run(9, "f", ItemOutcome::Stopped)
        },
    ]);
    let found = observations(&state);
    let ids: Vec<u64> = found.iter().map(|observation| observation.run_id.0).collect();
    assert_eq!(ids, vec![1, 2, 3, 4, 5, 6]);
    for observation in &found {
        assert_eq!(observation.validate(), Ok(()));
        assert_eq!(
            observation.finished_at,
            Some(UnixMillis(FINISHED.0 + observation.run_id.0))
        );
    }
    assert!(matches!(found[0].outcome, ObservedOutcome::Analyzed { .. }));
    assert!(matches!(found[1].outcome, ObservedOutcome::Converted { .. }));
    assert!(matches!(found[2].outcome, ObservedOutcome::Remuxed { .. }));
    assert!(matches!(
        found[3].outcome,
        ObservedOutcome::NotWorthwhile {
            requested: VmafTarget(95),
            floor: VmafTarget(90),
            ..
        }
    ));
    assert!(matches!(&found[4].outcome, ObservedOutcome::Failed { facts } if facts.message == "boom"));
    assert_eq!(found[5].outcome, ObservedOutcome::Stopped);
}

#[test]
fn live_conversion_carries_predictions_and_measurements_apart() {
    let state = state_with(vec![run(1, "a", ItemOutcome::Converted(live(8_000, 3_000)))]);
    let observation = only(&state);
    let ObservedOutcome::Converted { search, encode } = &observation.outcome else {
        panic!("converted observation");
    };
    assert_eq!(search.analysis, analysis(24_000, 9_512));
    assert_eq!(search.duration, Some(DurationMs(60_000)));
    assert_eq!(
        encode.measurement,
        EncodeMeasurement::Live {
            sizes: MeasuredSizes {
                input: 8_000,
                output: 3_000
            },
            decode: DecodeMode::Software,
        }
    );
    assert_eq!(encode.duration, Some(DurationMs(240_000)));
    assert_eq!(search.assessment, None);
    assert_eq!(encode.assessment, None);
    let Some(source) = &observation.source else {
        panic!("identified source");
    };
    assert_eq!(source.content_key, key("a"));
    assert_eq!((source.width, source.height), (1920, 1080));
    assert_eq!(source.duration_ms, 600_000);
}

#[test]
fn recovered_success_takes_sizes_only_from_the_promoted_artifact() {
    let mut state = state_with(vec![
        run(1, "a", ItemOutcome::Converted(CompletionEvidence::RecoveredAtStartup)),
        run(2, "b", ItemOutcome::Converted(CompletionEvidence::RecoveredAtStartup)),
    ]);
    state.outputs.push(committed_output(1, 8_000, 3_000));
    let found = observations(&state);
    let measurements: Vec<&EncodeMeasurement> = found
        .iter()
        .filter_map(|observation| match &observation.outcome {
            ObservedOutcome::Converted { encode, .. } => Some(&encode.measurement),
            _ => None,
        })
        .collect();
    assert_eq!(
        measurements,
        vec![
            &EncodeMeasurement::Recovered {
                sizes: Some(MeasuredSizes {
                    input: 8_000,
                    output: 3_000
                })
            },
            &EncodeMeasurement::Recovered { sizes: None },
        ]
    );
}

#[test]
fn phase_durations_are_absent_without_a_span_and_sum_repeated_spans() {
    let spans = vec![
        PhaseSpan {
            phase: JobPhase::Encoding,
            duration: DurationMs(10),
        },
        PhaseSpan {
            phase: JobPhase::Encoding,
            duration: DurationMs(5),
        },
    ];
    assert_eq!(phase_duration(&spans, JobPhase::Encoding), Some(DurationMs(15)));
    assert_eq!(phase_duration(&spans, JobPhase::Analyzing), None);
    assert_eq!(phase_duration(&Vec::new(), JobPhase::Encoding), None);
}

#[test]
fn a_run_without_a_record_has_no_source_and_no_eligible_facts() {
    let mut state = state_with(vec![run(1, "a", ItemOutcome::Converted(live(8_000, 3_000)))]);
    state.records.clear();
    let observation = only(&state);
    assert_eq!(observation.source, None);
    assert!(observation.decisive_fact().is_none());
    assert!(observation.reduction_fact().is_none());
    assert!(observation.rate_sample(Operation::Convert).is_none());
    assert!(observation.prediction_pair().is_none());
}

#[test]
fn standing_is_the_latest_decisive_observation_per_content() {
    let state = state_with(vec![
        run(1, "a", ItemOutcome::Converted(live(8_000, 3_000))),
        run(
            2,
            "a",
            ItemOutcome::Failed(FailureFacts::new(FailureKind::EncodeRun, "x".to_owned())),
        ),
        run(3, "a", ItemOutcome::Analyzed),
        run(4, "b", not_worthwhile()),
        run(5, "b", ItemOutcome::Converted(live(8_000, 3_000))),
        run(6, "c", ItemOutcome::Stopped),
    ]);
    let found = observations(&state);
    let standing_run = |name: &str| standing(&found, &key(name)).map(|found| found.run_id);
    assert_eq!(standing_run("a"), Some(RunId(1)));
    assert_eq!(standing_run("b"), Some(RunId(5)));
    assert_eq!(standing_run("c"), None);
    assert_eq!(standing_run("missing"), None);
}

fn assessed(mut observation: Observation, assessment: Option<SourceAssessment>) -> Observation {
    match &mut observation.outcome {
        ObservedOutcome::Analyzed { search } => search.assessment = assessment,
        ObservedOutcome::Converted { search, encode } => {
            search.assessment = assessment;
            encode.assessment = assessment;
        }
        ObservedOutcome::Remuxed { remux } => remux.assessment = assessment,
        ObservedOutcome::NotWorthwhile { .. } | ObservedOutcome::Failed { .. } | ObservedOutcome::Stopped => {}
    }
    observation
}

#[test]
fn decisive_facts_need_no_assessment_but_aggregates_need_a_matched_source() {
    let state = state_with(vec![run(1, "a", ItemOutcome::Converted(live(8_000, 3_000)))]);
    let unassessed = only(&state);
    assert!(unassessed.decisive_fact().is_some());
    assert!(unassessed.reduction_fact().is_none());
    assert!(unassessed.rate_sample(Operation::Analyze).is_none());
    assert!(unassessed.rate_sample(Operation::Convert).is_none());
    assert!(unassessed.prediction_pair().is_none());

    let matched = assessed(unassessed.clone(), Some(SourceAssessment::Matched));
    let Some(reduction) = matched.reduction_fact() else {
        panic!("matched conversion is a reduction fact");
    };
    assert_eq!(reduction.kind, OutputKind::Converted);
    assert_eq!(reduction.sizes.reduction_bytes(), 5_000);
    assert_eq!(
        reduction.search.map(|found| found.measurement.score),
        Some(VmafScore(9_512))
    );
    assert_eq!(
        matched.rate_sample(Operation::Analyze).map(|sample| sample.elapsed),
        Some(DurationMs(60_000))
    );
    assert_eq!(
        matched.rate_sample(Operation::Convert).map(|sample| sample.elapsed),
        Some(DurationMs(240_000))
    );
    let Some(pair) = matched.prediction_pair() else {
        panic!("matched conversion is a prediction pair");
    };
    assert_eq!(pair.predicted.predicted_size, 1_000);
    assert_eq!(pair.measured.output, 3_000);
    assert_eq!(pair.encoding, DurationMs(240_000));

    for assessment in [
        SourceAssessment::IdentityDiffers,
        SourceAssessment::PropertiesChanged,
        SourceAssessment::Absent,
        SourceAssessment::Unassessable,
    ] {
        let changed = assessed(unassessed.clone(), Some(assessment));
        assert!(changed.decisive_fact().is_some());
        assert!(changed.reduction_fact().is_none());
        assert!(changed.rate_sample(Operation::Convert).is_none());
        assert!(changed.prediction_pair().is_none());
    }
}

#[test]
fn recovered_conversion_without_sizes_is_decisive_but_not_a_reduction_or_pair() {
    let state = state_with(vec![run(1, "a", ItemOutcome::Converted(CompletionEvidence::RecoveredAtStartup))]);
    let observation = assessed(only(&state), Some(SourceAssessment::Matched));
    assert!(observation.decisive_fact().is_some());
    assert!(observation.reduction_fact().is_none());
    assert!(observation.prediction_pair().is_none());
    assert!(observation.rate_sample(Operation::Convert).is_some());
}

#[test]
fn remux_and_not_worthwhile_feed_only_the_facts_they_can_support() {
    let state = state_with(vec![
        run(
            1,
            "a",
            ItemOutcome::Remuxed(CompletionEvidence::LiveRemux {
                input_size: 8_000,
                output_size: 7_900,
            }),
        ),
        run(2, "b", not_worthwhile()),
        run(3, "c", ItemOutcome::Analyzed),
    ]);
    let found: Vec<Observation> = observations(&state)
        .into_iter()
        .map(|observation| assessed(observation, Some(SourceAssessment::Matched)))
        .collect();
    let [remuxed, declined, analyzed] = found.as_slice() else {
        panic!("three observations");
    };

    let Some(remux) = remuxed.reduction_fact() else {
        panic!("live remux is a reduction fact");
    };
    assert_eq!(remux.kind, OutputKind::Remuxed);
    assert_eq!(remux.search, None);
    assert!(remuxed.rate_sample(Operation::Analyze).is_none());
    assert!(remuxed.rate_sample(Operation::Convert).is_none());
    assert!(remuxed.prediction_pair().is_none());

    assert!(matches!(
        declined.decisive_fact().map(|fact| fact.kind),
        Some(DecisiveKind::NotWorthwhile { .. })
    ));
    assert!(declined.reduction_fact().is_none());
    assert!(declined.rate_sample(Operation::Analyze).is_none());

    assert!(analyzed.decisive_fact().is_none());
    assert_eq!(
        analyzed.rate_sample(Operation::Analyze).map(|sample| sample.elapsed),
        Some(DurationMs(60_000))
    );
    assert!(analyzed.rate_sample(Operation::Convert).is_none());
}

#[test]
fn interrupted_and_failed_runs_are_browsable_only() {
    let state = state_with(vec![
        run(
            1,
            "a",
            ItemOutcome::Failed(FailureFacts::new(FailureKind::SearchRun, "x".to_owned())),
        ),
        run(2, "a", ItemOutcome::Stopped),
    ]);
    let found = observations(&state);
    assert_eq!(found.len(), 2);
    for observation in found {
        let observation = assessed(observation, Some(SourceAssessment::Matched));
        assert!(observation.source.is_some());
        assert!(observation.decisive_fact().is_none());
        assert!(observation.reduction_fact().is_none());
        assert!(observation.rate_sample(Operation::Analyze).is_none());
        assert!(observation.rate_sample(Operation::Convert).is_none());
        assert!(observation.prediction_pair().is_none());
    }
}

#[test]
fn rate_samples_need_positive_source_and_phase_durations() {
    let mut state = state_with(vec![run(1, "a", ItemOutcome::Converted(live(8_000, 3_000)))]);
    let mut zero_length = assessed(only(&state), Some(SourceAssessment::Matched));
    if let Some(source) = &mut zero_length.source {
        source.duration_ms = 0;
    }
    assert!(zero_length.rate_sample(Operation::Convert).is_none());

    if let Some(run) = state.conversion_runs.iter_mut().find(|run| run.spec.run_id == RunId(1)) {
        run.phase_spans = vec![PhaseSpan {
            phase: JobPhase::Encoding,
            duration: DurationMs(0),
        }];
    }
    let unmeasured = assessed(only(&state), Some(SourceAssessment::Matched));
    assert!(unmeasured.rate_sample(Operation::Analyze).is_none());
    assert!(unmeasured.rate_sample(Operation::Convert).is_none());
}

#[test]
fn validation_rejects_shapes_the_types_cannot_exclude() {
    let state = state_with(vec![
        run(1, "a", ItemOutcome::Converted(live(8_000, 3_000))),
        run(2, "b", not_worthwhile()),
    ]);
    let found = observations(&state);
    let [converted, declined] = found.as_slice() else {
        panic!("two observations");
    };
    assert_eq!(converted.validate(), Ok(()));
    assert_eq!(declined.validate(), Ok(()));

    let mut reversed = converted.clone();
    reversed.started_at = Some(UnixMillis(FINISHED.0 + 10));
    assert_eq!(reversed.validate(), Err("observation finished before it started"));

    let mut unmeasured = converted.clone();
    if let ObservedOutcome::Converted { encode, .. } = &mut unmeasured.outcome {
        encode.duration = None;
    }
    assert_eq!(
        unmeasured.validate(),
        Err("live encode measurement requires an encode duration")
    );

    let mut inconsistent = converted.clone();
    if let ObservedOutcome::Converted { search, .. } = &mut inconsistent.outcome {
        search.analysis.successful_target = VmafTarget(99);
    }
    assert_eq!(
        inconsistent.validate(),
        Err("successful VMAF target is outside the requested fallback range")
    );

    let mut empty = declined.clone();
    if let ObservedOutcome::NotWorthwhile { attempts, .. } = &mut empty.outcome {
        attempts.clear();
    }
    assert_eq!(empty.validate(), Err("not-worthwhile observation carries no attempts"));

    let mut below_floor = declined.clone();
    if let ObservedOutcome::NotWorthwhile { attempts, .. } = &mut below_floor.outcome {
        for attempt in attempts.iter_mut() {
            attempt.target = VmafTarget(80);
        }
    }
    assert_eq!(
        below_floor.validate(),
        Err("not-worthwhile attempt targets outside the fallback range")
    );

    let mut inverted = declined.clone();
    if let ObservedOutcome::NotWorthwhile { floor, .. } = &mut inverted.outcome {
        *floor = VmafTarget(99);
    }
    assert_eq!(
        inverted.validate(),
        Err("not-worthwhile floor exceeds the requested target")
    );
}
