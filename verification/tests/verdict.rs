use crfty_core::policy::{evaluate_enqueue, select_job_action, verdict_applies, MIN_VIDEO_PIXELS};
use crfty_core::state::fold;
use crfty_core::worker_commands::validate_terminal;
use crfty_core::{
    AnalysisIntent, AnalysisProfile, ArtifactIdentity, AudioCodec, AudioStreamMeta, ClaimId,
    CompletionEvidence, ContentKey, ConversionRun, DestructiveIdentity, DurableDelta, DurableState,
    ExecutionSettings, FailureFacts, FailureKind, FileRecord, FileSystemId, FileTimeNs, ItemOutcome,
    JobAction, JobSpec, MediaContainer, MediaObservation, Operation, OutputState, OutputTarget,
    OutputTransaction, PathBinding, PathHash, QueueItemId, Replacement, RunId, SkipReason,
    TimestampReliability, ToolRevisions, UnixMillis, Verdict, VerdictKind, VideoCodec, VideoMeta,
    VmafTarget, OutputDelta, AnalysisResult, Crf, DecodeMode, DurationMs, JobPhase, PhaseSpan,
    SearchMeasurement, StreamByteSizes, VmafScore,
};

fn execution() -> ExecutionSettings {
    let revisions = ToolRevisions {
        ab_av1: "test-ab-av1".to_owned(),
        ffmpeg: "test-ffmpeg".to_owned(),
        encoder: "test-svt".to_owned(),
    };
    let mut profile = AnalysisProfile::production();
    profile.ab_av1_revision = revisions.ab_av1;
    profile.ffmpeg_revision = revisions.ffmpeg;
    profile.encoder_revision = revisions.encoder;
    ExecutionSettings::production(profile, false)
}

fn destructive(name: &str, size: u64) -> DestructiveIdentity {
    DestructiveIdentity {
        file_id: FileSystemId::Unix {
            device: 1,
            inode: u64::from(name.as_bytes().first().copied().unwrap_or_default()),
        },
        size,
        modified_ns: Some(FileTimeNs(size)),
    }
}

fn identity(name: &str, size: u64) -> ArtifactIdentity {
    ArtifactIdentity {
        content_key: ContentKey(name.to_owned()),
        destructive: destructive(name, size),
    }
}

fn transaction(run: u64, state: OutputState, replacement: Replacement) -> OutputTransaction {
    OutputTransaction {
        run_id: RunId(run),
        input: "input.mkv".to_owned(),
        input_identity: identity("input", 10),
        staging: ".output.mkv.crfty-9.part".to_owned(),
        initial_staging_identity: identity("staging", 0),
        final_path: "output.mkv".to_owned(),
        final_preimage: None,
        replacement,
        state,
    }
}

fn media_observation(content: &str) -> MediaObservation {
    MediaObservation {
        path_hash: PathHash(format!("path-{content}")),
        binding: PathBinding {
            identity: DestructiveIdentity {
                modified_ns: Some(FileTimeNs(1)),
                ..destructive(content, 10_000)
            },
            content_key: ContentKey(content.to_owned()),
        },
        metadata: VideoMeta {
            codec: VideoCodec::H264,
            container: MediaContainer::Matroska,
            width: 1_280,
            height: 720,
            rotation_degrees: 0,
            duration_ms: 60_000,
            size_bytes: 10_000,
            audio: vec![AudioStreamMeta {
                codec: AudioCodec::Aac,
                channels: 2,
            }],
            subtitle_count: 0,
        },
    }
}

fn spec(item: u64, claim: u64, run: u64, key: Option<&str>) -> JobSpec {
    JobSpec {
        item_id: QueueItemId(item),
        claim_id: ClaimId(claim),
        run_id: RunId(run),
        input: "video.mkv".to_owned(),
        content_key: key.map(|key| ContentKey(key.to_owned())),
        operation: Operation::Convert,
        intent: AnalysisIntent::ReuseIfFresh,
        output_target: OutputTarget::Replace,
        execution: execution(),
        action: JobAction::Encode {
            selected_analysis: None,
        },
    }
}

/// Media observed, a run prepared against the content, and optionally an
/// output transaction for it, all folded directly.
fn verdict_fixture(run: u64, key: Option<&str>, output: Option<OutputState>) -> DurableState {
    let mut state = DurableState::default();
    fold(
        &mut state,
        &DurableDelta::MediaObserved {
            observation: Box::new(media_observation("verdict-content")),
        },
    );
    fold(
        &mut state,
        &DurableDelta::ItemPrepared {
            spec: Box::new(spec(1, 2, run, key)),
        },
    );
    if let Some(output) = output {
        fold(
            &mut state,
            &DurableDelta::Output(OutputDelta::EncodeStarted {
                transaction: Box::new(transaction(run, output, Replacement::KeepOriginal)),
            }),
        );
    }
    state
}

fn fold_finished(state: &mut DurableState, run: u64, outcome: ItemOutcome, at: u64) {
    fold(
        state,
        &DurableDelta::ItemFinished {
            item_id: QueueItemId(1),
            claim_id: ClaimId(2),
            run_id: RunId(run),
            outcome,
            at: UnixMillis(at),
            phase_spans: Vec::new(),
        },
    );
}

fn record_of<'a>(state: &'a DurableState, key: &str) -> Option<&'a FileRecord> {
    state
        .records
        .iter()
        .find(|(candidate, _)| candidate.0 == key)
        .map(|(_, record)| record)
}

fn record_verdict(state: &DurableState, key: &str) -> Option<Verdict> {
    record_of(state, key).expect("content record").verdict.clone()
}

fn converted_verdict(source_run: RunId) -> Verdict {
    Verdict {
        kind: VerdictKind::Converted {
            output_content_key: Some(ContentKey("ck-out".to_owned())),
            input_size: None,
            output_size: None,
            encoding_time: None,
            crf: None,
            vmaf: None,
            target: None,
        },
        source_run: Some(source_run),
        decided_at: UnixMillis(5_000),
    }
}

fn not_worthwhile_verdict(source_run: RunId) -> Verdict {
    let execution = execution();
    Verdict {
        kind: VerdictKind::NotWorthwhile {
            requested: execution.requested_target,
            floor: execution.fallback_floor,
        },
        source_run: Some(source_run),
        decided_at: UnixMillis(5_000),
    }
}

/// One observed path and record, optionally carrying a standing verdict;
/// with the path's hash and the file's unchanged identity.
fn enqueue_fixture(verdict: Option<Verdict>) -> (DurableState, PathHash, DestructiveIdentity) {
    let observation = media_observation("enqueue-content");
    let path_hash = observation.path_hash.clone();
    let identity = observation.binding.identity;
    let mut durable = DurableState::default();
    fold(
        &mut durable,
        &DurableDelta::MediaObserved {
            observation: Box::new(observation),
        },
    );
    if let Some(verdict) = verdict {
        durable
            .records
            .iter_mut()
            .find(|(key, _)| key.0 == "enqueue-content")
            .expect("observed record")
            .1
            .verdict = Some(verdict);
    }
    (durable, path_hash, identity)
}

fn set_output(durable: &mut DurableState, output: OutputTransaction) {
    durable.outputs.retain(|existing| existing.run_id != output.run_id);
    durable.outputs.push(output);
}

fn enqueue(
    durable: &DurableState,
    path_hash: &PathHash,
    identity: Option<&DestructiveIdentity>,
    reliability: TimestampReliability,
    operation: Operation,
    intent: AnalysisIntent,
) -> Option<SkipReason> {
    evaluate_enqueue(durable, path_hash, identity, reliability, operation, intent)
}

#[test]
fn decisive_outcomes_upsert_the_record_verdict() {
    let key = "verdict-content";
    let mut state = verdict_fixture(
        3,
        Some(key),
        Some(OutputState::Committed {
            final_identity: identity("ck-out", 20),
        }),
    );
    fold_finished(&mut state, 3, ItemOutcome::Converted(CompletionEvidence::RecoveredAtStartup), 5_000);
    assert_eq!(
        record_verdict(&state, key),
        Some(Verdict {
            kind: VerdictKind::Converted {
                output_content_key: Some(ContentKey("ck-out".to_owned())),
                input_size: None,
                output_size: None,
                encoding_time: None,
                crf: None,
                vmaf: None,
                target: None,
            },
            source_run: Some(RunId(3)),
            decided_at: UnixMillis(5_000),
        })
    );

    let mut unsettled = verdict_fixture(3, Some(key), Some(OutputState::Started));
    fold_finished(&mut unsettled, 3, ItemOutcome::Converted(CompletionEvidence::RecoveredAtStartup), 5_000);
    assert_eq!(record_verdict(&unsettled, key), None);

    let mut skipped = verdict_fixture(3, Some(key), None);
    fold_finished(&mut skipped, 3, ItemOutcome::NotWorthwhile { attempts: Vec::new() }, 6_000);
    assert_eq!(
        record_verdict(&skipped, key),
        Some(Verdict {
            kind: VerdictKind::NotWorthwhile {
                requested: execution().requested_target,
                floor: execution().fallback_floor,
            },
            source_run: Some(RunId(3)),
            decided_at: UnixMillis(6_000),
        })
    );

    fold_finished(
        &mut skipped,
        3,
        ItemOutcome::Failed(FailureFacts::new(FailureKind::Internal, "fixture".to_owned())),
        7_000,
    );
    assert_eq!(
        record_verdict(&skipped, key).map(|verdict| verdict.decided_at),
        Some(UnixMillis(6_000))
    );

    let mut keyless = verdict_fixture(3, None, None);
    fold_finished(&mut keyless, 3, ItemOutcome::NotWorthwhile { attempts: Vec::new() }, 6_000);
    assert_eq!(record_verdict(&keyless, key), None);
}

#[test]
fn latest_decisive_run_wins_the_verdict() {
    let key = "verdict-content";
    let mut state = verdict_fixture(
        3,
        Some(key),
        Some(OutputState::Committed {
            final_identity: identity("ck-out", 20),
        }),
    );
    fold_finished(&mut state, 3, ItemOutcome::Converted(CompletionEvidence::RecoveredAtStartup), 5_000);
    fold(
        &mut state,
        &DurableDelta::ItemPrepared {
            spec: Box::new(spec(2, 8, 9, Some(key))),
        },
    );
    fold(
        &mut state,
        &DurableDelta::ItemFinished {
            item_id: QueueItemId(2),
            claim_id: ClaimId(8),
            run_id: RunId(9),
            outcome: ItemOutcome::NotWorthwhile { attempts: Vec::new() },
            at: UnixMillis(9_000),
            phase_spans: Vec::new(),
        },
    );
    let verdict = record_verdict(&state, key).expect("standing verdict");
    assert_eq!(verdict.source_run, Some(RunId(9)));
    assert!(matches!(verdict.kind, VerdictKind::NotWorthwhile { .. }));
}

#[test]
fn verdict_freshness_is_a_full_identity_match_against_the_settled_output() {
    let converted = converted_verdict(RunId(3));
    let settled = destructive("out", 42);
    let reliable = TimestampReliability::Reliable;
    assert!(verdict_applies(&converted, Some(&settled), Some(&settled), reliable));
    assert!(!verdict_applies(
        &converted,
        Some(&settled),
        Some(&settled),
        TimestampReliability::CoarseOrRecent,
    ));
    let resized = DestructiveIdentity { size: 43, ..settled };
    assert!(!verdict_applies(&converted, Some(&settled), Some(&resized), reliable));
    let touched = DestructiveIdentity {
        modified_ns: Some(FileTimeNs(7)),
        ..settled
    };
    assert!(!verdict_applies(&converted, Some(&settled), Some(&touched), reliable));
    let unstamped_now = DestructiveIdentity {
        modified_ns: None,
        ..settled
    };
    assert!(!verdict_applies(&converted, Some(&settled), Some(&unstamped_now), reliable));
    let unstamped = DestructiveIdentity {
        modified_ns: None,
        ..destructive("out", 42)
    };
    assert!(!verdict_applies(&converted, Some(&unstamped), Some(&unstamped), reliable));
    assert!(!verdict_applies(&converted, Some(&settled), None, reliable));
    assert!(!verdict_applies(&converted, None, Some(&settled), reliable));

    let not_worthwhile = Verdict {
        kind: VerdictKind::NotWorthwhile {
            requested: VmafTarget(95),
            floor: VmafTarget(90),
        },
        source_run: Some(RunId(3)),
        decided_at: UnixMillis(5_000),
    };
    assert!(verdict_applies(&not_worthwhile, None, None, TimestampReliability::Unknown));
}

#[test]
fn enqueue_disposition_is_verdict_aware_and_identity_gated() {
    assert_eq!(
        enqueue(
            &DurableState::default(),
            &PathHash("path-unknown".to_owned()),
            None,
            TimestampReliability::Unknown,
            Operation::Convert,
            AnalysisIntent::ReuseIfFresh,
        ),
        None
    );

    let (durable, path_hash, identity) = enqueue_fixture(Some(not_worthwhile_verdict(RunId(9))));
    let cases: [(Option<&DestructiveIdentity>, Operation, AnalysisIntent, Option<SkipReason>); 4] = [
        (
            Some(&identity),
            Operation::Convert,
            AnalysisIntent::ReuseIfFresh,
            Some(SkipReason::NotWorthwhile {
                source_run: Some(RunId(9)),
            }),
        ),
        (Some(&identity), Operation::Analyze, AnalysisIntent::ReuseIfFresh, None),
        (Some(&identity), Operation::Convert, AnalysisIntent::Refresh, None),
        (None, Operation::Convert, AnalysisIntent::ReuseIfFresh, None),
    ];
    for (identity, operation, intent, expected) in cases {
        assert_eq!(
            enqueue(&durable, &path_hash, identity, TimestampReliability::Reliable, operation, intent),
            expected,
            "operation {operation:?} intent {intent:?}"
        );
    }

    let changed = DestructiveIdentity {
        size: identity.size + 1,
        ..identity
    };
    assert_eq!(
        enqueue(
            &durable,
            &path_hash,
            Some(&changed),
            TimestampReliability::Reliable,
            Operation::Convert,
            AnalysisIntent::ReuseIfFresh,
        ),
        None
    );

    let (durable, path_hash, identity) = enqueue_fixture(Some(converted_verdict(RunId(9))));
    assert_eq!(
        enqueue(
            &durable,
            &path_hash,
            Some(&identity),
            TimestampReliability::Reliable,
            Operation::Convert,
            AnalysisIntent::ReuseIfFresh,
        ),
        Some(SkipReason::ProbableDuplicate {
            source_run: Some(RunId(9)),
        })
    );
    for reliability in [TimestampReliability::Unknown, TimestampReliability::CoarseOrRecent] {
        assert_eq!(
            enqueue(
                &durable,
                &path_hash,
                Some(&identity),
                reliability,
                Operation::Convert,
                AnalysisIntent::ReuseIfFresh,
            ),
            None
        );
    }
}

#[test]
fn enqueue_recognizes_the_replace_mode_output_without_a_fresh_binding() {
    let (mut durable, path_hash, _identity) = enqueue_fixture(Some(converted_verdict(RunId(9))));
    set_output(
        &mut durable,
        transaction(
            9,
            OutputState::Retired {
                final_identity: identity("out", 42),
            },
            Replacement::RetireOriginal,
        ),
    );
    let output_identity = destructive("out", 42);
    let convert = |durable: &DurableState, identity: &DestructiveIdentity, reliability, intent| {
        enqueue(durable, &path_hash, Some(identity), reliability, Operation::Convert, intent)
    };
    assert_eq!(
        convert(&durable, &output_identity, TimestampReliability::Reliable, AnalysisIntent::ReuseIfFresh),
        Some(SkipReason::AlreadyConverted {
            source_run: Some(RunId(9)),
        })
    );
    for reliability in [TimestampReliability::Unknown, TimestampReliability::CoarseOrRecent] {
        assert_eq!(
            convert(&durable, &output_identity, reliability, AnalysisIntent::ReuseIfFresh),
            None
        );
    }
    assert_eq!(
        convert(&durable, &output_identity, TimestampReliability::Reliable, AnalysisIntent::Refresh),
        None
    );
    let unrelated = destructive("unrelated", 43);
    assert_eq!(
        convert(&durable, &unrelated, TimestampReliability::Reliable, AnalysisIntent::ReuseIfFresh),
        None
    );
    set_output(
        &mut durable,
        transaction(
            9,
            OutputState::Ready {
                staging_identity: identity("out", 42),
            },
            Replacement::RetireOriginal,
        ),
    );
    assert_eq!(
        convert(&durable, &output_identity, TimestampReliability::Reliable, AnalysisIntent::ReuseIfFresh),
        None
    );
}

#[test]
fn enqueue_filters_ineligible_cached_metadata_only_when_fresh() {
    let (mut durable, path_hash, identity) = enqueue_fixture(None);
    let set_container = |durable: &mut DurableState, codec: VideoCodec, container: MediaContainer| {
        let record = &mut durable
            .records
            .iter_mut()
            .find(|(key, _)| key.0 == "enqueue-content")
            .expect("observed record")
            .1;
        record.metadata.codec = codec;
        record.metadata.container = container;
    };
    set_container(&mut durable, VideoCodec::Av1, MediaContainer::Matroska);
    let reliable = TimestampReliability::Reliable;
    assert_eq!(
        enqueue(&durable, &path_hash, Some(&identity), reliable, Operation::Convert, AnalysisIntent::ReuseIfFresh),
        Some(SkipReason::AlreadyAv1Matroska)
    );
    assert_eq!(
        enqueue(&durable, &path_hash, Some(&identity), reliable, Operation::Convert, AnalysisIntent::Refresh),
        Some(SkipReason::AlreadyAv1Matroska)
    );
    let changed = DestructiveIdentity {
        size: identity.size + 1,
        ..identity
    };
    assert_eq!(
        enqueue(&durable, &path_hash, Some(&changed), reliable, Operation::Convert, AnalysisIntent::ReuseIfFresh),
        None
    );
    set_container(&mut durable, VideoCodec::Av1, MediaContainer::Other("mp4".to_owned()));
    assert_eq!(
        enqueue(&durable, &path_hash, Some(&identity), reliable, Operation::Convert, AnalysisIntent::ReuseIfFresh),
        None
    );
}

#[test]
fn claim_short_circuits_content_with_a_decisive_verdict() {
    let metadata = media_observation("claim-content").metadata;
    let mut record = FileRecord::new(metadata.clone());
    record.verdict = Some(converted_verdict(RunId(4)));
    let execution = execution();
    let action = |metadata: &VideoMeta, record: &FileRecord, operation, intent| {
        select_job_action(Some(metadata), Some(record), operation, intent, &execution)
    };

    assert_eq!(
        action(&metadata, &record, Operation::Convert, AnalysisIntent::ReuseIfFresh),
        JobAction::Skip {
            reason: SkipReason::ProbableDuplicate {
                source_run: Some(RunId(4)),
            },
        }
    );
    assert_eq!(
        action(&metadata, &record, Operation::Convert, AnalysisIntent::Refresh),
        JobAction::Encode {
            selected_analysis: None,
        }
    );
    assert_eq!(
        action(&metadata, &record, Operation::Analyze, AnalysisIntent::ReuseIfFresh),
        JobAction::Analyze {
            selected_analysis: None,
        }
    );
    let mut small = metadata.clone();
    small.width = 640;
    small.height = 480;
    assert_eq!(
        action(&small, &record, Operation::Convert, AnalysisIntent::ReuseIfFresh),
        JobAction::Skip {
            reason: SkipReason::LowResolution {
                pixels: 640 * 480,
                minimum: MIN_VIDEO_PIXELS,
            },
        }
    );
    let mut av1_mp4 = metadata.clone();
    av1_mp4.codec = VideoCodec::Av1;
    av1_mp4.container = MediaContainer::Other("mp4".to_owned());
    assert_eq!(
        action(&av1_mp4, &record, Operation::Convert, AnalysisIntent::ReuseIfFresh),
        JobAction::Skip {
            reason: SkipReason::ProbableDuplicate {
                source_run: Some(RunId(4)),
            },
        }
    );
    record.verdict = None;
    assert_eq!(
        action(&av1_mp4, &record, Operation::Convert, AnalysisIntent::ReuseIfFresh),
        JobAction::Remux
    );
}

#[test]
fn claim_not_worthwhile_skip_respects_the_fallback_floor() {
    let metadata = media_observation("claim-floor").metadata;
    let mut record = FileRecord::new(metadata.clone());
    record.verdict = Some(not_worthwhile_verdict(RunId(4)));
    let execution = execution();
    assert_eq!(
        select_job_action(
            Some(&metadata),
            Some(&record),
            Operation::Convert,
            AnalysisIntent::ReuseIfFresh,
            &execution,
        ),
        JobAction::Skip {
            reason: SkipReason::NotWorthwhile {
                source_run: Some(RunId(4)),
            },
        }
    );
    let mut deeper = execution.clone();
    deeper.fallback_floor = VmafTarget(execution.fallback_floor.0 - 1);
    assert_eq!(
        select_job_action(
            Some(&metadata),
            Some(&record),
            Operation::Convert,
            AnalysisIntent::ReuseIfFresh,
            &deeper,
        ),
        JobAction::Encode {
            selected_analysis: None,
        }
    );
}

#[test]
fn enqueue_time_skip_reasons_are_never_terminal_outcomes() {
    let run = ConversionRun {
        spec: spec(1, 2, 3, None),
        analysis: None,
        output_content_key: None,
        outcome: None,
        started_at: None,
        finished_at: None,
        phase_spans: Vec::new(),
    };
    for reason in [
        SkipReason::AlreadyQueued,
        SkipReason::AlreadyConverted {
            source_run: Some(RunId(9)),
        },
    ] {
        assert!(
            validate_terminal(&run, None, &ItemOutcome::Skipped { reason }).is_err(),
            "{reason:?} must be rejected as a terminal outcome"
        );
    }
}

fn analysis() -> AnalysisResult {
    let execution = execution();
    AnalysisResult {
        requested_target: execution.requested_target,
        successful_target: execution.requested_target,
        fallback_floor: execution.fallback_floor,
        fallback_step: execution.fallback_step,
        failed_attempts: Vec::new(),
        measurement: SearchMeasurement {
            crf: Crf(30_000),
            score: VmafScore(9_500),
            predicted_size: 1_000,
            predicted_percent_basis_points: 5_000,
            predicted_duration_ms: 60_000,
            from_cache: false,
        },
        profile: execution.profile,
    }
}

#[test]
fn finished_verdict_absorbs_the_measured_summary() {
    let key = "verdict-content";
    let committed = || OutputState::Committed {
        final_identity: identity("ck-out", 20),
    };
    let mut state = verdict_fixture(3, Some(key), Some(committed()));
    fold(
        &mut state,
        &DurableDelta::AnalysisRecorded {
            run_id: RunId(3),
            result: Box::new(analysis()),
        },
    );
    let span = |phase, duration| PhaseSpan {
        phase,
        duration: DurationMs(duration),
    };
    fold(
        &mut state,
        &DurableDelta::ItemFinished {
            item_id: QueueItemId(1),
            claim_id: ClaimId(2),
            run_id: RunId(3),
            outcome: ItemOutcome::Converted(CompletionEvidence::LiveEncode {
                input_size: 10_000,
                output_size: 4_000,
                stream_sizes: StreamByteSizes {
                    video: 3_000,
                    audio: 900,
                    subtitle: 50,
                    other: 50,
                },
                encode_decode: DecodeMode::Software,
            }),
            at: UnixMillis(5_000),
            phase_spans: vec![
                span(JobPhase::Analyzing, 30_000),
                span(JobPhase::Encoding, 100_000),
                span(JobPhase::Encoding, 20_000),
                span(JobPhase::Verifying, 5_000),
            ],
        },
    );
    let verdict = record_verdict(&state, key).expect("standing verdict");
    assert_eq!(
        verdict.kind,
        VerdictKind::Converted {
            output_content_key: Some(ContentKey("ck-out".to_owned())),
            input_size: Some(10_000),
            output_size: Some(4_000),
            encoding_time: Some(DurationMs(120_000)),
            crf: Some(Crf(30_000)),
            vmaf: Some(VmafScore(9_500)),
            target: Some(VmafTarget(95)),
        }
    );

    let mut remuxed = verdict_fixture(3, Some(key), Some(committed()));
    fold(
        &mut remuxed,
        &DurableDelta::ItemFinished {
            item_id: QueueItemId(1),
            claim_id: ClaimId(2),
            run_id: RunId(3),
            outcome: ItemOutcome::Remuxed(CompletionEvidence::LiveRemux {
                input_size: 10_000,
                output_size: 9_800,
            }),
            at: UnixMillis(5_000),
            phase_spans: Vec::new(),
        },
    );
    let verdict = record_verdict(&remuxed, key).expect("standing verdict");
    assert_eq!(
        verdict.kind,
        VerdictKind::Remuxed {
            output_content_key: ContentKey("ck-out".to_owned()),
            input_size: Some(10_000),
            output_size: Some(9_800),
        }
    );
}

#[test]
fn adopted_verdicts_apply_only_by_content_identity() {
    let adopted_converted = Verdict {
        kind: VerdictKind::Converted {
            output_content_key: None,
            input_size: Some(10_000),
            output_size: Some(4_000),
            encoding_time: None,
            crf: None,
            vmaf: None,
            target: None,
        },
        source_run: None,
        decided_at: UnixMillis(1_000),
    };
    assert!(!verdict_applies(
        &adopted_converted,
        None,
        Some(&destructive("adopted-output", 4_000)),
        TimestampReliability::Reliable,
    ));
    let adopted_not_worthwhile = Verdict {
        kind: VerdictKind::NotWorthwhile {
            requested: VmafTarget(95),
            floor: VmafTarget(90),
        },
        source_run: None,
        decided_at: UnixMillis(1_000),
    };
    assert!(verdict_applies(&adopted_not_worthwhile, None, None, TimestampReliability::Unknown));
}
