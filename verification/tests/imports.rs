use crfty_core::constants::{DEFAULT_VMAF_TARGET, IMPORT_MTIME_TOLERANCE_NS, MIN_VMAF_FALLBACK_TARGET};
use crfty_core::policy::resolve_parked;
use crfty_core::reducer::apply;
use crfty_core::state::fold;
use crfty_core::{
    AnalysisIntent, AnalysisProfile, AnalysisResult, AppState, Applied, AudioCodec,
    AudioStreamMeta, ClaimId, Command, ContentKey, Crf, DestructiveIdentity, DurableDelta,
    DurableState, DurationMs, ExecutionSettings, FailureFacts, FailureKind, FileRecord,
    FileSystemId, FileTimeNs, HistoryCommand, ImportPath, ImportedProvenance, ItemOutcome,
    LocatedTool, LocatedTools, MediaContainer, MediaObservation, Operation, OutputTarget,
    OverwriteDecision, ParkedRecord, ParkedResolution, ParkedStatus, PathBinding, PathHash,
    QueueAddRequest, QueueCommand, QueueItemId, Reply, RunId, SearchMeasurement, SessionCommand,
    SystemCommand, TimestampReliability, ToolAvailability, ToolRevisions, ToolSource,
    ToolVerification, UnixMillis, Verdict, VerdictKind, VideoCodec, VideoMeta, VmafScore,
    VmafTarget, WorkerCommand,
};

fn revisions() -> ToolRevisions {
    ToolRevisions {
        ab_av1: "test-ab-av1".to_owned(),
        ffmpeg: "test-ffmpeg".to_owned(),
        encoder: "test-svt".to_owned(),
    }
}

fn available() -> ToolAvailability {
    ToolAvailability::Located {
        tools: LocatedTools {
            ffmpeg: LocatedTool {
                source: ToolSource::SearchPath,
                path: "/usr/bin/ffmpeg".to_owned(),
            },
            ffprobe: LocatedTool {
                source: ToolSource::SearchPath,
                path: "/usr/bin/ffprobe".to_owned(),
            },
        },
        verification: ToolVerification::Verified {
            revisions: revisions(),
            hardware_decoders: Vec::new(),
        },
    }
}

fn execution() -> ExecutionSettings {
    let mut profile = AnalysisProfile::production();
    let revisions = revisions();
    profile.ab_av1_revision = revisions.ab_av1;
    profile.ffmpeg_revision = revisions.ffmpeg;
    profile.encoder_revision = revisions.encoder;
    ExecutionSettings::production(profile, false)
}

fn analysis() -> AnalysisResult {
    let execution = execution();
    AnalysisResult {
        requested_target: execution.requested_target,
        successful_target: execution.requested_target,
        fallback_floor: execution.fallback_floor,
        fallback_step: execution.fallback_step,
        failed_attempts: Vec::new(),
        measurement: SearchMeasurement {
            crf: Crf(30_000),
            score: VmafScore(9_500),
            predicted_size: 1_000,
            predicted_percent_basis_points: 5_000,
            predicted_duration_ms: 60_000,
            from_cache: false,
        },
        profile: execution.profile,
    }
}

fn add_request(item_id: QueueItemId, input: &str) -> QueueAddRequest {
    QueueAddRequest {
        item_id,
        input: input.to_owned(),
        path_hash: None,
        identity: None,
        timestamp_reliability: TimestampReliability::Unknown,
        operation: Operation::Convert,
        intent: AnalysisIntent::ReuseIfFresh,
        output_target: OutputTarget::Replace,
        overwrite: OverwriteDecision::FollowSettings,
    }
}

fn add_command(item_id: QueueItemId, input: &str) -> Command {
    Command::Queue(QueueCommand::AddMany {
        requests: vec![add_request(item_id, input)],
    })
}

/// Reports available tools, then starts the session.
fn start_session(state: &mut AppState) -> Applied {
    let discovered = apply(
        state,
        Command::System(SystemCommand::ToolsDiscovered {
            availability: available(),
            update_available: false,
        }),
    );
    assert_eq!(discovered.reply, Reply::Accepted);
    apply(state, Command::Session(SessionCommand::Start))
}

fn reserve_and_prepare(
    state: &mut AppState,
    claim_id: ClaimId,
    run_id: RunId,
    execution: ExecutionSettings,
) -> Applied {
    let reserved = apply(
        state,
        Command::Worker(WorkerCommand::ReserveNext { claim_id, run_id }),
    );
    let Reply::Reserved(Some(job)) = reserved.reply else {
        return reserved;
    };
    apply(
        state,
        Command::Worker(WorkerCommand::PrepareReserved {
            item_id: job.item_id,
            claim_id,
            run_id,
            observation: None,
            import_paths: Vec::new(),
            execution,
        }),
    )
}

fn destructive(name: &str, size: u64) -> DestructiveIdentity {
    DestructiveIdentity {
        file_id: FileSystemId::Unix {
            device: 1,
            inode: u64::from(name.as_bytes().first().copied().unwrap_or_default()),
        },
        size,
        modified_ns: Some(FileTimeNs(size)),
    }
}

fn media_observation(content: &str) -> MediaObservation {
    MediaObservation {
        path_hash: PathHash(format!("path-{content}")),
        binding: PathBinding {
            identity: DestructiveIdentity {
                modified_ns: Some(FileTimeNs(1)),
                ..destructive(content, 10_000)
            },
            content_key: ContentKey(content.to_owned()),
        },
        metadata: VideoMeta {
            codec: VideoCodec::H264,
            container: MediaContainer::Matroska,
            width: 1_280,
            height: 720,
            rotation_degrees: 0,
            duration_ms: 60_000,
            size_bytes: 10_000,
            audio: vec![AudioStreamMeta {
                codec: AudioCodec::Aac,
                channels: 2,
            }],
            subtitle_count: 0,
        },
    }
}

fn failed(message: &str) -> ItemOutcome {
    ItemOutcome::Failed(FailureFacts::new(FailureKind::Internal, message.to_owned()))
}

fn terminal(item: u64, claim: u64, run: u64, outcome: ItemOutcome) -> Command {
    Command::Worker(WorkerCommand::Terminal {
        item_id: QueueItemId(item),
        claim_id: ClaimId(claim),
        run_id: RunId(run),
        outcome,
        at: UnixMillis(1_000),
        phase_spans: Vec::new(),
        final_telemetry: None,
    })
}

fn active_state() -> AppState {
    let mut state = AppState::default();
    let _added = apply(&mut state, add_command(QueueItemId(1), "video.mkv"));
    let _started = start_session(&mut state);
    let _claimed = reserve_and_prepare(&mut state, ClaimId(2), RunId(3), execution());
    let _running = apply(
        &mut state,
        Command::Worker(WorkerCommand::Started {
            item_id: QueueItemId(1),
            claim_id: ClaimId(2),
            run_id: RunId(3),
            at: UnixMillis(1_000),
        }),
    );
    let _analysis = apply(
        &mut state,
        Command::Worker(WorkerCommand::RecordAnalysis {
            item_id: QueueItemId(1),
            claim_id: ClaimId(2),
            run_id: RunId(3),
            result: Box::new(analysis()),
        }),
    );
    state
}


/// A parked record whose stamp matches `media_observation` (size 10_000,
/// mtime 1 ns), with a full summary.
fn parked_record(status: ParkedStatus) -> ParkedRecord {
    ParkedRecord {
        status,
        size: Some(10_000),
        modified_ns: Some(FileTimeNs(1)),
        video_codec: Some(VideoCodec::H264),
        width: Some(1_280),
        height: Some(720),
        duration_ms: Some(60_000),
        output_size: Some(4_000),
        encoding_time: Some(DurationMs(120_000)),
        crf: Some(Crf(30_000)),
        vmaf: Some(VmafScore(9_512)),
        target: Some(VmafTarget(95)),
        requested_target: Some(VmafTarget(94)),
        floor_target: Some(VmafTarget(91)),
        decided_at: UnixMillis(1_000),
    }
}

fn record_of<'a>(state: &'a DurableState, key: &ContentKey) -> &'a FileRecord {
    &state
        .records
        .iter()
        .find(|(candidate, _)| candidate == key)
        .expect("content record")
        .1
}

fn import(state: &mut AppState, records: Vec<(ImportPath, ParkedRecord)>) -> Applied {
    apply(state, Command::History(HistoryCommand::Import { records }))
}

fn prepare_with_imports(state: &mut AppState, observation: &MediaObservation, import_paths: Vec<ImportPath>) -> Applied {
    let _added = apply(state, add_command(QueueItemId(1), "video.mkv"));
    let _started = start_session(state);
    let reserved = apply(
        state,
        Command::Worker(WorkerCommand::ReserveNext {
            claim_id: ClaimId(2),
            run_id: RunId(3),
        }),
    );
    assert!(matches!(reserved.reply, Reply::Reserved(Some(_))));
    apply(
        state,
        Command::Worker(WorkerCommand::PrepareReserved {
            item_id: QueueItemId(1),
            claim_id: ClaimId(2),
            run_id: RunId(3),
            observation: Some(Box::new(observation.clone())),
            import_paths,
            execution: execution(),
        }),
    )
}

#[test]
fn resolve_parked_adopts_on_stamp_match_by_status() {
    let observation = media_observation("adopt-content");

    let ParkedResolution::Adopt { verdict: Some(verdict) } =
        resolve_parked(&parked_record(ParkedStatus::Converted), &observation)
    else {
        panic!("converted stamp match must adopt a verdict");
    };
    assert_eq!(verdict.source_run, None);
    assert_eq!(verdict.decided_at, UnixMillis(1_000));
    assert_eq!(
        verdict.kind,
        VerdictKind::Converted {
            output_content_key: None,
            input_size: Some(10_000),
            output_size: Some(4_000),
            encoding_time: Some(DurationMs(120_000)),
            crf: Some(Crf(30_000)),
            vmaf: Some(VmafScore(9_512)),
            target: Some(VmafTarget(95)),
        }
    );

    let ParkedResolution::Adopt { verdict: Some(verdict) } =
        resolve_parked(&parked_record(ParkedStatus::NotWorthwhile), &observation)
    else {
        panic!("not-worthwhile stamp match must adopt a verdict");
    };
    assert_eq!(
        verdict.kind,
        VerdictKind::NotWorthwhile {
            requested: VmafTarget(94),
            floor: VmafTarget(91),
        }
    );

    for status in [ParkedStatus::Scanned, ParkedStatus::Analyzed] {
        assert_eq!(
            resolve_parked(&parked_record(status), &observation),
            ParkedResolution::Adopt { verdict: None }
        );
    }

    let mut bare = parked_record(ParkedStatus::NotWorthwhile);
    bare.requested_target = None;
    bare.floor_target = None;
    let ParkedResolution::Adopt { verdict: Some(verdict) } = resolve_parked(&bare, &observation) else {
        panic!("missing targets still adopt");
    };
    assert_eq!(
        verdict.kind,
        VerdictKind::NotWorthwhile {
            requested: VmafTarget(DEFAULT_VMAF_TARGET),
            floor: VmafTarget(MIN_VMAF_FALLBACK_TARGET),
        }
    );
}

#[test]
fn resolve_parked_stamp_tolerance_and_retirement() {
    let observation = media_observation("adopt-content");

    let mut drifted = parked_record(ParkedStatus::Scanned);
    drifted.modified_ns = Some(FileTimeNs(1 + IMPORT_MTIME_TOLERANCE_NS));
    assert_eq!(resolve_parked(&drifted, &observation), ParkedResolution::Adopt { verdict: None });
    let mut beyond = parked_record(ParkedStatus::Scanned);
    beyond.modified_ns = Some(FileTimeNs(2 + IMPORT_MTIME_TOLERANCE_NS));
    assert_eq!(resolve_parked(&beyond, &observation), ParkedResolution::Retire);

    let mut sizeless = parked_record(ParkedStatus::Scanned);
    sizeless.size = None;
    assert_eq!(resolve_parked(&sizeless, &observation), ParkedResolution::Retire);
    let mut timeless = parked_record(ParkedStatus::Scanned);
    timeless.modified_ns = None;
    assert_eq!(resolve_parked(&timeless, &observation), ParkedResolution::Retire);

    let mut replaced = parked_record(ParkedStatus::Converted);
    replaced.size = Some(99_999);
    let mut av1_observation = media_observation("adopt-content");
    av1_observation.metadata.codec = VideoCodec::Av1;
    let ParkedResolution::Adopt { verdict: Some(verdict) } = resolve_parked(&replaced, &av1_observation) else {
        panic!("replace-mode output must adopt the converted verdict");
    };
    assert!(matches!(verdict.kind, VerdictKind::Converted { .. }));
    assert_eq!(resolve_parked(&replaced, &observation), ParkedResolution::Retire);
}

#[test]
fn imported_provenance_priority_is_total_and_deterministic() {
    let current = ImportedProvenance {
        import_path: ImportPath("c:/videos/z.mkv".to_owned()),
        record: parked_record(ParkedStatus::Analyzed),
    };
    let stronger = ImportedProvenance {
        import_path: ImportPath("c:/videos/y.mkv".to_owned()),
        record: parked_record(ParkedStatus::Converted),
    };
    assert!(stronger.outranks(&current));
    assert!(!current.outranks(&stronger));

    let smaller_path = ImportedProvenance {
        import_path: ImportPath("c:/videos/a.mkv".to_owned()),
        record: parked_record(ParkedStatus::Converted),
    };
    assert!(smaller_path.outranks(&stronger));
    assert!(!stronger.outranks(&smaller_path));
    assert!(!smaller_path.outranks(&smaller_path));

    let mut newest = parked_record(ParkedStatus::Scanned);
    newest.decided_at = UnixMillis(1_001);
    let newer = ImportedProvenance {
        import_path: ImportPath("c:/videos/zz.mkv".to_owned()),
        record: newest,
    };
    assert!(newer.outranks(&smaller_path));
}

#[test]
fn history_deltas_fold_park_adopt_and_retire() {
    let mut state = DurableState::default();
    let key_a = ImportPath("c:/videos/a.mkv".to_owned());
    let key_b = ImportPath("c:/videos/b.mkv".to_owned());
    fold(
        &mut state,
        &DurableDelta::HistoryImported {
            records: vec![
                (key_a.clone(), parked_record(ParkedStatus::Converted)),
                (key_b.clone(), parked_record(ParkedStatus::Scanned)),
            ],
        },
    );
    assert_eq!(state.parked.len(), 2);

    let observation = media_observation("adopt-content");
    fold(
        &mut state,
        &DurableDelta::MediaObserved {
            observation: Box::new(observation.clone()),
        },
    );
    let adopted_verdict = Verdict {
        kind: VerdictKind::NotWorthwhile {
            requested: VmafTarget(95),
            floor: VmafTarget(90),
        },
        source_run: None,
        decided_at: UnixMillis(1_000),
    };
    fold(
        &mut state,
        &DurableDelta::ParkedAdopted {
            import_path: key_a.clone(),
            content_key: observation.binding.content_key.clone(),
            imported: parked_record(ParkedStatus::Converted),
            verdict: Some(adopted_verdict.clone()),
        },
    );
    let record = record_of(&state, &observation.binding.content_key);
    assert_eq!(record.imported.as_ref().map(|imported| &imported.import_path), Some(&key_a));
    assert_eq!(record.verdict, Some(adopted_verdict.clone()));
    assert!(!state.parked.iter().any(|(key, _)| key == &key_a));

    fold(
        &mut state,
        &DurableDelta::ParkedAdopted {
            import_path: key_b.clone(),
            content_key: observation.binding.content_key.clone(),
            imported: parked_record(ParkedStatus::Scanned),
            verdict: None,
        },
    );
    let record = record_of(&state, &observation.binding.content_key);
    assert_eq!(record.imported.as_ref().map(|imported| &imported.import_path), Some(&key_a));
    assert_eq!(record.verdict, Some(adopted_verdict));
    assert!(state.parked.is_empty());
    assert_eq!(state.adopted_imports.len(), 2);
    assert!(state.adopted_imports.contains(&key_a));
    assert!(state.adopted_imports.contains(&key_b));

    let key_c = ImportPath("c:/videos/c.mkv".to_owned());
    fold(
        &mut state,
        &DurableDelta::HistoryImported {
            records: vec![(key_c.clone(), parked_record(ParkedStatus::Scanned))],
        },
    );
    fold(&mut state, &DurableDelta::ParkedRetired { import_path: key_c });
    assert!(state.parked.is_empty());
}

#[test]
fn import_parks_fresh_records_and_skips_known_keys() {
    let mut state = AppState::default();
    let key_a = ImportPath("c:/videos/a.mkv".to_owned());
    let key_b = ImportPath("c:/videos/b.mkv".to_owned());
    let batch = vec![
        (key_a.clone(), parked_record(ParkedStatus::Converted)),
        (key_b.clone(), parked_record(ParkedStatus::Scanned)),
        (key_a.clone(), parked_record(ParkedStatus::Scanned)),
    ];
    let imported = import(&mut state, batch.clone());
    assert_eq!(imported.reply, Reply::Imported { parked: 2, skipped: 1 });
    assert_eq!(imported.durable.len(), 1);
    assert_eq!(state.durable.parked.len(), 2);

    let again = import(&mut state, batch);
    assert_eq!(again.reply, Reply::Imported { parked: 0, skipped: 3 });
    assert!(again.durable.is_empty());

    let observation = media_observation("adopt-content");
    fold(
        &mut state.durable,
        &DurableDelta::MediaObserved {
            observation: Box::new(observation.clone()),
        },
    );
    fold(
        &mut state.durable,
        &DurableDelta::ParkedAdopted {
            import_path: key_a.clone(),
            content_key: observation.binding.content_key,
            imported: parked_record(ParkedStatus::Converted),
            verdict: None,
        },
    );
    let after_adoption = import(&mut state, vec![(key_a, parked_record(ParkedStatus::Converted))]);
    assert_eq!(after_adoption.reply, Reply::Imported { parked: 0, skipped: 1 });
}

#[test]
fn prepare_resolves_parked_records_after_the_observation() {
    let mut state = AppState::default();
    let matching = ImportPath("c:/videos/match.mkv".to_owned());
    let weaker_match = ImportPath("c:/videos/also-match.mkv".to_owned());
    let stale = ImportPath("c:/videos/stale.mkv".to_owned());
    let mut stale_record = parked_record(ParkedStatus::Scanned);
    stale_record.size = Some(99_999);
    let imported = import(
        &mut state,
        vec![
            (matching.clone(), parked_record(ParkedStatus::Converted)),
            (weaker_match.clone(), parked_record(ParkedStatus::Analyzed)),
            (stale.clone(), stale_record),
        ],
    );
    assert!(matches!(imported.reply, Reply::Imported { parked: 3, .. }));

    let observation = media_observation("adopt-content");
    let prepared = prepare_with_imports(
        &mut state,
        &observation,
        vec![weaker_match.clone(), stale.clone(), matching.clone()],
    );
    assert!(matches!(prepared.reply, Reply::Claimed(Some(_))));
    let observed_at = prepared
        .durable
        .iter()
        .position(|delta| matches!(delta, DurableDelta::MediaObserved { .. }))
        .expect("media observed");
    let adopted_at = prepared
        .durable
        .iter()
        .position(|delta| matches!(delta, DurableDelta::ParkedAdopted { .. }))
        .expect("parked adopted");
    assert!(observed_at < adopted_at);
    assert!(prepared
        .durable
        .iter()
        .any(|delta| matches!(delta, DurableDelta::ParkedRetired { .. })));

    assert!(state.durable.parked.is_empty());
    assert!(state.durable.adopted_imports.contains(&matching));
    assert!(state.durable.adopted_imports.contains(&weaker_match));
    let record = record_of(&state.durable, &observation.binding.content_key);
    assert_eq!(record.imported.as_ref().map(|imported| &imported.import_path), Some(&matching));
    let verdict = record.verdict.clone().expect("adopted verdict");
    assert_eq!(verdict.source_run, None);
    assert!(matches!(
        verdict.kind,
        VerdictKind::Converted {
            output_content_key: None,
            ..
        }
    ));
}

#[test]
fn adoption_never_overwrites_a_native_verdict() {
    let mut state = AppState::default();
    let key = ImportPath("c:/videos/native.mkv".to_owned());
    let _imported = import(&mut state, vec![(key.clone(), parked_record(ParkedStatus::Converted))]);
    let observation = media_observation("adopt-content");
    fold(
        &mut state.durable,
        &DurableDelta::MediaObserved {
            observation: Box::new(observation.clone()),
        },
    );
    let native = Verdict {
        kind: VerdictKind::NotWorthwhile {
            requested: VmafTarget(95),
            floor: VmafTarget(90),
        },
        source_run: Some(RunId(7)),
        decided_at: UnixMillis(9_000),
    };
    state
        .durable
        .records
        .iter_mut()
        .find(|(candidate, _)| candidate == &observation.binding.content_key)
        .expect("content record")
        .1
        .verdict = Some(native.clone());

    let prepared = prepare_with_imports(&mut state, &observation, vec![key.clone()]);
    assert!(matches!(prepared.reply, Reply::Claimed(Some(_))));
    let record = record_of(&state.durable, &observation.binding.content_key);
    assert_eq!(record.imported.as_ref().map(|imported| &imported.import_path), Some(&key));
    assert_eq!(record.verdict, Some(native));
    assert!(state.durable.parked.is_empty());
}

#[test]
fn provenance_ranking_does_not_depend_on_the_order_of_comparison() {
    let named = |path: &str, status: ParkedStatus, decided_at: u64| {
        let mut record = parked_record(status);
        record.decided_at = UnixMillis(decided_at);
        ImportedProvenance {
            import_path: ImportPath(path.to_owned()),
            record,
        }
    };
    let candidates = [
        named("c:/b.mkv", ParkedStatus::Converted, 1_000),
        named("c:/a.mkv", ParkedStatus::Converted, 1_000),
        named("c:/c.mkv", ParkedStatus::Analyzed, 1_000),
        named("c:/d.mkv", ParkedStatus::Scanned, 900),
    ];
    let best_from = |order: &[usize]| {
        let mut best: Option<&ImportedProvenance> = None;
        for &index in order {
            let candidate = &candidates[index];
            if best.map_or(true, |current| candidate.outranks(current)) {
                best = Some(candidate);
            }
        }
        best.map(|found| found.import_path.0.clone())
    };
    for order in [[0, 1, 2, 3], [3, 2, 1, 0], [1, 3, 0, 2], [2, 0, 3, 1]] {
        assert_eq!(best_from(&order), Some("c:/a.mkv".to_owned()));
    }
}
