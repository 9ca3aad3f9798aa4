use crfty_core::journal::{replay_records, FrameEnd, JournalLine, JournalRecord};
use crfty_core::reducer::apply;
use crfty_core::worker_commands::validate_terminal;
use crfty_core::job::permitted_profiles;
use crfty_core::policy::{select_analysis, select_job_action};
use crfty_core::{
    AnalysisIntent, AnalysisProfile, AnalysisResult, AppState, Applied, ArtifactIdentity,
    AudioCodec, AudioStreamMeta, ClaimId, Command, CompletionEvidence, ContentKey, Crf, DecodeMode,
    DestructiveIdentity, DiagnosticTail, DurationMs, EphemeralDelta, ExecutionSettings,
    FailureFacts, FailureKind, FileSystemId, FileTimeNs, ItemOutcome, JobAction, JobPhase,
    JournalEnvelope, JournalSequence, LocatedTool, LocatedTools, MediaContainer, MediaObservation,
    Operation, OutputDelta, OutputState, OutputTarget, OutputTransaction, OverwriteDecision,
    PathBinding, PathHash, PhaseSpan, QueueAddRequest, QueueCommand, QueueItemEdit, QueueItemId, QueueItemState,
    Replacement, Reply, RunId, SearchMeasurement, SessionAggregates, SessionCommand, SessionState,
    SkipReason, StreamByteSizes, SystemCommand, TimestampReliability, ToolAvailability,
    ToolRevisions, ToolSource, ToolVerification, UnixMillis, VideoCodec, VideoMeta, VmafScore,
    WorkerCommand, DIAGNOSTIC_TAIL_MAX_BYTES, FileRecord, HardwareDecoder,
};

fn revisions() -> ToolRevisions {
    ToolRevisions {
        ab_av1: "test-ab-av1".to_owned(),
        ffmpeg: "test-ffmpeg".to_owned(),
        encoder: "test-svt".to_owned(),
    }
}

fn available() -> ToolAvailability {
    ToolAvailability::Located {
        tools: LocatedTools {
            ffmpeg: LocatedTool {
                source: ToolSource::SearchPath,
                path: "/usr/bin/ffmpeg".to_owned(),
            },
            ffprobe: LocatedTool {
                source: ToolSource::SearchPath,
                path: "/usr/bin/ffprobe".to_owned(),
            },
        },
        verification: ToolVerification::Verified {
            revisions: revisions(),
            hardware_decoders: Vec::new(),
        },
    }
}

fn execution() -> ExecutionSettings {
    let mut profile = AnalysisProfile::production();
    let revisions = revisions();
    profile.ab_av1_revision = revisions.ab_av1;
    profile.ffmpeg_revision = revisions.ffmpeg;
    profile.encoder_revision = revisions.encoder;
    ExecutionSettings::production(profile, false)
}

fn analysis() -> AnalysisResult {
    let execution = execution();
    AnalysisResult {
        requested_target: execution.requested_target,
        successful_target: execution.requested_target,
        fallback_floor: execution.fallback_floor,
        fallback_step: execution.fallback_step,
        failed_attempts: Vec::new(),
        measurement: SearchMeasurement {
            crf: Crf(30_000),
            score: VmafScore(9_500),
            predicted_size: 1_000,
            predicted_percent_basis_points: 5_000,
            predicted_duration_ms: 60_000,
            from_cache: false,
        },
        profile: execution.profile,
    }
}

fn add_request(item_id: QueueItemId, input: &str) -> QueueAddRequest {
    QueueAddRequest {
        item_id,
        input: input.to_owned(),
        path_hash: None,
        identity: None,
        timestamp_reliability: TimestampReliability::Unknown,
        operation: Operation::Convert,
        intent: AnalysisIntent::ReuseIfFresh,
        output_target: OutputTarget::Replace,
        overwrite: OverwriteDecision::FollowSettings,
    }
}

fn add_command(item_id: QueueItemId, input: &str) -> Command {
    Command::Queue(QueueCommand::AddMany {
        requests: vec![add_request(item_id, input)],
    })
}

/// Reports available tools, then starts the session.
fn start_session(state: &mut AppState) -> Applied {
    let discovered = apply(
        state,
        Command::System(SystemCommand::ToolsDiscovered {
            availability: available(),
            update_available: false,
        }),
    );
    assert_eq!(discovered.reply, Reply::Accepted);
    apply(state, Command::Session(SessionCommand::Start))
}

fn reserve_and_prepare(
    state: &mut AppState,
    claim_id: ClaimId,
    run_id: RunId,
    execution: ExecutionSettings,
) -> Applied {
    let reserved = apply(
        state,
        Command::Worker(WorkerCommand::ReserveNext { claim_id, run_id }),
    );
    let Reply::Reserved(Some(job)) = reserved.reply else {
        return reserved;
    };
    apply(
        state,
        Command::Worker(WorkerCommand::PrepareReserved {
            item_id: job.item_id,
            claim_id,
            run_id,
            observation: None,
            import_paths: Vec::new(),
            execution,
        }),
    )
}

fn destructive(name: &str, size: u64) -> DestructiveIdentity {
    DestructiveIdentity {
        file_id: FileSystemId::Unix {
            device: 1,
            inode: u64::from(name.as_bytes().first().copied().unwrap_or_default()),
        },
        size,
        modified_ns: Some(FileTimeNs(size)),
    }
}

fn media_observation(content: &str) -> MediaObservation {
    MediaObservation {
        path_hash: PathHash(format!("path-{content}")),
        binding: PathBinding {
            identity: DestructiveIdentity {
                modified_ns: Some(FileTimeNs(1)),
                ..destructive(content, 10_000)
            },
            content_key: ContentKey(content.to_owned()),
        },
        metadata: VideoMeta {
            codec: VideoCodec::H264,
            container: MediaContainer::Matroska,
            width: 1_280,
            height: 720,
            rotation_degrees: 0,
            duration_ms: 60_000,
            size_bytes: 10_000,
            audio: vec![AudioStreamMeta {
                codec: AudioCodec::Aac,
                channels: 2,
            }],
            subtitle_count: 0,
        },
    }
}

fn failed(message: &str) -> ItemOutcome {
    ItemOutcome::Failed(FailureFacts::new(FailureKind::Internal, message.to_owned()))
}

fn terminal(item: u64, claim: u64, run: u64, outcome: ItemOutcome) -> Command {
    Command::Worker(WorkerCommand::Terminal {
        item_id: QueueItemId(item),
        claim_id: ClaimId(claim),
        run_id: RunId(run),
        outcome,
        at: UnixMillis(1_000),
        phase_spans: Vec::new(),
        final_telemetry: None,
    })
}

fn active_state() -> AppState {
    let mut state = AppState::default();
    let _added = apply(&mut state, add_command(QueueItemId(1), "video.mkv"));
    let _started = start_session(&mut state);
    let _claimed = reserve_and_prepare(&mut state, ClaimId(2), RunId(3), execution());
    let _running = apply(
        &mut state,
        Command::Worker(WorkerCommand::Started {
            item_id: QueueItemId(1),
            claim_id: ClaimId(2),
            run_id: RunId(3),
            at: UnixMillis(1_000),
        }),
    );
    let _analysis = apply(
        &mut state,
        Command::Worker(WorkerCommand::RecordAnalysis {
            item_id: QueueItemId(1),
            claim_id: ClaimId(2),
            run_id: RunId(3),
            result: Box::new(analysis()),
        }),
    );
    state
}


fn identity(name: &str, size: u64) -> ArtifactIdentity {
    ArtifactIdentity {
        content_key: ContentKey(name.to_owned()),
        destructive: destructive(name, size),
    }
}

fn transaction(run: u64, state: OutputState) -> OutputTransaction {
    OutputTransaction {
        run_id: RunId(run),
        input: "input.mkv".to_owned(),
        input_identity: identity("input", 10),
        staging: ".output.mkv.crfty-9.part".to_owned(),
        initial_staging_identity: identity("staging", 0),
        final_path: "output.mkv".to_owned(),
        final_preimage: None,
        replacement: Replacement::KeepOriginal,
        state,
    }
}

fn output(state: &mut AppState, delta: OutputDelta) -> Applied {
    apply(state, Command::Worker(WorkerCommand::Output(delta)))
}

fn start_output(state: &mut AppState) -> Applied {
    output(
        state,
        OutputDelta::EncodeStarted {
            transaction: Box::new(transaction(3, OutputState::Started)),
        },
    )
}

fn terminal_at(outcome: ItemOutcome, at: u64, phase_spans: Vec<PhaseSpan>) -> Command {
    Command::Worker(WorkerCommand::Terminal {
        item_id: QueueItemId(1),
        claim_id: ClaimId(2),
        run_id: RunId(3),
        outcome,
        at: UnixMillis(at),
        phase_spans,
        final_telemetry: None,
    })
}

fn reserve(state: &mut AppState) -> Applied {
    apply(
        state,
        Command::Worker(WorkerCommand::ReserveNext {
            claim_id: ClaimId(2),
            run_id: RunId(3),
        }),
    )
}

fn prepare(state: &mut AppState, observation: Option<MediaObservation>, execution: ExecutionSettings) -> Applied {
    apply(
        state,
        Command::Worker(WorkerCommand::PrepareReserved {
            item_id: QueueItemId(1),
            claim_id: ClaimId(2),
            run_id: RunId(3),
            observation: observation.map(Box::new),
            import_paths: Vec::new(),
            execution,
        }),
    )
}

fn started(state: &mut AppState) -> Applied {
    apply(
        state,
        Command::Worker(WorkerCommand::Started {
            item_id: QueueItemId(1),
            claim_id: ClaimId(2),
            run_id: RunId(3),
            at: UnixMillis(1_000),
        }),
    )
}

fn abandon(state: &mut AppState) -> Applied {
    apply(
        state,
        Command::Worker(WorkerCommand::AbandonReservation {
            item_id: QueueItemId(1),
            claim_id: ClaimId(2),
            run_id: RunId(3),
            at: UnixMillis(1_000),
        }),
    )
}

fn idle_with_one_item() -> AppState {
    let mut state = AppState::default();
    let _added = apply(&mut state, add_command(QueueItemId(1), "video.mkv"));
    let _started = start_session(&mut state);
    state
}

fn run_of(state: &AppState, run: u64) -> &crfty_core::ConversionRun {
    state
        .durable
        .conversion_runs
        .iter()
        .find(|candidate| candidate.spec.run_id == RunId(run))
        .expect("recorded run")
}

fn rejected(applied: &Applied) -> bool {
    matches!(applied.reply, Reply::Rejected { .. })
}

fn live_encode(input_size: u64, output_size: u64, stream_sizes: StreamByteSizes) -> CompletionEvidence {
    CompletionEvidence::LiveEncode {
        input_size,
        output_size,
        stream_sizes,
        encode_decode: DecodeMode::Software,
    }
}

#[test]
fn terminal_is_rejected_until_output_ledger_is_settled() {
    let mut state = active_state();
    assert_eq!(start_output(&mut state).reply, Reply::Accepted);
    let terminal = apply(&mut state, terminal_at(ItemOutcome::Stopped, 1_000, Vec::new()));
    assert!(rejected(&terminal));
}

#[test]
fn converted_requires_a_successfully_committed_output() {
    let mut state = active_state();
    let recovered = ItemOutcome::Converted(CompletionEvidence::RecoveredAtStartup);
    let without_output = apply(&mut state, terminal_at(recovered.clone(), 1_000, Vec::new()));
    assert!(rejected(&without_output));

    assert_eq!(start_output(&mut state).reply, Reply::Accepted);
    let conflict = output(
        &mut state,
        OutputDelta::Conflict {
            run_id: RunId(3),
            reason: "fixture conflict".to_owned(),
        },
    );
    assert_eq!(conflict.reply, Reply::Accepted);
    let conflicted = apply(&mut state, terminal_at(recovered, 1_000, Vec::new()));
    assert!(rejected(&conflicted));
}

#[test]
fn remuxed_requires_a_remux_action_and_committed_output() {
    let mut state = AppState::default();
    let _added = apply(&mut state, add_command(QueueItemId(1), "video.mp4"));
    let _started = start_session(&mut state);
    let _reserved = reserve(&mut state);
    let mut observation = media_observation("remux-content");
    observation.metadata.codec = VideoCodec::Av1;
    observation.metadata.container = MediaContainer::Other("mov,mp4".to_owned());
    let prepared = prepare(&mut state, Some(observation), execution());
    assert!(matches!(prepared.reply, Reply::Claimed(Some(_))));
    assert_eq!(started(&mut state).reply, Reply::Accepted);
    let run = run_of(&state, 3);
    assert_eq!(run.spec.action, JobAction::Remux);
    assert_eq!(run.started_at, Some(UnixMillis(1_000)));
    let committed = transaction(
        3,
        OutputState::Committed {
            final_identity: identity("remux-output", 20),
        },
    );
    let live_remux = ItemOutcome::Remuxed(CompletionEvidence::LiveRemux {
        input_size: 10_000,
        output_size: 20,
    });
    assert!(validate_terminal(run, Some(&committed), &live_remux).is_ok());
    assert!(validate_terminal(
        run,
        Some(&committed),
        &ItemOutcome::Remuxed(CompletionEvidence::RecoveredAtStartup),
    )
    .is_ok());
    assert!(validate_terminal(
        run,
        Some(&committed),
        &ItemOutcome::Converted(CompletionEvidence::RecoveredAtStartup),
    )
    .is_err());
    let encode_facts = live_encode(
        10_000,
        20,
        StreamByteSizes {
            video: 10,
            audio: 5,
            subtitle: 0,
            other: 5,
        },
    );
    assert!(validate_terminal(run, Some(&committed), &ItemOutcome::Remuxed(encode_facts)).is_err());
}

#[test]
fn successful_outcomes_require_a_started_run_and_matching_evidence() {
    let mut state = idle_with_one_item();
    let _claimed = reserve_and_prepare(&mut state, ClaimId(2), RunId(3), execution());
    let _analysis = apply(
        &mut state,
        Command::Worker(WorkerCommand::RecordAnalysis {
            item_id: QueueItemId(1),
            claim_id: ClaimId(2),
            run_id: RunId(3),
            result: Box::new(analysis()),
        }),
    );
    let run = run_of(&state, 3);
    assert_eq!(run.started_at, None);
    let committed = transaction(
        3,
        OutputState::Committed {
            final_identity: identity("encoded", 20),
        },
    );
    assert!(validate_terminal(
        run,
        Some(&committed),
        &ItemOutcome::Converted(CompletionEvidence::RecoveredAtStartup),
    )
    .is_err());

    let started_state = active_state();
    let started_run = run_of(&started_state, 3);
    assert!(started_run.started_at.is_some());
    assert!(validate_terminal(
        started_run,
        Some(&committed),
        &ItemOutcome::Converted(CompletionEvidence::LiveRemux {
            input_size: 10_000,
            output_size: 20,
        }),
    )
    .is_err());
    let encoded = live_encode(
        10_000,
        20,
        StreamByteSizes {
            video: 15,
            audio: 3,
            subtitle: 1,
            other: 1,
        },
    );
    assert!(validate_terminal(started_run, Some(&committed), &ItemOutcome::Converted(encoded)).is_ok());
}

#[test]
fn run_facts_fold_start_finish_instants_and_phase_spans() {
    let mut state = active_state();
    let spans = vec![
        PhaseSpan {
            phase: JobPhase::Preparing,
            duration: DurationMs(40),
        },
        PhaseSpan {
            phase: JobPhase::Analyzing,
            duration: DurationMs(65_000),
        },
    ];
    let finished = apply(&mut state, terminal_at(failed("fixture"), 2_000, spans.clone()));
    assert_eq!(finished.reply, Reply::Accepted);
    let run = run_of(&state, 3);
    assert_eq!(run.started_at, Some(UnixMillis(1_000)));
    assert_eq!(run.finished_at, Some(UnixMillis(2_000)));
    assert_eq!(run.phase_spans, spans);
}

#[test]
fn session_aggregates_absorb_counts_every_outcome_and_live_evidence() {
    let mut aggregates = SessionAggregates::default();
    aggregates.absorb(&ItemOutcome::Analyzed, &Vec::new());
    aggregates.absorb(
        &ItemOutcome::Converted(live_encode(
            1_000,
            400,
            StreamByteSizes {
                video: 300,
                audio: 80,
                subtitle: 15,
                other: 5,
            },
        )),
        &vec![
            PhaseSpan {
                phase: JobPhase::Analyzing,
                duration: DurationMs(30_000),
            },
            PhaseSpan {
                phase: JobPhase::Encoding,
                duration: DurationMs(90_000),
            },
        ],
    );
    aggregates.absorb(
        &ItemOutcome::Remuxed(CompletionEvidence::LiveRemux {
            input_size: 500,
            output_size: 480,
        }),
        &Vec::new(),
    );
    aggregates.absorb(&ItemOutcome::Converted(CompletionEvidence::RecoveredAtStartup), &Vec::new());
    aggregates.absorb(&ItemOutcome::NotWorthwhile { attempts: Vec::new() }, &Vec::new());
    aggregates.absorb(&ItemOutcome::Stopped, &Vec::new());
    aggregates.absorb(
        &ItemOutcome::Skipped {
            reason: SkipReason::OutputExists,
        },
        &Vec::new(),
    );
    aggregates.absorb(&failed("fixture"), &Vec::new());
    assert_eq!(
        aggregates,
        SessionAggregates {
            completed: 2,
            failed: 1,
            skipped: 1,
            stopped: 1,
            not_worthwhile: 1,
            analyzed: 1,
            remuxed: 1,
            input_bytes: 1_500,
            output_bytes: 880,
            encode_duration_ms: 90_000,
        }
    );
}

#[test]
fn session_start_zeroes_the_aggregates_for_the_new_run() {
    let mut state = AppState::default();
    let _added = apply(&mut state, add_command(QueueItemId(1), "video.mkv"));
    state.aggregates.completed = 5;
    let started = start_session(&mut state);
    assert_eq!(started.reply, Reply::Accepted);
    assert_eq!(
        started.ephemeral,
        vec![
            EphemeralDelta::SessionChanged(SessionState::Running),
            EphemeralDelta::SessionAggregates(SessionAggregates::default()),
        ]
    );
    assert_eq!(state.aggregates, SessionAggregates::default());
}

#[test]
fn terminal_and_abandonment_emit_the_updated_aggregates() {
    let mut state = active_state();
    let spans = vec![PhaseSpan {
        phase: JobPhase::Encoding,
        duration: DurationMs(1_500),
    }];
    let finished = apply(&mut state, terminal_at(failed("fixture"), 2_000, spans));
    assert_eq!(finished.reply, Reply::Accepted);
    let expected = SessionAggregates {
        failed: 1,
        encode_duration_ms: 1_500,
        ..SessionAggregates::default()
    };
    assert_eq!(
        finished.ephemeral.last(),
        Some(&EphemeralDelta::SessionAggregates(expected))
    );
    assert_eq!(state.aggregates, expected);

    let mut state = idle_with_one_item();
    let _reserved = reserve(&mut state);
    let stopped = abandon(&mut state);
    assert_eq!(stopped.reply, Reply::Accepted);
    let expected = SessionAggregates {
        stopped: 1,
        ..SessionAggregates::default()
    };
    assert_eq!(stopped.ephemeral, vec![EphemeralDelta::SessionAggregates(expected)]);
    assert_eq!(state.aggregates, expected);
}

#[test]
fn failed_terminal_invariants_check_conflict_state_and_diagnostic_bound() {
    let mut state = idle_with_one_item();
    let _reserved = reserve(&mut state);
    let prepared = prepare(&mut state, Some(media_observation("failed-content")), execution());
    assert!(matches!(prepared.reply, Reply::Claimed(Some(_))));
    let run = run_of(&state, 3);

    let conflict_failure = ItemOutcome::Failed(FailureFacts::new(
        FailureKind::OutputConflict,
        "output settled as a conflict".to_owned(),
    ));
    assert!(validate_terminal(run, None, &conflict_failure).is_err());
    let conflicted = transaction(
        3,
        OutputState::Conflict {
            reason: "fixture".to_owned(),
        },
    );
    assert!(validate_terminal(run, Some(&conflicted), &conflict_failure).is_ok());
    assert!(validate_terminal(run, Some(&conflicted), &ItemOutcome::Stopped).is_ok());
    assert!(validate_terminal(run, None, &failed("fixture")).is_ok());

    let oversized = DiagnosticTail::from_decoded("a".repeat(DIAGNOSTIC_TAIL_MAX_BYTES + 1));
    let unbounded = ItemOutcome::Failed(
        FailureFacts::new(FailureKind::Internal, "fixture".to_owned()).with_diagnostic(oversized),
    );
    assert!(validate_terminal(run, None, &unbounded).is_err());
}

#[test]
fn preparation_rejects_invalid_execution_settings() {
    let mut state = idle_with_one_item();
    let mut invalid = execution();
    invalid.fallback_step = 0;
    let reserved = reserve(&mut state);
    assert!(matches!(reserved.reply, Reply::Reserved(Some(_))));
    let prepared = prepare(&mut state, None, invalid);
    assert!(rejected(&prepared));
}

#[test]
fn reserved_item_can_be_durably_stopped_before_preparation() {
    let mut state = AppState::default();
    let mut durable = Vec::new();
    durable.extend(apply(&mut state, add_command(QueueItemId(1), "video.mkv")).durable);
    let _started = start_session(&mut state);
    durable.extend(reserve(&mut state).durable);
    let stopped = abandon(&mut state);
    assert_eq!(stopped.reply, Reply::Accepted);
    durable.extend(stopped.durable);
    assert!(matches!(
        state.durable.queue.first().expect("queue item").state,
        QueueItemState::Finished(ItemOutcome::Stopped)
    ));

    let records = vec![JournalRecord {
        offset: 0,
        line: JournalLine::Decoded(JournalEnvelope {
            schema_version: crfty_core::journal::JOURNAL_SCHEMA_VERSION,
            sequence: JournalSequence(0),
            deltas: durable,
        }),
    }];
    let replayed = replay_records(records, FrameEnd::Complete);
    assert!(replayed.corruption.is_none());
    assert_eq!(replayed.state, state.durable);
}

#[test]
fn output_ledger_rejects_skipped_and_mismatched_transitions() {
    let mut state = active_state();
    let skipped = output(
        &mut state,
        OutputDelta::OutputCommitted {
            run_id: RunId(3),
            final_identity: identity("encoded", 8),
        },
    );
    assert!(rejected(&skipped));
    assert_eq!(start_output(&mut state).reply, Reply::Accepted);
    let empty_ready = output(
        &mut state,
        OutputDelta::OutputReady {
            run_id: RunId(3),
            staging_identity: identity("staging", 0),
        },
    );
    assert!(rejected(&empty_ready));
    let foreign_ready = output(
        &mut state,
        OutputDelta::OutputReady {
            run_id: RunId(3),
            staging_identity: identity("other", 8),
        },
    );
    assert!(rejected(&foreign_ready));
    let ready = output(
        &mut state,
        OutputDelta::OutputReady {
            run_id: RunId(3),
            staging_identity: identity("staging", 8),
        },
    );
    assert_eq!(ready.reply, Reply::Accepted);
    let committed = output(
        &mut state,
        OutputDelta::OutputCommitted {
            run_id: RunId(3),
            final_identity: identity("staging", 8),
        },
    );
    assert_eq!(committed.reply, Reply::Accepted);
    let retire_without_replacement = output(&mut state, OutputDelta::RetireOriginalIntent { run_id: RunId(3) });
    assert!(rejected(&retire_without_replacement));
}

fn apply_and_journal(state: &mut AppState, journal: &mut Vec<JournalRecord>, sequence: &mut u64, command: Command) -> Applied {
    let applied = apply(state, command);
    if !applied.durable.is_empty() {
        journal.push(JournalRecord {
            offset: journal.len(),
            line: JournalLine::Decoded(JournalEnvelope {
                schema_version: crfty_core::journal::JOURNAL_SCHEMA_VERSION,
                sequence: JournalSequence(*sequence),
                deltas: applied.durable.clone(),
            }),
        });
        *sequence += 1;
    }
    applied
}

fn reserve_command(claim: u64, run: u64) -> Command {
    Command::Worker(WorkerCommand::ReserveNext {
        claim_id: ClaimId(claim),
        run_id: RunId(run),
    })
}

fn prepare_command(item: u64, claim: u64, run: u64, content: &str, execution: ExecutionSettings) -> Command {
    Command::Worker(WorkerCommand::PrepareReserved {
        item_id: QueueItemId(item),
        claim_id: ClaimId(claim),
        run_id: RunId(run),
        observation: Some(Box::new(media_observation(content))),
        import_paths: Vec::new(),
        execution,
    })
}

fn record_command(item: u64, claim: u64, run: u64, result: AnalysisResult) -> Command {
    Command::Worker(WorkerCommand::RecordAnalysis {
        item_id: QueueItemId(item),
        claim_id: ClaimId(claim),
        run_id: RunId(run),
        result: Box::new(result),
    })
}

#[test]
fn refresh_intent_forces_a_new_search_over_a_qualifying_cached_analysis() {
    let mut record = FileRecord::new(media_observation("refresh-content").metadata);
    record.record_analysis(analysis());
    assert!(matches!(
        select_job_action(None, Some(&record), Operation::Convert, AnalysisIntent::ReuseIfFresh, &execution()),
        JobAction::Encode {
            selected_analysis: Some(_)
        }
    ));
    assert_eq!(
        select_job_action(None, Some(&record), Operation::Convert, AnalysisIntent::Refresh, &execution()),
        JobAction::Encode {
            selected_analysis: None
        }
    );

    let mut state = AppState::default();
    let mut journal = Vec::new();
    let mut sequence = 0_u64;
    let _added = apply_and_journal(&mut state, &mut journal, &mut sequence, add_command(QueueItemId(1), "video.mkv"));
    let _started = start_session(&mut state);
    let _reserved = apply_and_journal(&mut state, &mut journal, &mut sequence, reserve_command(2, 3));
    let _prepared = apply_and_journal(
        &mut state,
        &mut journal,
        &mut sequence,
        prepare_command(1, 2, 3, "refresh-content", execution()),
    );
    let _recorded = apply_and_journal(&mut state, &mut journal, &mut sequence, record_command(1, 2, 3, analysis()));
    let _finished = apply_and_journal(&mut state, &mut journal, &mut sequence, terminal(1, 2, 3, failed("fixture")));
    let _refresh_added = apply_and_journal(
        &mut state,
        &mut journal,
        &mut sequence,
        Command::Queue(QueueCommand::AddMany {
            requests: vec![QueueAddRequest {
                intent: AnalysisIntent::Refresh,
                ..add_request(QueueItemId(4), "video.mkv")
            }],
        }),
    );
    let _reserved = apply_and_journal(&mut state, &mut journal, &mut sequence, reserve_command(5, 6));
    let prepared = apply_and_journal(
        &mut state,
        &mut journal,
        &mut sequence,
        prepare_command(4, 5, 6, "refresh-content", execution()),
    );
    let Reply::Claimed(Some(job)) = prepared.reply else {
        panic!("expected refreshed claim");
    };
    assert_eq!(job.spec.intent, AnalysisIntent::Refresh);
    assert_eq!(
        job.spec.action,
        JobAction::Encode {
            selected_analysis: None
        }
    );
    let replayed = replay_records(journal, FrameEnd::Complete);
    assert!(replayed.corruption.is_none());
    assert_eq!(replayed.state, state.durable);
}

#[test]
fn software_fallback_analysis_is_permitted_under_a_hardware_spec() {
    let software = execution();
    assert_eq!(permitted_profiles(&software), vec![software.profile.clone()]);
    let mut hardware = execution();
    hardware.profile.decode_mode = DecodeMode::Hardware(HardwareDecoder::H264Cuvid);
    let mut fallback_profile = hardware.profile.clone();
    fallback_profile.decode_mode = DecodeMode::Software;
    assert_eq!(
        permitted_profiles(&hardware),
        vec![hardware.profile.clone(), fallback_profile.clone()]
    );

    let mut state = AppState::default();
    let mut journal = Vec::new();
    let mut sequence = 0_u64;
    let _added = apply_and_journal(&mut state, &mut journal, &mut sequence, add_command(QueueItemId(1), "video.mkv"));
    let _started = start_session(&mut state);
    let _reserved = apply_and_journal(&mut state, &mut journal, &mut sequence, reserve_command(2, 3));
    let prepared = apply_and_journal(
        &mut state,
        &mut journal,
        &mut sequence,
        prepare_command(1, 2, 3, "ladder-content", hardware.clone()),
    );
    let Reply::Claimed(Some(job)) = prepared.reply else {
        panic!("expected hardware-prepared claim");
    };
    assert_eq!(
        job.spec.execution.profile.decode_mode,
        DecodeMode::Hardware(HardwareDecoder::H264Cuvid)
    );
    let mut wrong = analysis();
    wrong.profile = hardware.profile.clone();
    wrong.profile.preset = wrong.profile.preset.saturating_add(1);
    let refused = apply(&mut state, record_command(1, 2, 3, wrong));
    assert!(rejected(&refused));
    let mut fallback = analysis();
    fallback.profile = fallback_profile;
    let recorded = apply_and_journal(&mut state, &mut journal, &mut sequence, record_command(1, 2, 3, fallback));
    assert_eq!(recorded.reply, Reply::Accepted);
    let replayed = replay_records(journal, FrameEnd::Complete);
    assert!(replayed.corruption.is_none());
    assert_eq!(replayed.state, state.durable);

    let _finished = apply(&mut state, terminal(1, 2, 3, failed("fixture")));
    let _added = apply(&mut state, add_command(QueueItemId(4), "again.mkv"));
    let _claimed = reserve_and_prepare(&mut state, ClaimId(5), RunId(6), software);
    let mut hardware_result = analysis();
    hardware_result.profile.decode_mode = DecodeMode::Hardware(HardwareDecoder::H264Cuvid);
    let refused = apply(&mut state, record_command(4, 5, 6, hardware_result));
    assert!(rejected(&refused));
    assert!(matches!(refused.ephemeral.as_slice(), [EphemeralDelta::CommandRejected { .. }]));
}

#[test]
fn worker_rejections_pair_the_reply_with_a_command_rejected_delta() {
    let mut state = idle_with_one_item();
    let _claimed = reserve_and_prepare(&mut state, ClaimId(2), RunId(3), execution());
    let recorded = apply(&mut state, record_command(1, 2, 3, analysis()));
    assert_eq!(recorded.reply, Reply::Accepted);

    let duplicate = apply(&mut state, record_command(1, 2, 3, analysis()));
    let reason = "analysis is already recorded".to_owned();
    assert_eq!(duplicate.reply, Reply::Rejected { reason: reason.clone() });
    assert_eq!(duplicate.ephemeral, vec![EphemeralDelta::CommandRejected { reason }]);

    let analyzed = apply(&mut state, terminal_at(ItemOutcome::Analyzed, 1_000, Vec::new()));
    let reason = "analyzed outcome is incompatible with the run state".to_owned();
    assert_eq!(analyzed.reply, Reply::Rejected { reason: reason.clone() });
    assert_eq!(analyzed.ephemeral, vec![EphemeralDelta::CommandRejected { reason }]);
}

#[test]
fn analyses_recorded_under_hardware_decode_are_not_reused_elsewhere() {
    let mut hardware = execution();
    hardware.profile.decode_mode = DecodeMode::Hardware(HardwareDecoder::H264Cuvid);
    let mut result = analysis();
    result.profile = hardware.profile.clone();
    let mut record = FileRecord::new(media_observation("pin-content").metadata);
    record.record_analysis(result.clone());
    assert_eq!(select_analysis(&record, &execution()), None);
    let mut qsv = hardware.clone();
    qsv.profile.decode_mode = DecodeMode::Hardware(HardwareDecoder::H264Qsv);
    assert_eq!(select_analysis(&record, &qsv), None);
    assert_eq!(select_analysis(&record, &hardware), Some(result));
}

#[test]
fn replay_of_live_queue_and_reservation_commands_equals_the_live_state() {
    let mut live = AppState::default();
    let mut emitted = Vec::new();
    for (id, input) in [(1, "one.mkv"), (2, "two.mkv"), (3, "three.mkv")] {
        emitted.extend(apply(&mut live, add_command(QueueItemId(id), input)).durable);
    }
    let moved = apply(
        &mut live,
        Command::Queue(QueueCommand::Move { item_id: QueueItemId(3), before: Some(QueueItemId(1)) }),
    );
    assert_eq!(moved.reply, Reply::Accepted);
    emitted.extend(moved.durable);
    let edited = apply(
        &mut live,
        Command::Queue(QueueCommand::Edit {
            item_id: QueueItemId(2),
            patch: QueueItemEdit {
                operation: Some(Operation::Analyze),
                intent: None,
                output_target: None,
                overwrite: Some(OverwriteDecision::Deny),
            },
        }),
    );
    assert_eq!(edited.reply, Reply::Accepted);
    emitted.extend(edited.durable);
    emitted.extend(start_session(&mut live).durable);
    for (claim, run) in [(1, 10), (2, 11)] {
        let reserved = apply(
            &mut live,
            Command::Worker(WorkerCommand::ReserveNext { claim_id: ClaimId(claim), run_id: RunId(run) }),
        );
        let Reply::Reserved(Some(job)) = reserved.reply else {
            panic!("a pending item is reserved");
        };
        emitted.extend(reserved.durable);
        let abandoned = apply(
            &mut live,
            Command::Worker(WorkerCommand::AbandonReservation {
                item_id: job.item_id,
                claim_id: ClaimId(claim),
                run_id: RunId(run),
                at: UnixMillis(1_000),
            }),
        );
        assert_eq!(abandoned.reply, Reply::Accepted);
        emitted.extend(abandoned.durable);
        if claim == 1 {
            assert_eq!(job.item_id, QueueItemId(3));
            let retried = apply(&mut live, Command::Queue(QueueCommand::Retry { item_id: job.item_id }));
            assert_eq!(retried.reply, Reply::Accepted);
            emitted.extend(retried.durable);
        }
    }
    emitted.extend(apply(&mut live, Command::Queue(QueueCommand::ClearCompleted)).durable);
    let removed = apply(&mut live, Command::Queue(QueueCommand::Remove { item_id: QueueItemId(2) }));
    assert_eq!(removed.reply, Reply::Accepted);
    emitted.extend(removed.durable);
    let records: Vec<JournalRecord> = emitted
        .into_iter()
        .enumerate()
        .map(|(sequence, delta)| JournalRecord {
            offset: sequence * 100,
            line: JournalLine::Decoded(JournalEnvelope {
                schema_version: crfty_core::journal::JOURNAL_SCHEMA_VERSION,
                sequence: JournalSequence(sequence as u64),
                deltas: vec![delta],
            }),
        })
        .collect();
    let count = records.len();
    let replayed = replay_records(records, FrameEnd::Complete);
    assert!(replayed.corruption.is_none());
    assert_eq!(replayed.state, live.durable);
    assert_eq!(replayed.next_sequence, JournalSequence(count as u64));
    assert_eq!(live.durable.queue.len(), 1);
}

#[test]
fn a_start_reported_before_preparation_is_accepted_live_but_refused_on_replay() {
    let mut state = AppState::default();
    let mut journal = Vec::new();
    let mut sequence = 0_u64;
    let _added = apply_and_journal(&mut state, &mut journal, &mut sequence, add_command(QueueItemId(1), "video.mkv"));
    let _started = start_session(&mut state);
    let _reserved = apply_and_journal(&mut state, &mut journal, &mut sequence, reserve_command(2, 3));
    let running = apply_and_journal(
        &mut state,
        &mut journal,
        &mut sequence,
        Command::Worker(WorkerCommand::Started {
            item_id: QueueItemId(1),
            claim_id: ClaimId(2),
            run_id: RunId(3),
            at: UnixMillis(1_000),
        }),
    );
    assert_eq!(running.reply, Reply::Accepted);
    let replayed = replay_records(journal, FrameEnd::Complete);
    assert!(replayed.corruption.is_some());
}

#[test]
fn a_preparation_that_reuses_a_run_id_is_accepted_live_but_refused_on_replay() {
    let mut state = AppState::default();
    let mut journal = Vec::new();
    let mut sequence = 0_u64;
    let _first = apply_and_journal(&mut state, &mut journal, &mut sequence, add_command(QueueItemId(1), "one.mkv"));
    let _second = apply_and_journal(&mut state, &mut journal, &mut sequence, add_command(QueueItemId(4), "two.mkv"));
    let _started = start_session(&mut state);
    let _reserved = apply_and_journal(&mut state, &mut journal, &mut sequence, reserve_command(2, 3));
    let prepared = apply_and_journal(&mut state, &mut journal, &mut sequence, prepare_command(1, 2, 3, "first", execution()));
    assert!(!rejected(&prepared));
    let finished = apply_and_journal(&mut state, &mut journal, &mut sequence, terminal(1, 2, 3, failed("fixture")));
    assert!(!rejected(&finished));
    let _reserved_again = apply_and_journal(&mut state, &mut journal, &mut sequence, reserve_command(5, 3));
    let reused = apply_and_journal(&mut state, &mut journal, &mut sequence, prepare_command(4, 5, 3, "second", execution()));
    assert!(!rejected(&reused));
    let replayed = replay_records(journal, FrameEnd::Complete);
    assert!(replayed.corruption.is_some());
}
