use crfty_core::journal::{replay_records, FrameEnd, JournalLine, JournalRecord};
use crfty_core::policy::{evaluate_eligibility, select_analysis, select_job_action, MIN_VIDEO_PIXELS};
use crfty_core::reducer::apply;
use crfty_core::state::fold;
use crfty_core::{
    AnalysisActivity, AnalysisAttempt, AnalysisCommand, AnalysisDisplayText, AnalysisFileScan,
    AnalysisGenerationId, AnalysisIntent, AnalysisProfile, AnalysisResult, AnalysisRow,
    AnalysisRowEntry, AnalysisRowId, AppState, Applied, AudioCodec, AudioStreamMeta, ClaimId,
    Command, ContentKey, Crf, DecodeMode, DecodePreference, DefaultOutputMode, DestructiveIdentity,
    DurableDelta, DurableState, Effect, Eligibility, EphemeralDelta, ExecutionSettings, FailureFacts,
    FailureKind, FileRecord, FileSystemId, FileTimeNs, HardwareDecoder, ItemOutcome, JobAction,
    JobPhase, JobProgress, JournalEnvelope, JournalSequence, LocatedTool, LocatedTools,
    MediaContainer, MediaObservation, MediaTool, Operation, OutputTarget, OverwriteDecision,
    PathBinding, PathHash, ProjectionCommand, QueueAddRequest, QueueCommand, QueueItemEdit,
    QueueItemId, QueueItemState, Reply, RunId, SearchMeasurement, SessionCommand, SessionState,
    Settings, SettingsCommand, SkipReason, SystemCommand, Telemetry, TimestampReliability,
    ToolAvailability, ToolRevisions, ToolSource, ToolVerification, ToolsState, UnixMillis,
    VendorActivity, VendorCommand, VideoCodec, VideoMeta, VmafScore, VmafTarget, WorkerCommand,
};

fn revisions() -> ToolRevisions {
    ToolRevisions {
        ab_av1: "test-ab-av1".to_owned(),
        ffmpeg: "test-ffmpeg".to_owned(),
        encoder: "test-svt".to_owned(),
    }
}

fn available() -> ToolAvailability {
    ToolAvailability::Located {
        tools: LocatedTools {
            ffmpeg: LocatedTool {
                source: ToolSource::SearchPath,
                path: "/usr/bin/ffmpeg".to_owned(),
            },
            ffprobe: LocatedTool {
                source: ToolSource::SearchPath,
                path: "/usr/bin/ffprobe".to_owned(),
            },
        },
        verification: ToolVerification::Verified {
            revisions: revisions(),
            hardware_decoders: Vec::new(),
        },
    }
}

fn execution() -> ExecutionSettings {
    let mut profile = AnalysisProfile::production();
    let revisions = revisions();
    profile.ab_av1_revision = revisions.ab_av1;
    profile.ffmpeg_revision = revisions.ffmpeg;
    profile.encoder_revision = revisions.encoder;
    ExecutionSettings::production(profile, false)
}

fn analysis() -> AnalysisResult {
    let execution = execution();
    AnalysisResult {
        requested_target: execution.requested_target,
        successful_target: execution.requested_target,
        fallback_floor: execution.fallback_floor,
        fallback_step: execution.fallback_step,
        failed_attempts: Vec::new(),
        measurement: SearchMeasurement {
            crf: Crf(30_000),
            score: VmafScore(9_500),
            predicted_size: 1_000,
            predicted_percent_basis_points: 5_000,
            predicted_duration_ms: 60_000,
            from_cache: false,
        },
        profile: execution.profile,
    }
}

fn add_request(item_id: QueueItemId, input: &str) -> QueueAddRequest {
    QueueAddRequest {
        item_id,
        input: input.to_owned(),
        path_hash: None,
        identity: None,
        timestamp_reliability: TimestampReliability::Unknown,
        operation: Operation::Convert,
        intent: AnalysisIntent::ReuseIfFresh,
        output_target: OutputTarget::Replace,
        overwrite: OverwriteDecision::FollowSettings,
    }
}

fn add_command(item_id: QueueItemId, input: &str) -> Command {
    Command::Queue(QueueCommand::AddMany {
        requests: vec![add_request(item_id, input)],
    })
}

/// Reports available tools, then starts the session.
fn start_session(state: &mut AppState) -> Applied {
    let discovered = apply(
        state,
        Command::System(SystemCommand::ToolsDiscovered {
            availability: available(),
            update_available: false,
        }),
    );
    assert_eq!(discovered.reply, Reply::Accepted);
    apply(state, Command::Session(SessionCommand::Start))
}

fn reserve_and_prepare(
    state: &mut AppState,
    claim_id: ClaimId,
    run_id: RunId,
    execution: ExecutionSettings,
) -> Applied {
    let reserved = apply(
        state,
        Command::Worker(WorkerCommand::ReserveNext { claim_id, run_id }),
    );
    let Reply::Reserved(Some(job)) = reserved.reply else {
        return reserved;
    };
    apply(
        state,
        Command::Worker(WorkerCommand::PrepareReserved {
            item_id: job.item_id,
            claim_id,
            run_id,
            observation: None,
            import_paths: Vec::new(),
            execution,
        }),
    )
}

fn destructive(name: &str, size: u64) -> DestructiveIdentity {
    DestructiveIdentity {
        file_id: FileSystemId::Unix {
            device: 1,
            inode: u64::from(name.as_bytes().first().copied().unwrap_or_default()),
        },
        size,
        modified_ns: Some(FileTimeNs(size)),
    }
}

fn media_observation(content: &str) -> MediaObservation {
    MediaObservation {
        path_hash: PathHash(format!("path-{content}")),
        binding: PathBinding {
            identity: DestructiveIdentity {
                modified_ns: Some(FileTimeNs(1)),
                ..destructive(content, 10_000)
            },
            content_key: ContentKey(content.to_owned()),
        },
        metadata: VideoMeta {
            codec: VideoCodec::H264,
            container: MediaContainer::Matroska,
            width: 1_280,
            height: 720,
            rotation_degrees: 0,
            duration_ms: 60_000,
            size_bytes: 10_000,
            audio: vec![AudioStreamMeta {
                codec: AudioCodec::Aac,
                channels: 2,
            }],
            subtitle_count: 0,
        },
    }
}

fn failed(message: &str) -> ItemOutcome {
    ItemOutcome::Failed(FailureFacts::new(FailureKind::Internal, message.to_owned()))
}

fn terminal(item: u64, claim: u64, run: u64, outcome: ItemOutcome) -> Command {
    Command::Worker(WorkerCommand::Terminal {
        item_id: QueueItemId(item),
        claim_id: ClaimId(claim),
        run_id: RunId(run),
        outcome,
        at: UnixMillis(1_000),
        phase_spans: Vec::new(),
        final_telemetry: None,
    })
}

fn active_state() -> AppState {
    let mut state = AppState::default();
    let _added = apply(&mut state, add_command(QueueItemId(1), "video.mkv"));
    let _started = start_session(&mut state);
    let _claimed = reserve_and_prepare(&mut state, ClaimId(2), RunId(3), execution());
    let _running = apply(
        &mut state,
        Command::Worker(WorkerCommand::Started {
            item_id: QueueItemId(1),
            claim_id: ClaimId(2),
            run_id: RunId(3),
            at: UnixMillis(1_000),
        }),
    );
    let _analysis = apply(
        &mut state,
        Command::Worker(WorkerCommand::RecordAnalysis {
            item_id: QueueItemId(1),
            claim_id: ClaimId(2),
            run_id: RunId(3),
            result: Box::new(analysis()),
        }),
    );
    state
}

fn display(text: &str) -> AnalysisDisplayText {
    AnalysisDisplayText {
        text: text.to_owned(),
        lossy: false,
    }
}

#[test]
fn analysis_commands_allocate_generations_and_reject_late_same_generation_work() {
    let mut state = AppState::default();
    let started = apply(
        &mut state,
        Command::Analysis(AnalysisCommand::Begin {
            roots: vec![display("first")],
        }),
    );
    assert_eq!(
        started.reply,
        Reply::AnalysisStarted {
            generation: AnalysisGenerationId(1),
        }
    );
    let row = AnalysisRow {
        id: AnalysisRowId(1),
        parent: None,
        entry: AnalysisRowEntry::File {
            scan: AnalysisFileScan::Discovered,
        },
        display_name: display("movie.mkv"),
        display_path: display("first/movie.mkv"),
    };
    let inserted = apply(
        &mut state,
        Command::Analysis(AnalysisCommand::UpsertRows {
            generation: AnalysisGenerationId(1),
            rows: vec![row],
        }),
    );
    assert_eq!(inserted.reply, Reply::Accepted);
    assert_eq!(
        state
            .analysis
            .current
            .as_ref()
            .expect("current generation")
            .rows
            .len(),
        1
    );
    assert_eq!(
        apply(
            &mut state,
            Command::Analysis(AnalysisCommand::SetActivity {
                generation: AnalysisGenerationId(1),
                activity: AnalysisActivity::Discovered,
            }),
        )
        .reply,
        Reply::Accepted
    );

    let next = apply(
        &mut state,
        Command::Analysis(AnalysisCommand::Begin {
            roots: vec![display("second")],
        }),
    );
    assert_eq!(
        next.reply,
        Reply::AnalysisStarted {
            generation: AnalysisGenerationId(2),
        }
    );
    let stale_completion = apply(
        &mut state,
        Command::Analysis(AnalysisCommand::SetActivity {
            generation: AnalysisGenerationId(1),
            activity: AnalysisActivity::Ready,
        }),
    );
    assert!(matches!(stale_completion.reply, Reply::Rejected { .. }));
    assert_eq!(
        state.analysis.current.as_ref().map(|generation| generation.id),
        Some(AnalysisGenerationId(2))
    );
}

#[test]
fn base_profile_is_valid_only_until_revisions_are_required() {
    let base = ExecutionSettings::production(AnalysisProfile::production(), false);
    assert_eq!(base.validate_base(), Ok(()));
    assert_eq!(base.validate(), Err("tool revisions must not be empty"));
    assert_eq!(execution().validate(), Ok(()));
}

#[test]
fn settings_defaults_validate_and_inactive_values_remain_remembered() {
    let defaults = Settings::default();
    assert!(defaults.validate().is_ok());
    assert_eq!(defaults.scan_extensions.len(), 4);
    assert!(defaults.hardware_decode);
    assert!(!defaults.privacy.anonymize_logs);
    assert!(!defaults.privacy.anonymize_history);

    let mut remembered = defaults;
    remembered.output.suffix.clear();
    remembered.output.separate_folder = None;
    assert!(remembered.validate().is_ok());

    remembered.output.default_mode = DefaultOutputMode::Suffix;
    assert_eq!(
        remembered.validate(),
        Err("default output suffix must not be empty in suffix mode")
    );
    remembered.output.default_mode = DefaultOutputMode::SeparateFolder;
    assert_eq!(
        remembered.validate(),
        Err("default separate output folder is required in separate-folder mode")
    );
}

#[test]
fn settings_change_is_typed_config_state_with_a_write_effect() {
    let mut state = AppState::default();
    let mut settings = state.settings.clone();
    settings.output.overwrite_existing = true;
    settings.hardware_decode = false;
    let applied = apply(
        &mut state,
        Command::Settings(SettingsCommand::Update {
            settings: settings.clone(),
        }),
    );
    assert_eq!(applied.reply, Reply::Accepted);
    assert_eq!(applied.config.len(), 1);
    assert_eq!(
        applied.effects,
        vec![Effect::WriteSettings {
            settings: settings.clone(),
        }]
    );
    assert_eq!(state.settings, settings);

    let current = state.settings.clone();
    let unchanged = apply(
        &mut state,
        Command::Settings(SettingsCommand::Update { settings: current }),
    );
    assert!(unchanged.config.is_empty());
    assert_eq!(unchanged.effects.len(), 1);
}

#[test]
fn invalid_settings_are_rejected_and_leave_the_state() {
    let mut state = AppState::default();
    let mut settings = state.settings.clone();
    settings.output.default_mode = DefaultOutputMode::Suffix;
    settings.output.suffix = "   ".to_owned();
    let before = state.clone();
    let applied = apply(&mut state, Command::Settings(SettingsCommand::Update { settings }));
    assert_eq!(
        applied.reply,
        Reply::Rejected {
            reason: "default output suffix must not be empty in suffix mode".to_owned(),
        }
    );
    assert!(applied.config.is_empty());
    assert!(applied.effects.is_empty());
    assert!(applied.durable.is_empty());
    assert_eq!(state.durable, before.durable);
    assert_eq!(state.settings, before.settings);
}

#[test]
fn settings_control_job_overwrite_and_hardware_decode_policy() {
    let mut state = AppState::default();
    state.settings.output.overwrite_existing = true;
    state.settings.hardware_decode = false;
    let _added = apply(&mut state, add_command(QueueItemId(1), "video.mkv"));
    let _started = start_session(&mut state);
    let mut requested = execution();
    requested.profile.decode_mode = DecodeMode::Hardware(HardwareDecoder::H264Qsv);
    let prepared = reserve_and_prepare(&mut state, ClaimId(2), RunId(3), requested);
    let Reply::Claimed(Some(job)) = prepared.reply else {
        panic!("expected claimed job");
    };
    assert!(job.spec.execution.overwrite_existing);
    assert_eq!(
        job.spec.execution.decode_preference,
        DecodePreference::SoftwareOnly
    );
    assert_eq!(job.spec.execution.profile.decode_mode, DecodeMode::Software);
}

#[test]
fn session_start_requires_discovered_tools_and_discovery_is_idempotent() {
    let mut state = AppState::default();
    let _added = apply(&mut state, add_command(QueueItemId(1), "video.mkv"));
    let blocked = apply(&mut state, Command::Session(SessionCommand::Start));
    let Reply::Rejected { reason } = blocked.reply else {
        panic!("expected fail-closed session start");
    };
    assert!(reason.starts_with("media tools are unavailable"), "{reason}");
    assert_eq!(state.session, SessionState::Idle);

    let discovered = apply(
        &mut state,
        Command::System(SystemCommand::ToolsDiscovered {
            availability: available(),
            update_available: false,
        }),
    );
    assert_eq!(discovered.reply, Reply::Accepted);
    assert_eq!(
        discovered.ephemeral,
        vec![EphemeralDelta::ToolsChanged(ToolsState {
            availability: available(),
            activity: VendorActivity::Idle,
            update_available: false,
        })]
    );
    assert_eq!(state.tools.availability, available());

    let unchanged = apply(
        &mut state,
        Command::System(SystemCommand::ToolsDiscovered {
            availability: available(),
            update_available: false,
        }),
    );
    assert_eq!(unchanged.reply, Reply::Accepted);
    assert!(unchanged.ephemeral.is_empty());

    let started = apply(&mut state, Command::Session(SessionCommand::Start));
    assert_eq!(started.reply, Reply::Accepted);
    assert_eq!(state.session, SessionState::Running);

    let missing = apply(
        &mut state,
        Command::System(SystemCommand::ToolsDiscovered {
            availability: ToolAvailability::Missing {
                missing: vec![MediaTool::Ffmpeg],
                detail: "ffmpeg was not found".to_owned(),
            },
            update_available: false,
        }),
    );
    assert_eq!(missing.reply, Reply::Accepted);
    assert!(matches!(
        state.tools.availability,
        ToolAvailability::Missing { .. }
    ));
}

#[test]
fn vendor_install_requires_a_fully_idle_engine() {
    let mut state = AppState::default();
    let _added = apply(&mut state, add_command(QueueItemId(1), "video.mkv"));
    let _started = start_session(&mut state);
    assert_eq!(state.session, SessionState::Running);
    let refused = apply(&mut state, Command::Vendor(VendorCommand::Install));
    assert_eq!(
        refused.reply,
        Reply::Rejected {
            reason: "vendor install requires an idle session".to_owned(),
        }
    );
    assert!(refused.effects.is_empty());
    assert_eq!(state.tools.activity, VendorActivity::Idle);

    let mut state = AppState::default();
    let _added = apply(&mut state, add_command(QueueItemId(1), "video.mkv"));
    let _started = start_session(&mut state);
    let _reserved = apply(
        &mut state,
        Command::Worker(WorkerCommand::ReserveNext {
            claim_id: ClaimId(2),
            run_id: RunId(3),
        }),
    );
    state.session = SessionState::Idle;
    let refused = apply(&mut state, Command::Vendor(VendorCommand::Install));
    assert_eq!(
        refused.reply,
        Reply::Rejected {
            reason: "vendor install cannot start while a queue item is active".to_owned(),
        }
    );

    let mut state = AppState::default();
    let accepted = apply(&mut state, Command::Vendor(VendorCommand::Install));
    assert_eq!(accepted.reply, Reply::Accepted);
    assert_eq!(accepted.effects, vec![Effect::VendorInstall]);
    assert_eq!(
        state.tools.activity,
        VendorActivity::Downloading {
            received: 0,
            total: None,
        }
    );

    let refused = apply(&mut state, Command::Vendor(VendorCommand::Install));
    assert_eq!(
        refused.reply,
        Reply::Rejected {
            reason: "a vendor operation is already in progress".to_owned(),
        }
    );
    assert!(refused.effects.is_empty());
}

#[test]
fn vendor_activity_serializes_workers_and_failed_is_restartable() {
    let mut state = AppState::default();
    let checking = apply(&mut state, Command::Vendor(VendorCommand::Check));
    assert_eq!(checking.reply, Reply::Accepted);
    assert_eq!(checking.effects, vec![Effect::VendorCheck]);
    assert_eq!(state.tools.activity, VendorActivity::Checking);

    for command in [VendorCommand::Install, VendorCommand::Check] {
        let refused = apply(&mut state, Command::Vendor(command));
        assert_eq!(
            refused.reply,
            Reply::Rejected {
                reason: "a vendor operation is already in progress".to_owned(),
            }
        );
    }

    let failed = apply(
        &mut state,
        Command::System(SystemCommand::VendorProgress {
            activity: VendorActivity::Failed {
                detail: "checksum mismatch".to_owned(),
            },
        }),
    );
    assert_eq!(failed.reply, Reply::Accepted);
    assert!(matches!(state.tools.activity, VendorActivity::Failed { .. }));
    let retried = apply(&mut state, Command::Vendor(VendorCommand::Install));
    assert_eq!(retried.reply, Reply::Accepted);
    assert_eq!(retried.effects, vec![Effect::VendorInstall]);
}

#[test]
fn session_start_is_refused_while_the_vendor_swaps_tools() {
    for activity in [
        VendorActivity::Downloading {
            received: 5,
            total: Some(10),
        },
        VendorActivity::Installing,
    ] {
        let mut state = AppState::default();
        let _added = apply(&mut state, add_command(QueueItemId(1), "video.mkv"));
        let discovered = apply(
            &mut state,
            Command::System(SystemCommand::ToolsDiscovered {
                availability: available(),
                update_available: false,
            }),
        );
        assert_eq!(discovered.reply, Reply::Accepted);
        let progressed = apply(
            &mut state,
            Command::System(SystemCommand::VendorProgress {
                activity: activity.clone(),
            }),
        );
        assert_eq!(progressed.reply, Reply::Accepted);
        let refused = apply(&mut state, Command::Session(SessionCommand::Start));
        assert_eq!(
            refused.reply,
            Reply::Rejected {
                reason: "a vendor install is in progress".to_owned(),
            },
            "start accepted during {activity:?}"
        );
        assert_eq!(state.session, SessionState::Idle);
    }

    let mut state = AppState::default();
    let _added = apply(&mut state, add_command(QueueItemId(1), "video.mkv"));
    let _discovered = apply(
        &mut state,
        Command::System(SystemCommand::ToolsDiscovered {
            availability: available(),
            update_available: false,
        }),
    );
    let _checking = apply(
        &mut state,
        Command::System(SystemCommand::VendorProgress {
            activity: VendorActivity::Checking,
        }),
    );
    let started = apply(&mut state, Command::Session(SessionCommand::Start));
    assert_eq!(started.reply, Reply::Accepted);
}

#[test]
fn vendor_progress_and_discovery_compose_without_clobbering_each_other() {
    let mut state = AppState::default();
    let _install = apply(&mut state, Command::Vendor(VendorCommand::Install));
    let progressed = apply(
        &mut state,
        Command::System(SystemCommand::VendorProgress {
            activity: VendorActivity::Downloading {
                received: 1_024,
                total: Some(4_096),
            },
        }),
    );
    assert_eq!(
        progressed.ephemeral,
        vec![EphemeralDelta::ToolsChanged(ToolsState {
            availability: ToolAvailability::default(),
            activity: VendorActivity::Downloading {
                received: 1_024,
                total: Some(4_096),
            },
            update_available: false,
        })]
    );

    let discovered = apply(
        &mut state,
        Command::System(SystemCommand::ToolsDiscovered {
            availability: available(),
            update_available: false,
        }),
    );
    assert_eq!(discovered.reply, Reply::Accepted);
    assert_eq!(
        state.tools.activity,
        VendorActivity::Downloading {
            received: 1_024,
            total: Some(4_096),
        }
    );
    assert_eq!(state.tools.availability, available());

    let unchanged = apply(
        &mut state,
        Command::System(SystemCommand::VendorProgress {
            activity: VendorActivity::Downloading {
                received: 1_024,
                total: Some(4_096),
            },
        }),
    );
    assert!(unchanged.ephemeral.is_empty());
}

#[test]
fn moved_or_duplicated_paths_join_the_probable_content_record_after_observation() {
    let first = media_observation("shared-content");
    let mut second = first.clone();
    second.path_hash = PathHash("path-shared-content-copy".to_owned());
    second.binding.identity = DestructiveIdentity {
        file_id: FileSystemId::Unix {
            device: 1,
            inode: 999,
        },
        ..second.binding.identity
    };
    let mut durable = DurableState::default();
    for observation in [first, second] {
        fold(
            &mut durable,
            &DurableDelta::MediaObserved {
                observation: Box::new(observation),
            },
        );
    }

    assert_eq!(durable.paths.len(), 2);
    assert_eq!(durable.records.len(), 1);
    assert!(durable
        .paths
        .iter()
        .all(|(_, binding)| binding.content_key == ContentKey("shared-content".to_owned())));
}

#[test]
fn reducer_enforces_session_claim_and_terminal_ordering() {
    let mut state = AppState::default();
    let add = apply(&mut state, add_command(QueueItemId(1), "video.mkv"));
    assert_eq!(add.reply, Reply::Accepted);
    let start = start_session(&mut state);
    assert_eq!(start.effects, vec![Effect::StartWorker]);
    let claim = reserve_and_prepare(&mut state, ClaimId(2), RunId(3), execution());
    assert!(matches!(claim.reply, Reply::Claimed(Some(_))));
    let stale = apply(
        &mut state,
        Command::Worker(WorkerCommand::Started {
            item_id: QueueItemId(1),
            claim_id: ClaimId(99),
            run_id: RunId(3),
            at: UnixMillis(1_000),
        }),
    );
    assert!(matches!(stale.reply, Reply::Rejected { .. }));
    assert!(matches!(
        state.durable.queue.first().expect("queue item").state,
        QueueItemState::Claimed { .. }
    ));
    let terminal = apply(
        &mut state,
        Command::Worker(WorkerCommand::Terminal {
            item_id: QueueItemId(1),
            claim_id: ClaimId(2),
            run_id: RunId(3),
            outcome: failed("fixture"),
            at: UnixMillis(1_000),
            phase_spans: Vec::new(),
            final_telemetry: Some(Telemetry {
                run_id: RunId(3),
                sequence: 20,
                phase: JobPhase::Encoding,
                progress: JobProgress::OutputPositionMs(100),
                fps_centi: None,
                eta_ms: None,
            }),
        }),
    );
    assert_eq!(terminal.reply, Reply::Accepted);
    assert_eq!(state.session, SessionState::Running);
    let finished = apply(&mut state, Command::Worker(WorkerCommand::Finished));
    assert_eq!(finished.reply, Reply::Accepted);
    assert_eq!(state.session, SessionState::Idle);
    assert!(!state.telemetry.iter().any(|entry| entry.run_id == RunId(3)));
}

#[test]
fn reservation_is_atomic_and_uses_current_queue_order() {
    let mut state = AppState::default();
    let _first = apply(&mut state, add_command(QueueItemId(1), "first.mkv"));
    let _second = apply(&mut state, add_command(QueueItemId(2), "second.mkv"));
    let moved = apply(
        &mut state,
        Command::Queue(QueueCommand::Move {
            item_id: QueueItemId(2),
            before: Some(QueueItemId(1)),
        }),
    );
    assert_eq!(moved.reply, Reply::Accepted);
    let _started = start_session(&mut state);
    let reserved = apply(
        &mut state,
        Command::Worker(WorkerCommand::ReserveNext {
            claim_id: ClaimId(10),
            run_id: RunId(11),
        }),
    );
    let Reply::Reserved(Some(job)) = reserved.reply else {
        panic!("expected an atomic reservation");
    };
    assert_eq!(job.item_id, QueueItemId(2));

    let competing = apply(
        &mut state,
        Command::Worker(WorkerCommand::ReserveNext {
            claim_id: ClaimId(12),
            run_id: RunId(13),
        }),
    );
    assert!(matches!(competing.reply, Reply::Rejected { .. }));
}

#[test]
fn durable_analysis_is_selected_for_the_same_content_and_profile() {
    let mut state = AppState::default();
    let _added = apply(&mut state, add_command(QueueItemId(1), "first.mkv"));
    let _started = start_session(&mut state);
    let reserved = apply(
        &mut state,
        Command::Worker(WorkerCommand::ReserveNext {
            claim_id: ClaimId(2),
            run_id: RunId(3),
        }),
    );
    assert!(matches!(reserved.reply, Reply::Reserved(Some(_))));
    let mut moved_observation = media_observation("same-content");
    moved_observation.path_hash = PathHash("moved-path".to_owned());
    let prepared = apply(
        &mut state,
        Command::Worker(WorkerCommand::PrepareReserved {
            item_id: QueueItemId(1),
            claim_id: ClaimId(2),
            run_id: RunId(3),
            observation: Some(Box::new(moved_observation)),
            import_paths: Vec::new(),
            execution: execution(),
        }),
    );
    assert!(matches!(prepared.reply, Reply::Claimed(Some(_))));
    let recorded = apply(
        &mut state,
        Command::Worker(WorkerCommand::RecordAnalysis {
            item_id: QueueItemId(1),
            claim_id: ClaimId(2),
            run_id: RunId(3),
            result: Box::new(analysis()),
        }),
    );
    assert_eq!(recorded.reply, Reply::Accepted);
    let failed_terminal = apply(&mut state, terminal(1, 2, 3, failed("fixture boundary")));
    assert_eq!(failed_terminal.reply, Reply::Accepted);
    let _second = apply(&mut state, add_command(QueueItemId(4), "moved.mkv"));
    let reserved = apply(
        &mut state,
        Command::Worker(WorkerCommand::ReserveNext {
            claim_id: ClaimId(5),
            run_id: RunId(6),
        }),
    );
    assert!(matches!(reserved.reply, Reply::Reserved(Some(_))));
    let prepared = apply(
        &mut state,
        Command::Worker(WorkerCommand::PrepareReserved {
            item_id: QueueItemId(4),
            claim_id: ClaimId(5),
            run_id: RunId(6),
            observation: Some(Box::new(media_observation("same-content"))),
            import_paths: Vec::new(),
            execution: execution(),
        }),
    );
    let Reply::Claimed(Some(job)) = prepared.reply else {
        panic!("expected prepared reused job");
    };
    assert_eq!(job.spec.action.selected_analysis(), Some(&analysis()));
}

/// Builds `[1 Finished, 2 Claimed (active), 3 Queued, 4 Queued, 5 Queued]`.
fn reorder_fixture() -> AppState {
    let mut state = AppState::default();
    for id in 1..=5 {
        let added = apply(
            &mut state,
            add_command(QueueItemId(id), &format!("video-{id}.mkv")),
        );
        assert_eq!(added.reply, Reply::Accepted);
    }
    let start = start_session(&mut state);
    assert_eq!(start.reply, Reply::Accepted);
    let first = reserve_and_prepare(&mut state, ClaimId(20), RunId(21), execution());
    assert!(matches!(first.reply, Reply::Claimed(Some(_))));
    let finished = apply(&mut state, terminal(1, 20, 21, failed("fixture")));
    assert_eq!(finished.reply, Reply::Accepted);
    let second = reserve_and_prepare(&mut state, ClaimId(22), RunId(23), execution());
    assert!(matches!(second.reply, Reply::Claimed(Some(_))));
    assert_queue_shape(&state, &[1, 2, 3, 4, 5]);
    state
}

fn queue_order(state: &AppState) -> Vec<u64> {
    state.durable.queue.iter().map(|item| item.id.0).collect()
}

/// Asserts the id order and the frozen-prefix invariant: every finished item
/// precedes the active item, which precedes every queued item.
fn assert_queue_shape(state: &AppState, expected: &[u64]) {
    assert_eq!(queue_order(state), expected);
    let mut frontier = 0;
    for item in &state.durable.queue {
        let class = match item.state {
            QueueItemState::Finished(_) => 0,
            QueueItemState::Reserved { .. }
            | QueueItemState::Claimed { .. }
            | QueueItemState::Running { .. } => 1,
            QueueItemState::Queued => 2,
        };
        assert!(class >= frontier, "queue prefix invariant violated");
        frontier = class;
    }
}

fn move_command(item_id: u64, before: Option<u64>) -> Command {
    Command::Queue(QueueCommand::Move {
        item_id: QueueItemId(item_id),
        before: before.map(QueueItemId),
    })
}

#[test]
fn reorder_destinations_around_active_pending_and_finished_items() {
    struct Case {
        name: &'static str,
        item: u64,
        before: Option<u64>,
        expected_delta: Option<(u64, Option<u64>)>,
        expected_order: [u64; 5],
    }
    let accepted = [
        Case {
            name: "queued before queued",
            item: 4,
            before: Some(3),
            expected_delta: Some((4, Some(3))),
            expected_order: [1, 2, 4, 3, 5],
        },
        Case {
            name: "drop above active clamps to first pending",
            item: 4,
            before: Some(2),
            expected_delta: Some((4, Some(3))),
            expected_order: [1, 2, 4, 3, 5],
        },
        Case {
            name: "drop above finished clamps to first pending",
            item: 4,
            before: Some(1),
            expected_delta: Some((4, Some(3))),
            expected_order: [1, 2, 4, 3, 5],
        },
        Case {
            name: "first pending above active is an identity no-op",
            item: 3,
            before: Some(2),
            expected_delta: None,
            expected_order: [1, 2, 3, 4, 5],
        },
        Case {
            name: "first pending above finished is an identity no-op",
            item: 3,
            before: Some(1),
            expected_delta: None,
            expected_order: [1, 2, 3, 4, 5],
        },
        Case {
            name: "move to end",
            item: 4,
            before: None,
            expected_delta: Some((4, None)),
            expected_order: [1, 2, 3, 5, 4],
        },
        Case {
            name: "self destination is an identity no-op",
            item: 4,
            before: Some(4),
            expected_delta: None,
            expected_order: [1, 2, 3, 4, 5],
        },
    ];
    for case in accepted {
        let mut state = reorder_fixture();
        let applied = apply(&mut state, move_command(case.item, case.before));
        assert_eq!(applied.reply, Reply::Accepted, "{}", case.name);
        let expected_durable = case
            .expected_delta
            .map(|(item_id, before)| DurableDelta::QueueMoved {
                item_id: QueueItemId(item_id),
                before: before.map(QueueItemId),
            })
            .into_iter()
            .collect::<Vec<_>>();
        assert_eq!(applied.durable, expected_durable, "{}", case.name);
        assert_queue_shape(&state, &case.expected_order);
    }

    let rejected = [
        ("missing destination", 4, Some(99), "queue destination does not exist"),
        ("active item cannot move", 2, Some(5), "only queued items can be reordered"),
        ("finished item cannot move", 1, None, "only queued items can be reordered"),
        ("missing item", 99, Some(3), "queue item does not exist"),
    ];
    for (name, item, before, reason) in rejected {
        let mut state = reorder_fixture();
        let applied = apply(&mut state, move_command(item, before));
        assert_eq!(
            applied.reply,
            Reply::Rejected {
                reason: reason.to_owned(),
            },
            "{name}",
        );
        assert!(applied.durable.is_empty(), "{name}");
        assert_queue_shape(&state, &[1, 2, 3, 4, 5]);
    }
}

#[test]
fn reorder_of_the_only_pending_item_above_active_is_a_no_op() {
    let mut state = AppState::default();
    for id in 1..=3 {
        let added = apply(
            &mut state,
            add_command(QueueItemId(id), &format!("video-{id}.mkv")),
        );
        assert_eq!(added.reply, Reply::Accepted);
    }
    let start = start_session(&mut state);
    assert_eq!(start.reply, Reply::Accepted);
    let first = reserve_and_prepare(&mut state, ClaimId(20), RunId(21), execution());
    assert!(matches!(first.reply, Reply::Claimed(Some(_))));
    let finished = apply(&mut state, terminal(1, 20, 21, failed("fixture")));
    assert_eq!(finished.reply, Reply::Accepted);
    let second = reserve_and_prepare(&mut state, ClaimId(22), RunId(23), execution());
    assert!(matches!(second.reply, Reply::Claimed(Some(_))));

    let applied = apply(&mut state, move_command(3, Some(2)));
    assert_eq!(applied.reply, Reply::Accepted);
    assert!(applied.durable.is_empty());
    assert_queue_shape(&state, &[1, 2, 3]);
}

#[test]
fn policy_uses_post_rotation_pixel_floor_and_typed_av1_decisions() {
    let mut metadata = media_observation("policy").metadata;
    metadata.width = 640;
    metadata.height = 1_000;
    metadata.rotation_degrees = 90;
    assert_eq!(
        evaluate_eligibility(&metadata, Operation::Convert),
        Eligibility::Skip(SkipReason::LowResolution {
            pixels: 640_000,
            minimum: MIN_VIDEO_PIXELS,
        })
    );

    metadata.width = 1_280;
    metadata.height = 720;
    metadata.codec = VideoCodec::Av1;
    metadata.container = MediaContainer::Matroska;
    assert_eq!(
        evaluate_eligibility(&metadata, Operation::Convert),
        Eligibility::Skip(SkipReason::AlreadyAv1Matroska)
    );
    metadata.container = MediaContainer::Other("mov,mp4".to_owned());
    assert_eq!(
        evaluate_eligibility(&metadata, Operation::Convert),
        Eligibility::Remux
    );
    let record = FileRecord::new(metadata.clone());
    assert_eq!(
        select_job_action(
            Some(&metadata),
            Some(&record),
            Operation::Convert,
            AnalysisIntent::ReuseIfFresh,
            &execution()
        ),
        JobAction::Remux
    );
    assert!(matches!(
        select_job_action(
            Some(&metadata),
            Some(&record),
            Operation::Analyze,
            AnalysisIntent::ReuseIfFresh,
            &execution()
        ),
        JobAction::Analyze { .. }
    ));
}

#[test]
fn analysis_selection_prefers_exact_then_lowest_qualifying_target() {
    let settings = execution();
    let mut record = FileRecord::new(media_observation("selection").metadata);
    let mut fallback = analysis();
    fallback.successful_target = VmafTarget(93);
    fallback.requested_target = VmafTarget(95);
    fallback.failed_attempts = vec![AnalysisAttempt {
        target: VmafTarget(95),
        last_measurement: None,
    }];
    let mut exact = analysis();
    exact.successful_target = VmafTarget(95);
    let mut higher = analysis();
    higher.successful_target = VmafTarget(96);
    higher.requested_target = VmafTarget(96);
    record.record_analysis(fallback);
    record.record_analysis(higher);
    record.record_analysis(exact.clone());
    assert_eq!(select_analysis(&record, &settings), Some(exact));

    let mut lower_request = settings;
    lower_request.requested_target = VmafTarget(94);
    let selected = select_analysis(&record, &lower_request).expect("qualifying analysis");
    assert_eq!(selected.successful_target, VmafTarget(95));
}

/// Applies `command` and journals its durable deltas as one envelope, the
/// way the engine persists an accepted command.
fn apply_and_journal(
    state: &mut AppState,
    journal: &mut Vec<JournalRecord>,
    sequence: &mut u64,
    command: Command,
) -> Applied {
    let applied = apply(state, command);
    if !applied.durable.is_empty() {
        journal.push(JournalRecord {
            offset: journal.len(),
            line: JournalLine::Decoded(JournalEnvelope {
                schema_version: crfty_core::journal::JOURNAL_SCHEMA_VERSION,
                sequence: JournalSequence(*sequence),
                deltas: applied.durable.clone(),
            }),
        });
        *sequence += 1;
    }
    applied
}

#[test]
fn media_record_and_analysis_checkpoint_replay_as_one_state() {
    let mut state = AppState::default();
    let mut journal = Vec::new();
    let mut sequence = 0_u64;
    let _added = apply_and_journal(
        &mut state,
        &mut journal,
        &mut sequence,
        add_command(QueueItemId(1), "video.mkv"),
    );
    let _started = start_session(&mut state);
    let _reserved = apply_and_journal(
        &mut state,
        &mut journal,
        &mut sequence,
        Command::Worker(WorkerCommand::ReserveNext {
            claim_id: ClaimId(2),
            run_id: RunId(3),
        }),
    );
    let _prepared = apply_and_journal(
        &mut state,
        &mut journal,
        &mut sequence,
        Command::Worker(WorkerCommand::PrepareReserved {
            item_id: QueueItemId(1),
            claim_id: ClaimId(2),
            run_id: RunId(3),
            observation: Some(Box::new(media_observation("durable-content"))),
            import_paths: Vec::new(),
            execution: execution(),
        }),
    );
    let _recorded = apply_and_journal(
        &mut state,
        &mut journal,
        &mut sequence,
        Command::Worker(WorkerCommand::RecordAnalysis {
            item_id: QueueItemId(1),
            claim_id: ClaimId(2),
            run_id: RunId(3),
            result: Box::new(analysis()),
        }),
    );
    let _terminal = apply_and_journal(
        &mut state,
        &mut journal,
        &mut sequence,
        terminal(1, 2, 3, failed("fixture boundary")),
    );

    let replayed = replay_records(journal, FrameEnd::Complete);
    assert!(replayed.corruption.is_none());
    assert_eq!(replayed.state, state.durable);
    assert_eq!(replayed.next_sequence, JournalSequence(sequence));
    let record = replayed
        .state
        .records
        .iter()
        .find(|(key, _)| key == &ContentKey("durable-content".to_owned()))
        .expect("content record");
    assert_eq!(record.1.analyses.len(), 1);
}

#[test]
fn stop_after_current_does_not_kill_but_force_stop_does() {
    let mut state = active_state();
    let graceful = apply(&mut state, Command::Session(SessionCommand::StopAfterCurrent));
    assert_eq!(graceful.reply, Reply::Accepted);
    assert!(graceful.effects.is_empty());
    assert_eq!(state.session, SessionState::StopAfterCurrent);
    let forced = apply(&mut state, Command::Session(SessionCommand::ForceStop));
    assert_eq!(forced.reply, Reply::Accepted);
    assert_eq!(
        forced.effects,
        vec![Effect::KillActiveRun { run_id: RunId(3) }]
    );
    assert_eq!(state.session, SessionState::ForceStopping);
}

#[test]
fn statistics_request_answers_on_the_stream_without_touching_state() {
    let mut state = active_state();
    let before = state.clone();
    let applied = apply(
        &mut state,
        Command::Projection(ProjectionCommand::RequestStatistics {
            utc_offset_minutes: 60,
        }),
    );
    assert_eq!(applied.reply, Reply::Accepted);
    assert_eq!(
        applied.effects,
        vec![Effect::PublishStatistics {
            utc_offset_minutes: 60
        }]
    );
    assert!(applied.durable.is_empty());
    assert_eq!(state, before);
}

#[test]
fn statistics_request_rejects_an_implausible_offset() {
    let mut state = AppState::default();
    for offset in [1_441, -1_441] {
        let applied = apply(
            &mut state,
            Command::Projection(ProjectionCommand::RequestStatistics {
                utc_offset_minutes: offset,
            }),
        );
        assert!(matches!(applied.reply, Reply::Rejected { .. }));
        assert!(matches!(
            applied.ephemeral.as_slice(),
            [EphemeralDelta::CommandRejected { .. }]
        ));
        assert!(applied.effects.is_empty());
    }
    for offset in [1_440, -1_440] {
        let applied = apply(
            &mut state,
            Command::Projection(ProjectionCommand::RequestStatistics {
                utc_offset_minutes: offset,
            }),
        );
        assert_eq!(applied.reply, Reply::Accepted);
    }
}

#[test]
fn a_rejected_command_changes_nothing_and_says_why() {
    let mut state = reorder_fixture();
    let before = state.clone();
    let applied = apply(&mut state, Command::Queue(QueueCommand::Remove { item_id: QueueItemId(2) }));
    assert_eq!(
        applied.reply,
        Reply::Rejected {
            reason: "active queue item cannot be removed".to_owned(),
        }
    );
    assert!(applied.durable.is_empty());
    assert!(applied.config.is_empty());
    assert!(applied.effects.is_empty());
    assert!(applied.ephemeral.iter().all(|delta| matches!(delta, EphemeralDelta::CommandRejected { .. })));
    assert_eq!(state.durable, before.durable);
    assert_eq!(state.settings, before.settings);
    assert_eq!(state.session, before.session);
}
