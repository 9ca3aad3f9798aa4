use crfty_core::analysis_status::{
    project_row_status, refresh_analysis_rows, refresh_scope, RefreshScope, ScanFacts,
    ANALYSIS_REFRESH_BATCH_ROWS,
};
use crfty_core::execution::compose_execution;
use crfty_core::policy::MIN_VIDEO_PIXELS;
use crfty_core::{
    AnalysisActivity, AnalysisDelta, AnalysisDisplayText, AnalysisFileScan, AnalysisGeneration,
    AnalysisGenerationId, AnalysisProfile, AnalysisResult, AnalysisRow, AnalysisRowEntry,
    AnalysisRowId, AnalysisRowStatus, AnalysisSnapshot, ApplicableLevel, AppState, Applied,
    AudioCodec, AudioStreamMeta, ContentKey, ConversionSummary, Crf, DecodeMode, DurableDelta,
    DurationMs, EphemeralDelta, ExecutionSettings, ExecutionUnavailable, FileRecord,
    HardwareDecoder, HistoricalLevel, ImportPath, ImportedProvenance, LocatedTool, LocatedTools,
    MediaContainer, OverwriteDecision, ParkedRecord, ParkedStatus, Reply, ReuseStanding,
    RowEligibility, RunId, SearchMeasurement, SearchPrediction, Settings, SkipReason,
    ToolAvailability, ToolRevisions, ToolSource, ToolVerification, ToolsState, UnixMillis,
    Verdict, VerdictKind, VideoCodec, VideoMeta, VmafScore, VmafTarget,
};

fn located(verification: ToolVerification) -> ToolAvailability {
    ToolAvailability::Located {
        tools: LocatedTools {
            ffmpeg: LocatedTool {
                source: ToolSource::SearchPath,
                path: "/usr/bin/ffmpeg".to_owned(),
            },
            ffprobe: LocatedTool {
                source: ToolSource::SearchPath,
                path: "/usr/bin/ffprobe".to_owned(),
            },
        },
        verification,
    }
}

fn verified(decoders: &[HardwareDecoder]) -> ToolAvailability {
    located(ToolVerification::Verified {
        revisions: ToolRevisions {
            ab_av1: "ab-fixture".to_owned(),
            ffmpeg: "ffmpeg-fixture".to_owned(),
            encoder: "encoder-fixture".to_owned(),
        },
        hardware_decoders: decoders.to_vec(),
    })
}

fn state_with(tools: ToolAvailability) -> AppState {
    let mut state = AppState::default();
    state.tools.availability = tools;
    state.settings = Settings {
        hardware_decode: false,
        ..Settings::default()
    };
    state
}

fn meta(codec: VideoCodec, container: MediaContainer, width: u32, height: u32) -> VideoMeta {
    VideoMeta {
        codec,
        container,
        width,
        height,
        rotation_degrees: 0,
        duration_ms: 60_000,
        size_bytes: 1_000,
        audio: vec![AudioStreamMeta {
            codec: AudioCodec::Aac,
            channels: 2,
        }],
        subtitle_count: 0,
    }
}

fn hd() -> VideoMeta {
    meta(VideoCodec::H264, MediaContainer::Matroska, 1_920, 1_080)
}

fn key(name: &str) -> ContentKey {
    ContentKey(name.to_owned())
}

fn insert_record(state: &mut AppState, name: &str, metadata: VideoMeta) -> ContentKey {
    let content_key = key(name);
    state
        .durable
        .records
        .push((content_key.clone(), FileRecord::new(metadata)));
    content_key
}

fn record_mut<'a>(state: &'a mut AppState, content_key: &ContentKey) -> Option<&'a mut FileRecord> {
    state
        .durable
        .records
        .iter_mut()
        .find(|(key, _)| key == content_key)
        .map(|(_, record)| record)
}

fn composed(state: &AppState, base: &ExecutionSettings, codec: &VideoCodec) -> ExecutionSettings {
    match compose_execution(
        base,
        &state.tools.availability,
        &state.settings,
        OverwriteDecision::FollowSettings,
        Some(codec),
    ) {
        Ok(execution) => execution,
        Err(reason) => panic!("fixture tools must compose: {reason:?}"),
    }
}

fn result_for(execution: &ExecutionSettings) -> AnalysisResult {
    AnalysisResult {
        requested_target: execution.requested_target,
        successful_target: execution.requested_target,
        fallback_floor: execution.fallback_floor,
        fallback_step: execution.fallback_step,
        failed_attempts: Vec::new(),
        measurement: SearchMeasurement {
            crf: Crf(30_000),
            score: VmafScore(9_550),
            predicted_size: 500,
            predicted_percent_basis_points: 5_000,
            predicted_duration_ms: 30_000,
            from_cache: false,
        },
        profile: execution.profile.clone(),
    }
}

fn record_result(state: &mut AppState, content_key: &ContentKey, result: AnalysisResult) {
    if let Some(record) = record_mut(state, content_key) {
        record.record_analysis(result);
    }
}

fn set_verdict(state: &mut AppState, content_key: &ContentKey, kind: VerdictKind) {
    if let Some(record) = record_mut(state, content_key) {
        record.verdict = Some(Verdict {
            kind,
            source_run: Some(RunId(7)),
            decided_at: UnixMillis(2),
        });
    }
}

fn converted_kind() -> VerdictKind {
    VerdictKind::Converted {
        output_content_key: Some(key("output")),
        input_size: Some(1_000),
        output_size: Some(400),
        encoding_time: Some(DurationMs(90_000)),
        crf: Some(Crf(30_000)),
        vmaf: Some(VmafScore(9_550)),
        target: Some(VmafTarget(95)),
    }
}

fn imported(status: ParkedStatus) -> ImportedProvenance {
    ImportedProvenance {
        import_path: ImportPath("/videos/movie.mkv".to_owned()),
        record: ParkedRecord {
            status,
            size: None,
            modified_ns: None,
            video_codec: None,
            width: None,
            height: None,
            duration_ms: None,
            output_size: None,
            encoding_time: None,
            crf: None,
            vmaf: None,
            target: None,
            requested_target: None,
            floor_target: None,
            decided_at: UnixMillis(1),
        },
    }
}

fn scanned_status(
    state: &AppState,
    base: &ExecutionSettings,
    content_key: &ContentKey,
    metadata: &VideoMeta,
) -> AnalysisRowStatus {
    project_row_status(
        state,
        base,
        ScanFacts::Scanned {
            content_key,
            metadata,
        },
    )
}

#[test]
fn unverified_tools_report_eligibility_but_no_reuse() {
    let cases = [
        (
            ToolAvailability::default(),
            ExecutionUnavailable::ToolsMissing,
        ),
        (
            located(ToolVerification::Pending),
            ExecutionUnavailable::ToolsPending,
        ),
    ];
    for (tools, reason) in cases {
        let base = ExecutionSettings::default();
        let mut state = state_with(tools);
        let content_key = insert_record(&mut state, "movie", hd());
        let execution = ExecutionSettings::default();
        record_result(&mut state, &content_key, result_for(&execution));
        assert_eq!(
            scanned_status(&state, &base, &content_key, &hd()),
            AnalysisRowStatus {
                applicable: ApplicableLevel::Scanned {
                    reuse: ReuseStanding::ToolchainUnverified { reason },
                },
                historical: HistoricalLevel::Analyzed,
                analyze: RowEligibility::Eligible,
                convert: RowEligibility::Eligible,
            }
        );
    }
}

#[test]
fn a_reusable_native_search_is_applicable_with_its_prediction() {
    let base = ExecutionSettings::default();
    let mut state = state_with(verified(&[]));
    let content_key = insert_record(&mut state, "movie", hd());
    let unanalyzed = scanned_status(&state, &base, &content_key, &hd());
    assert_eq!(
        unanalyzed.applicable,
        ApplicableLevel::Scanned {
            reuse: ReuseStanding::Unanalyzed
        }
    );
    assert_eq!(unanalyzed.historical, HistoricalLevel::Scanned);

    let execution = composed(&state, &base, &VideoCodec::H264);
    record_result(&mut state, &content_key, result_for(&execution));
    let status = scanned_status(&state, &base, &content_key, &hd());
    assert_eq!(
        status.applicable,
        ApplicableLevel::Analyzed {
            prediction: SearchPrediction {
                crf: Crf(30_000),
                score: VmafScore(9_550),
                predicted_size: 500,
                predicted_percent_basis_points: 5_000,
                predicted_duration_ms: 30_000,
                requested_target: execution.requested_target,
                successful_target: execution.requested_target,
            }
        }
    );
    assert_eq!(status.historical, HistoricalLevel::Analyzed);
    assert_eq!(status.analyze, RowEligibility::Eligible);
    assert_eq!(status.convert, RowEligibility::Eligible);
}

#[test]
fn every_profile_field_participates_in_reuse() {
    let base = ExecutionSettings::default();
    let state = state_with(verified(&[]));
    let execution = composed(&state, &base, &VideoCodec::H264);
    let mut recorded = Vec::new();
    let mut changed = execution.profile.clone();
    changed.preset = changed.preset.saturating_sub(1);
    recorded.push(changed);
    let mut changed = execution.profile.clone();
    changed.max_encoded_percent_basis_points += 1;
    recorded.push(changed);
    let mut changed = execution.profile.clone();
    changed.samples = Some(4);
    recorded.push(changed);
    let mut changed = execution.profile.clone();
    changed.sample_duration_ms += 1;
    recorded.push(changed);
    let mut changed = execution.profile.clone();
    changed.thorough = !changed.thorough;
    recorded.push(changed);
    let mut changed = execution.profile.clone();
    changed.decode_mode = DecodeMode::Hardware(HardwareDecoder::H264Cuvid);
    recorded.push(changed);
    let mut changed = execution.profile.clone();
    changed.ab_av1_revision.push_str("-new");
    recorded.push(changed);
    let mut changed = execution.profile.clone();
    changed.ffmpeg_revision.push_str("-new");
    recorded.push(changed);
    let mut changed = execution.profile.clone();
    changed.encoder_revision.push_str("-new");
    recorded.push(changed);

    for profile in recorded {
        let mut state = state_with(verified(&[]));
        let content_key = insert_record(&mut state, "movie", hd());
        let mut result = result_for(&execution);
        result.profile = profile;
        record_result(&mut state, &content_key, result);
        let status = scanned_status(&state, &base, &content_key, &hd());
        assert_eq!(
            status.applicable,
            ApplicableLevel::Scanned {
                reuse: ReuseStanding::Inapplicable
            }
        );
        assert_eq!(status.historical, HistoricalLevel::Analyzed);
    }
}

#[test]
fn target_and_fallback_provenance_control_reuse() {
    let mut base = ExecutionSettings::default();
    let mut state = state_with(verified(&[]));
    let content_key = insert_record(&mut state, "movie", hd());
    let execution = composed(&state, &base, &VideoCodec::H264);
    record_result(&mut state, &content_key, result_for(&execution));

    base.requested_target = VmafTarget(execution.requested_target.0 - 1);
    assert!(matches!(
        scanned_status(&state, &base, &content_key, &hd()).applicable,
        ApplicableLevel::Analyzed { .. }
    ));

    base.requested_target = VmafTarget(execution.requested_target.0 + 1);
    assert_eq!(
        scanned_status(&state, &base, &content_key, &hd()).applicable,
        ApplicableLevel::Scanned {
            reuse: ReuseStanding::Inapplicable
        }
    );

    let mut fallback_base = ExecutionSettings::default();
    let mut fallback_state = state_with(verified(&[]));
    let fallback_key = insert_record(&mut fallback_state, "fallback", hd());
    let mut fallback = result_for(&execution);
    fallback.successful_target = VmafTarget(execution.requested_target.0 - 1);
    record_result(&mut fallback_state, &fallback_key, fallback);
    assert!(matches!(
        scanned_status(&fallback_state, &fallback_base, &fallback_key, &hd()).applicable,
        ApplicableLevel::Analyzed { .. }
    ));
    fallback_base.fallback_step += 1;
    assert_eq!(
        scanned_status(&fallback_state, &fallback_base, &fallback_key, &hd()).applicable,
        ApplicableLevel::Scanned {
            reuse: ReuseStanding::Inapplicable
        }
    );
}

#[test]
fn hardware_decode_reuses_only_the_probed_decoder_profile() {
    let base = ExecutionSettings::default();
    let mut state = state_with(verified(&[HardwareDecoder::H264Cuvid]));
    state.settings.hardware_decode = true;
    let content_key = insert_record(&mut state, "movie", hd());
    let execution = composed(&state, &base, &VideoCodec::H264);
    assert_eq!(
        execution.profile.decode_mode,
        DecodeMode::Hardware(HardwareDecoder::H264Cuvid)
    );
    record_result(&mut state, &content_key, result_for(&execution));
    assert!(matches!(
        scanned_status(&state, &base, &content_key, &hd()).applicable,
        ApplicableLevel::Analyzed { .. }
    ));

    state.settings.hardware_decode = false;
    assert_eq!(
        scanned_status(&state, &base, &content_key, &hd()).applicable,
        ApplicableLevel::Scanned {
            reuse: ReuseStanding::Inapplicable
        }
    );
}

#[test]
fn decisive_verdicts_are_converted_and_skip_conversion() {
    let base = ExecutionSettings::default();
    let mut state = state_with(verified(&[]));
    let content_key = insert_record(&mut state, "movie", hd());
    set_verdict(&mut state, &content_key, converted_kind());
    let status = scanned_status(&state, &base, &content_key, &hd());
    assert_eq!(
        status.applicable,
        ApplicableLevel::Converted {
            summary: ConversionSummary::Encoded {
                input_size: Some(1_000),
                output_size: Some(400),
                encoding_time: Some(DurationMs(90_000)),
                crf: Some(Crf(30_000)),
                vmaf: Some(VmafScore(9_550)),
                target: Some(VmafTarget(95)),
                decided_at: UnixMillis(2),
                source_run: Some(RunId(7)),
            }
        }
    );
    assert_eq!(status.historical, HistoricalLevel::Converted);
    assert_eq!(status.analyze, RowEligibility::Eligible);
    assert_eq!(
        status.convert,
        RowEligibility::Skip {
            reason: SkipReason::ProbableDuplicate {
                source_run: Some(RunId(7)),
            }
        }
    );

    set_verdict(
        &mut state,
        &content_key,
        VerdictKind::Remuxed {
            output_content_key: key("remux-output"),
            input_size: Some(1_000),
            output_size: Some(900),
        },
    );
    let status = scanned_status(&state, &base, &content_key, &hd());
    assert_eq!(
        status.applicable,
        ApplicableLevel::Converted {
            summary: ConversionSummary::Remuxed {
                input_size: Some(1_000),
                output_size: Some(900),
                decided_at: UnixMillis(2),
                source_run: Some(RunId(7)),
            }
        }
    );

    // Verdicts stand regardless of tool verification.
    state.tools.availability = located(ToolVerification::Pending);
    assert!(matches!(
        scanned_status(&state, &base, &content_key, &hd()).applicable,
        ApplicableLevel::Converted { .. }
    ));
}

#[test]
fn not_worthwhile_is_history_and_a_floor_policy() {
    let mut base = ExecutionSettings::default();
    let mut state = state_with(verified(&[]));
    let content_key = insert_record(&mut state, "movie", hd());
    set_verdict(
        &mut state,
        &content_key,
        VerdictKind::NotWorthwhile {
            requested: VmafTarget(95),
            floor: VmafTarget(90),
        },
    );
    let status = scanned_status(&state, &base, &content_key, &hd());
    assert_eq!(
        status.applicable,
        ApplicableLevel::Scanned {
            reuse: ReuseStanding::Unanalyzed
        }
    );
    assert_eq!(status.historical, HistoricalLevel::Analyzed);
    assert_eq!(status.analyze, RowEligibility::Eligible);
    assert_eq!(
        status.convert,
        RowEligibility::Skip {
            reason: SkipReason::NotWorthwhile {
                source_run: Some(RunId(7)),
            }
        }
    );

    // A lower floor is untried ground, decided from the base execution
    // even before the tools are verified.
    base.fallback_floor = VmafTarget(85);
    state.tools.availability = located(ToolVerification::Pending);
    let status = scanned_status(&state, &base, &content_key, &hd());
    assert_eq!(status.convert, RowEligibility::Eligible);
}

#[test]
fn media_eligibility_is_reported_per_operation() {
    let base = ExecutionSettings::default();
    let mut state = state_with(verified(&[]));
    let low = meta(VideoCodec::H264, MediaContainer::Matroska, 640, 480);
    let low_key = insert_record(&mut state, "low", low.clone());
    let status = scanned_status(&state, &base, &low_key, &low);
    let expected = RowEligibility::Skip {
        reason: SkipReason::LowResolution {
            pixels: 307_200,
            minimum: MIN_VIDEO_PIXELS,
        },
    };
    assert_eq!(status.analyze, expected);
    assert_eq!(status.convert, expected);

    let av1_mkv = meta(VideoCodec::Av1, MediaContainer::Matroska, 1_920, 1_080);
    let av1_mkv_key = insert_record(&mut state, "av1-mkv", av1_mkv.clone());
    let status = scanned_status(&state, &base, &av1_mkv_key, &av1_mkv);
    let expected = RowEligibility::Skip {
        reason: SkipReason::AlreadyAv1Matroska,
    };
    assert_eq!(status.analyze, expected);
    assert_eq!(status.convert, expected);

    let av1_mp4 = meta(
        VideoCodec::Av1,
        MediaContainer::Other("mov,mp4,m4a".to_owned()),
        1_920,
        1_080,
    );
    let av1_mp4_key = insert_record(&mut state, "av1-mp4", av1_mp4.clone());
    let status = scanned_status(&state, &base, &av1_mp4_key, &av1_mp4);
    assert_eq!(status.analyze, RowEligibility::Eligible);
    assert_eq!(status.convert, RowEligibility::Remux);
}

#[test]
fn imported_provenance_raises_only_historical() {
    let base = ExecutionSettings::default();
    let cases = [
        (ParkedStatus::Scanned, HistoricalLevel::Scanned),
        (ParkedStatus::Analyzed, HistoricalLevel::Analyzed),
        (ParkedStatus::NotWorthwhile, HistoricalLevel::Analyzed),
        (ParkedStatus::Converted, HistoricalLevel::Converted),
    ];
    for (status, historical) in cases {
        let mut state = state_with(verified(&[]));
        let content_key = insert_record(&mut state, "movie", hd());
        if let Some(record) = record_mut(&mut state, &content_key) {
            record.imported = Some(imported(status));
        }
        let projected = scanned_status(&state, &base, &content_key, &hd());
        assert_eq!(
            projected.applicable,
            ApplicableLevel::Scanned {
                reuse: ReuseStanding::Unanalyzed
            }
        );
        assert_eq!(projected.historical, historical);
        assert_eq!(projected.convert, RowEligibility::Eligible);
    }
}

#[test]
fn a_settled_output_reports_the_source_conversion_and_its_own_eligibility() {
    let base = ExecutionSettings::default();
    let mut state = state_with(verified(&[]));
    let source = insert_record(&mut state, "source", hd());
    set_verdict(&mut state, &source, converted_kind());
    let output_meta = meta(VideoCodec::Av1, MediaContainer::Matroska, 1_920, 1_080);
    let output = insert_record(&mut state, "output", output_meta.clone());
    let status = project_row_status(
        &state,
        &base,
        ScanFacts::SettledOutput {
            source_content_key: &source,
            output_content_key: &output,
            metadata: Some(&output_meta),
        },
    );
    assert!(matches!(
        status.applicable,
        ApplicableLevel::Converted {
            summary: ConversionSummary::Encoded { .. }
        }
    ));
    assert_eq!(status.historical, HistoricalLevel::Converted);
    let expected = RowEligibility::Skip {
        reason: SkipReason::AlreadyAv1Matroska,
    };
    assert_eq!(status.analyze, expected);
    assert_eq!(status.convert, expected);

    // Without output metadata the claim would fail open, so the row does.
    let unknown = project_row_status(
        &state,
        &base,
        ScanFacts::SettledOutput {
            source_content_key: &source,
            output_content_key: &output,
            metadata: None,
        },
    );
    assert_eq!(unknown.analyze, RowEligibility::Eligible);
}

#[test]
fn applicable_never_exceeds_historical_and_imports_never_raise_it() {
    fn rank(level: &ApplicableLevel) -> HistoricalLevel {
        match level {
            ApplicableLevel::Scanned { .. } => HistoricalLevel::Scanned,
            ApplicableLevel::Analyzed { .. } => HistoricalLevel::Analyzed,
            ApplicableLevel::Converted { .. } => HistoricalLevel::Converted,
        }
    }
    let base = ExecutionSettings::default();
    let verdicts = [
        None,
        Some(converted_kind()),
        Some(VerdictKind::Remuxed {
            output_content_key: key("remux"),
            input_size: None,
            output_size: None,
        }),
        Some(VerdictKind::NotWorthwhile {
            requested: VmafTarget(95),
            floor: VmafTarget(90),
        }),
    ];
    let imports = [
        None,
        Some(ParkedStatus::Scanned),
        Some(ParkedStatus::Analyzed),
        Some(ParkedStatus::NotWorthwhile),
        Some(ParkedStatus::Converted),
    ];
    let toolchains = [verified(&[]), located(ToolVerification::Pending)];
    // 0: no search, 1: a reusable search, 2: a search under another profile.
    for search in 0..3_u8 {
        for verdict in &verdicts {
            for import in imports {
                for tools in &toolchains {
                    let mut state = state_with(tools.clone());
                    let content_key = insert_record(&mut state, "movie", hd());
                    let mut result = result_for(&ExecutionSettings::default());
                    let reference = state_with(verified(&[]));
                    let execution = composed(&reference, &base, &VideoCodec::H264);
                    match search {
                        1 => result.profile = execution.profile.clone(),
                        2 => result.profile.preset = 1,
                        _ => {}
                    }
                    if search > 0 {
                        record_result(&mut state, &content_key, result);
                    }
                    if let Some(kind) = verdict {
                        set_verdict(&mut state, &content_key, kind.clone());
                    }
                    let without_import = scanned_status(&state, &base, &content_key, &hd());
                    if let Some(status) = import {
                        if let Some(record) = record_mut(&mut state, &content_key) {
                            record.imported = Some(imported(status));
                        }
                    }
                    let status = scanned_status(&state, &base, &content_key, &hd());
                    assert!(rank(&status.applicable) <= status.historical, "{status:?}");
                    assert_eq!(status.applicable, without_import.applicable);
                    assert_eq!(status.analyze, without_import.analyze);
                    assert_eq!(status.convert, without_import.convert);
                }
            }
        }
    }
}

fn empty_applied() -> Applied {
    Applied {
        durable: Vec::new(),
        config: Vec::new(),
        ephemeral: Vec::new(),
        effects: Vec::new(),
        reply: Reply::Accepted,
    }
}

#[test]
fn refresh_scope_names_the_content_each_durable_fact_touches() {
    let state = AppState::default();
    let mut applied = empty_applied();
    assert_eq!(refresh_scope(&state, &applied, false), RefreshScope::Nothing);
    assert_eq!(refresh_scope(&state, &applied, true), RefreshScope::Everything);
    applied
        .ephemeral
        .push(EphemeralDelta::ToolsChanged(ToolsState::default()));
    assert_eq!(refresh_scope(&state, &applied, false), RefreshScope::Everything);
    applied.ephemeral.clear();
    applied.durable.push(DurableDelta::ParkedAdopted {
        import_path: ImportPath("/videos/movie.mkv".to_owned()),
        content_key: key("adopted"),
        imported: imported(ParkedStatus::Analyzed).record,
        verdict: None,
    });
    assert_eq!(
        refresh_scope(&state, &applied, false),
        RefreshScope::Content(vec![key("adopted")])
    );
    let scope = refresh_scope(&state, &applied, false);
    assert!(scope.covers(&ScanFacts::SettledOutput {
        source_content_key: &key("adopted"),
        output_content_key: &key("other"),
        metadata: None,
    }));
    assert!(!scope.covers(&ScanFacts::Scanned {
        content_key: &key("other"),
        metadata: &hd(),
    }));
}

#[test]
fn a_default_profile_without_revisions_never_matches_a_verified_claim() {
    let profile = AnalysisProfile::production();
    assert!(profile.ab_av1_revision.is_empty());
    let base = ExecutionSettings::default();
    let mut state = state_with(verified(&[]));
    let content_key = insert_record(&mut state, "movie", hd());
    record_result(
        &mut state,
        &content_key,
        result_for(&ExecutionSettings::default()),
    );
    assert_eq!(
        scanned_status(&state, &base, &content_key, &hd()).applicable,
        ApplicableLevel::Scanned {
            reuse: ReuseStanding::Inapplicable
        }
    );
}

#[test]
fn refresh_scope_names_each_content_once() {
    let state = AppState::default();
    let mut applied = empty_applied();
    for name in ["a", "b", "a"] {
        applied.durable.push(DurableDelta::ParkedAdopted {
            import_path: ImportPath(format!("/videos/{name}.mkv")),
            content_key: key(name),
            imported: imported(ParkedStatus::Analyzed).record,
            verdict: None,
        });
    }
    assert_eq!(
        refresh_scope(&state, &applied, false),
        RefreshScope::Content(vec![key("a"), key("b")])
    );
}

fn display(text: &str) -> AnalysisDisplayText {
    AnalysisDisplayText {
        text: text.to_owned(),
        lossy: false,
    }
}

fn stale_status() -> AnalysisRowStatus {
    AnalysisRowStatus {
        applicable: ApplicableLevel::Scanned {
            reuse: ReuseStanding::Unanalyzed,
        },
        historical: HistoricalLevel::Scanned,
        analyze: RowEligibility::Remux,
        convert: RowEligibility::Remux,
    }
}

fn scanned_row(id: u64, content_key: &ContentKey) -> AnalysisRow {
    AnalysisRow {
        id: AnalysisRowId(id),
        parent: None,
        entry: AnalysisRowEntry::File {
            scan: AnalysisFileScan::Scanned {
                content_key: content_key.clone(),
                metadata: hd(),
                refresh_failure: None,
                status: Box::new(stale_status()),
            },
        },
        display_name: display("movie.mkv"),
        display_path: display("/videos/movie.mkv"),
    }
}

fn live_generation(rows: Vec<AnalysisRow>, activity: AnalysisActivity) -> AnalysisSnapshot {
    AnalysisSnapshot {
        current: Some(AnalysisGeneration {
            id: AnalysisGenerationId(3),
            roots: vec![display("/videos")],
            activity,
            rows,
        }),
    }
}

fn scan_status(row: &AnalysisRow) -> Option<AnalysisRowStatus> {
    match &row.entry {
        AnalysisRowEntry::File {
            scan: AnalysisFileScan::Scanned { status, .. },
        } => Some(**status),
        _ => None,
    }
}

#[test]
fn refresh_publishes_changed_rows_in_bounded_batches() {
    let base = ExecutionSettings::default();
    let mut state = state_with(verified(&[]));
    let content_key = insert_record(&mut state, "movie", hd());
    let total = ANALYSIS_REFRESH_BATCH_ROWS + 2;
    let rows: Vec<AnalysisRow> = (1..=total as u64)
        .map(|id| scanned_row(id, &content_key))
        .collect();
    state.analysis = live_generation(rows, AnalysisActivity::Ready);
    let expected = scanned_status(&state, &base, &content_key, &hd());
    let mut applied = empty_applied();
    refresh_analysis_rows(&mut state, &mut applied, &RefreshScope::Everything, &base);

    assert_eq!(applied.ephemeral.len(), 2);
    let sizes: Vec<usize> = applied
        .ephemeral
        .iter()
        .map(|delta| match delta {
            EphemeralDelta::Analysis(AnalysisDelta::RowsUpserted { generation, rows }) => {
                assert_eq!(*generation, AnalysisGenerationId(3));
                rows.len()
            }
            other => panic!("unexpected delta {other:?}"),
        })
        .collect();
    assert_eq!(sizes, vec![ANALYSIS_REFRESH_BATCH_ROWS, 2]);
    let current = state.analysis.current.expect("generation");
    assert_eq!(current.rows.len(), total);
    assert!(current
        .rows
        .iter()
        .all(|row| scan_status(row) == Some(expected)));

    // A second refresh finds nothing left to change.
    let mut again = empty_applied();
    let mut settled = state_with(verified(&[]));
    settled.durable = state.durable.clone();
    settled.analysis = AnalysisSnapshot {
        current: Some(current),
    };
    refresh_analysis_rows(&mut settled, &mut again, &RefreshScope::Everything, &base);
    assert!(again.ephemeral.is_empty());
}

#[test]
fn refresh_patches_rows_the_command_already_published() {
    let base = ExecutionSettings::default();
    let mut state = state_with(verified(&[]));
    let content_key = insert_record(&mut state, "movie", hd());
    state.analysis = live_generation(
        vec![scanned_row(1, &content_key), scanned_row(2, &content_key)],
        AnalysisActivity::Ready,
    );
    let expected = scanned_status(&state, &base, &content_key, &hd());
    let mut applied = empty_applied();
    applied
        .ephemeral
        .push(EphemeralDelta::Analysis(AnalysisDelta::RowsUpserted {
            generation: AnalysisGenerationId(3),
            rows: vec![scanned_row(2, &content_key)],
        }));
    refresh_analysis_rows(&mut state, &mut applied, &RefreshScope::Everything, &base);

    assert_eq!(applied.ephemeral.len(), 2);
    match &applied.ephemeral[0] {
        EphemeralDelta::Analysis(AnalysisDelta::RowsUpserted { rows, .. }) => {
            assert_eq!(rows.len(), 1);
            assert_eq!(rows[0].id, AnalysisRowId(2));
            assert_eq!(scan_status(&rows[0]), Some(expected));
        }
        other => panic!("unexpected delta {other:?}"),
    }
    match &applied.ephemeral[1] {
        EphemeralDelta::Analysis(AnalysisDelta::RowsUpserted { rows, .. }) => {
            assert_eq!(rows.len(), 1);
            assert_eq!(rows[0].id, AnalysisRowId(1));
        }
        other => panic!("unexpected delta {other:?}"),
    }
}

#[test]
fn refresh_leaves_an_ended_generation_and_an_empty_scope_alone() {
    let base = ExecutionSettings::default();
    let mut state = state_with(verified(&[]));
    let content_key = insert_record(&mut state, "movie", hd());
    state.analysis = live_generation(
        vec![scanned_row(1, &content_key)],
        AnalysisActivity::Cancelled,
    );
    let before = state.analysis.clone();
    let mut applied = empty_applied();
    refresh_analysis_rows(&mut state, &mut applied, &RefreshScope::Everything, &base);
    assert!(applied.ephemeral.is_empty());
    assert_eq!(state.analysis, before);

    state.analysis = live_generation(vec![scanned_row(1, &content_key)], AnalysisActivity::Ready);
    let before = state.analysis.clone();
    refresh_analysis_rows(&mut state, &mut applied, &RefreshScope::Nothing, &base);
    assert!(applied.ephemeral.is_empty());
    assert_eq!(state.analysis, before);

    refresh_analysis_rows(
        &mut state,
        &mut applied,
        &RefreshScope::Content(vec![key("unrelated")]),
        &base,
    );
    assert!(applied.ephemeral.is_empty());
    assert_eq!(state.analysis, before);
}

#[test]
fn a_settled_output_can_apply_more_than_its_source_reached() {
    let base = ExecutionSettings::default();
    let mut state = state_with(verified(&[]));
    let source = insert_record(&mut state, "source", hd());
    let output = insert_record(&mut state, "output", hd());
    let execution = composed(&state, &base, &VideoCodec::H264);
    record_result(&mut state, &output, result_for(&execution));
    let status = project_row_status(
        &state,
        &base,
        ScanFacts::SettledOutput {
            source_content_key: &source,
            output_content_key: &output,
            metadata: Some(&hd()),
        },
    );
    assert!(matches!(status.applicable, ApplicableLevel::Analyzed { .. }));
    assert_eq!(status.historical, HistoricalLevel::Scanned);
}
