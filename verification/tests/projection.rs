use crfty_core::projection::{collect_stat_facts, history_rows, local_epoch_day, run_totals};
use crfty_core::state::fold;
use crfty_core::statistics::{clamp_to_i64, statistics_totals, CodecCount};
use crfty_core::text::text_precedes;
use crfty_core::{
    AnalysisIntent, AnalysisProfile, AnalysisResult, ArtifactIdentity, AudioCodec, AudioStreamMeta,
    ClaimId, CompletionEvidence, ContentKey, ConversionRun, Crf, DecodeMode, DestructiveIdentity,
    DurableDelta, DurableState, DurationMs, ExecutionSettings, FailureFacts, FailureKind,
    FileRecord, FileSystemId, FileTimeNs, HistoryRowKey, HistoryStatus, ImportPath, ItemOutcome,
    JobAction, JobPhase, JobSpec, MediaContainer, Operation, OutputState, OutputTarget,
    OutputTransaction, ParkedRecord, ParkedStatus, PhaseSpan, QueueItemId, Replacement, RunId,
    RunTotals, SearchMeasurement, StreamByteSizes, UnixMillis, Verdict, VerdictKind, VideoCodec,
    VideoMeta, VmafScore, VmafTarget,
};

const DAY_MS: u64 = 86_400_000;

fn key(name: &str) -> ContentKey {
    ContentKey(name.to_owned())
}

fn meta(codec: VideoCodec, size_bytes: u64) -> VideoMeta {
    VideoMeta {
        codec,
        container: MediaContainer::Matroska,
        width: 1920,
        height: 1080,
        rotation_degrees: 0,
        duration_ms: 600_000,
        size_bytes,
        audio: vec![AudioStreamMeta {
            codec: AudioCodec::Aac,
            channels: 2,
        }],
        subtitle_count: 0,
    }
}

fn spec(run: u64, content_key: &ContentKey, operation: Operation) -> JobSpec {
    JobSpec {
        item_id: QueueItemId(run),
        claim_id: ClaimId(run),
        run_id: RunId(run),
        input: format!("input-{run}.mkv"),
        content_key: Some(content_key.clone()),
        operation,
        intent: AnalysisIntent::ReuseIfFresh,
        output_target: OutputTarget::Suffix {
            suffix: "-av1".to_owned(),
        },
        execution: ExecutionSettings::production(AnalysisProfile::production(), false),
        action: JobAction::Encode {
            selected_analysis: None,
        },
    }
}

fn analysis(crf_milli: u32, score_centi: u16) -> AnalysisResult {
    AnalysisResult {
        requested_target: VmafTarget(95),
        successful_target: VmafTarget(95),
        fallback_floor: VmafTarget(90),
        fallback_step: 1,
        failed_attempts: Vec::new(),
        measurement: SearchMeasurement {
            crf: Crf(crf_milli),
            score: VmafScore(score_centi),
            predicted_size: 1_000,
            predicted_percent_basis_points: 5_000,
            predicted_duration_ms: 60_000,
            from_cache: false,
        },
        profile: AnalysisProfile::production(),
    }
}

fn finished_run(
    run: u64,
    content_key: &ContentKey,
    outcome: ItemOutcome,
    finished_at: UnixMillis,
) -> ConversionRun {
    ConversionRun {
        spec: spec(run, content_key, Operation::Convert),
        analysis: Some(analysis(24_000, 9_512)),
        output_content_key: None,
        outcome: Some(outcome),
        started_at: Some(UnixMillis(finished_at.0.saturating_sub(1_000))),
        finished_at: Some(finished_at),
        phase_spans: vec![
            PhaseSpan {
                phase: JobPhase::Analyzing,
                duration: DurationMs(60_000),
            },
            PhaseSpan {
                phase: JobPhase::Encoding,
                duration: DurationMs(240_000),
            },
        ],
    }
}

fn live(input_size: u64, output_size: u64) -> CompletionEvidence {
    CompletionEvidence::LiveEncode {
        input_size,
        output_size,
        stream_sizes: StreamByteSizes {
            video: output_size,
            audio: 0,
            subtitle: 0,
            other: 0,
        },
        encode_decode: DecodeMode::Software,
    }
}

fn imported(status: ParkedStatus, codec: Option<VideoCodec>) -> ParkedRecord {
    ParkedRecord {
        status,
        size: Some(10_000),
        modified_ns: Some(FileTimeNs(1)),
        video_codec: codec,
        width: Some(1_280),
        height: Some(720),
        duration_ms: Some(60_000),
        output_size: Some(4_000),
        encoding_time: Some(DurationMs(120_000)),
        crf: Some(Crf(30_000)),
        vmaf: Some(VmafScore(9_512)),
        target: Some(VmafTarget(95)),
        requested_target: Some(VmafTarget(94)),
        floor_target: Some(VmafTarget(91)),
        decided_at: UnixMillis(DAY_MS * 20_000),
    }
}

fn adopted_verdict(imported: &ParkedRecord) -> Verdict {
    Verdict {
        kind: VerdictKind::Converted {
            output_content_key: None,
            input_size: imported.size,
            output_size: imported.output_size,
            encoding_time: imported.encoding_time,
            crf: imported.crf,
            vmaf: imported.vmaf,
            target: imported.target,
        },
        source_run: None,
        decided_at: imported.decided_at,
    }
}

/// A state with one converted content per (input, output) pair, finished
/// one day apart starting at `first_day_ms`.
fn converted_state(sizes: &[(u64, u64)], first_day_ms: u64) -> DurableState {
    let mut state = DurableState::default();
    for (index, (input, output)) in sizes.iter().enumerate() {
        let run = index as u64 + 1;
        let content_key = key(&format!("content-{run:04}"));
        let finished = UnixMillis(first_day_ms + index as u64 * DAY_MS);
        let mut record = FileRecord::new(meta(VideoCodec::Hevc, *input));
        record.verdict = Some(Verdict {
            kind: VerdictKind::Converted {
                output_content_key: Some(key(&format!("output-{run:04}"))),
                input_size: None,
                output_size: None,
                encoding_time: None,
                crf: None,
                vmaf: None,
                target: None,
            },
            source_run: Some(RunId(run)),
            decided_at: finished,
        });
        state.records.push((content_key.clone(), record));
        state.conversion_runs.push(finished_run(
            run,
            &content_key,
            ItemOutcome::Converted(live(*input, *output)),
            finished,
        ));
    }
    state
}

fn identity(size: u64) -> DestructiveIdentity {
    DestructiveIdentity {
        file_id: FileSystemId::Unix {
            device: 1,
            inode: size,
        },
        size,
        modified_ns: None,
    }
}

fn record_of<'a>(state: &'a DurableState, content_key: &ContentKey) -> &'a FileRecord {
    &state
        .records
        .iter()
        .find(|(key, _)| key == content_key)
        .expect("record")
        .1
}

#[test]
fn empty_state_projects_to_zeroes_and_no_rows() {
    let state = DurableState::default();
    let totals = statistics_totals(&state, 0);
    assert_eq!(totals.converted_files, 0);
    assert_eq!(totals.total_saved_bytes, 0);
    assert!(totals.sizes.is_empty());
    assert!(totals.vmaf_scores.is_empty());
    assert!(totals.cumulative_savings.is_empty());
    assert_eq!(totals.first_epoch_day, None);
    assert_eq!(totals.runs, RunTotals::default());
    assert!(history_rows(&state).is_empty());
}

#[test]
fn parked_imports_project_complete_sparse_history_and_statistics() {
    let mut state = DurableState::default();
    state.parked.push((
        ImportPath("c:/history/analyzed.mkv".to_owned()),
        imported(ParkedStatus::Analyzed, Some(VideoCodec::Hevc)),
    ));
    state.parked.push((
        ImportPath("c:/history/converted.mkv".to_owned()),
        imported(ParkedStatus::Converted, Some(VideoCodec::H264)),
    ));
    state.parked.push((
        ImportPath("c:/history/declined.mkv".to_owned()),
        imported(ParkedStatus::NotWorthwhile, Some(VideoCodec::Vp9)),
    ));
    state.parked.push((
        ImportPath("c:/history/scanned.mkv".to_owned()),
        imported(ParkedStatus::Scanned, None),
    ));

    let totals = statistics_totals(&state, 0);
    assert_eq!(totals.converted_files, 1);
    assert_eq!(totals.sized_converted_files, 1);
    assert_eq!(totals.not_worthwhile_files, 1);
    assert_eq!(totals.total_saved_bytes, 6_000);
    assert_eq!(totals.total_time_ms, 120_000);
    assert_eq!(totals.runs, RunTotals::default());

    let rows = history_rows(&state);
    assert_eq!(rows.len(), 3);
    assert!(rows.iter().all(|row| row.source_run.is_none()));
    let analyzed = rows
        .iter()
        .find(|row| row.status == HistoryStatus::Analyzed)
        .expect("parked analyzed row");
    assert!(matches!(analyzed.key, HistoryRowKey::Parked(_)));
    assert_eq!(analyzed.container, None);
    assert_eq!(analyzed.audio, None);
}

#[test]
fn one_to_one_adoption_preserves_statistics_and_imported_analysis_is_display_only() {
    let import_path = ImportPath("c:/history/movie.mkv".to_owned());
    let converted_import = imported(ParkedStatus::Converted, Some(VideoCodec::H264));
    let mut state = DurableState::default();
    state
        .parked
        .push((import_path.clone(), converted_import.clone()));
    let before = statistics_totals(&state, 0);

    let content_key = key("movie-content");
    state.records.push((
        content_key.clone(),
        FileRecord::new(meta(VideoCodec::H264, 10_000)),
    ));
    fold(
        &mut state,
        &DurableDelta::ParkedAdopted {
            import_path: import_path.clone(),
            content_key: content_key.clone(),
            imported: converted_import.clone(),
            verdict: Some(adopted_verdict(&converted_import)),
        },
    );

    assert_eq!(statistics_totals(&state, 0), before);
    assert_eq!(state.adopted_imports.len(), 1);
    assert!(state.parked.is_empty());
    assert_eq!(history_rows(&state)[0].key, HistoryRowKey::Content(content_key));

    let analyzed_path = ImportPath("c:/history/analyzed-only.mkv".to_owned());
    let analyzed = imported(ParkedStatus::Analyzed, Some(VideoCodec::Hevc));
    state.parked.push((analyzed_path.clone(), analyzed.clone()));
    fold(
        &mut state,
        &DurableDelta::ParkedAdopted {
            import_path: analyzed_path,
            content_key: key("movie-content"),
            imported: analyzed,
            verdict: None,
        },
    );
    assert!(record_of(&state, &key("movie-content")).analyses.is_empty());
}

#[test]
fn many_import_paths_collapsing_to_one_content_count_once_after_adoption() {
    let path_a = ImportPath("c:/history/a.mkv".to_owned());
    let path_b = ImportPath("c:/history/b.mkv".to_owned());
    let mut older = imported(ParkedStatus::Converted, Some(VideoCodec::H264));
    older.decided_at = UnixMillis(DAY_MS * 19_999);
    let newer = imported(ParkedStatus::Converted, Some(VideoCodec::Hevc));
    let mut state = DurableState::default();
    state.parked.push((path_a.clone(), older.clone()));
    state.parked.push((path_b.clone(), newer.clone()));
    assert_eq!(statistics_totals(&state, 0).converted_files, 2);

    let content_key = key("shared-content");
    state.records.push((
        content_key.clone(),
        FileRecord::new(meta(VideoCodec::Av1, 10_000)),
    ));
    for (path, record) in [(path_a, older), (path_b.clone(), newer.clone())] {
        fold(
            &mut state,
            &DurableDelta::ParkedAdopted {
                import_path: path,
                content_key: content_key.clone(),
                imported: record.clone(),
                verdict: Some(adopted_verdict(&record)),
            },
        );
    }

    let totals = statistics_totals(&state, 0);
    assert_eq!(totals.converted_files, 1);
    assert_eq!(totals.runs, RunTotals::default());
    assert_eq!(state.adopted_imports.len(), 2);
    assert_eq!(
        record_of(&state, &content_key)
            .imported
            .as_ref()
            .map(|provenance| &provenance.import_path),
        Some(&path_b)
    );
}

#[test]
fn codec_count_ties_use_canonical_ascending_order() {
    let mut state = DurableState::default();
    for (path, codec) in [
        ("vp9.mkv", VideoCodec::Vp9),
        ("h264.mkv", VideoCodec::H264),
        ("av1.mkv", VideoCodec::Av1),
    ] {
        state.parked.push((
            ImportPath(path.to_owned()),
            imported(ParkedStatus::Converted, Some(codec)),
        ));
    }
    assert_eq!(
        statistics_totals(&state, 0)
            .codecs
            .into_iter()
            .map(|entry| entry.codec)
            .collect::<Vec<_>>(),
        vec![VideoCodec::Av1, VideoCodec::H264, VideoCodec::Vp9]
    );
}

#[test]
fn codecs_are_most_frequent_first_and_other_codecs_sort_by_name() {
    let mut state = DurableState::default();
    for (index, codec) in [
        VideoCodec::Other("prores".to_owned()),
        VideoCodec::Vp9,
        VideoCodec::Other("mpeg2video".to_owned()),
        VideoCodec::Vp9,
        VideoCodec::Other("mpeg2".to_owned()),
    ]
    .into_iter()
    .enumerate()
    {
        state.parked.push((
            ImportPath(format!("{index}.mkv")),
            imported(ParkedStatus::Converted, Some(codec)),
        ));
    }
    assert_eq!(
        statistics_totals(&state, 0).codecs,
        vec![
            CodecCount {
                codec: VideoCodec::Vp9,
                count: 2
            },
            CodecCount {
                codec: VideoCodec::Other("mpeg2".to_owned()),
                count: 1
            },
            CodecCount {
                codec: VideoCodec::Other("mpeg2video".to_owned()),
                count: 1
            },
            CodecCount {
                codec: VideoCodec::Other("prores".to_owned()),
                count: 1
            },
        ]
    );
}

#[test]
fn text_order_is_character_order_with_prefixes_first() {
    let text = |value: &str| value.to_owned();
    assert!(text_precedes(&text("mpeg2"), &text("mpeg2video")));
    assert!(!text_precedes(&text("mpeg2video"), &text("mpeg2")));
    assert!(text_precedes(&text("a"), &text("b")));
    assert!(!text_precedes(&text("same"), &text("same")));
    assert!(text_precedes(&text(""), &text("x")));
    assert!(text_precedes(&text("Z"), &text("a")));
}

#[test]
fn single_conversion_aggregates_from_live_evidence() {
    let state = converted_state(&[(10_000_000_000, 4_000_000_000)], DAY_MS * 20_000);
    let totals = statistics_totals(&state, 0);
    assert_eq!(totals.converted_files, 1);
    assert_eq!(totals.sized_converted_files, 1);
    assert_eq!(totals.total_input_bytes, 10_000_000_000);
    assert_eq!(totals.total_output_bytes, 4_000_000_000);
    assert_eq!(totals.total_saved_bytes, 6_000_000_000);
    assert_eq!(totals.total_time_ms, 300_000);
    assert_eq!(totals.sizes, vec![(10_000_000_000, 4_000_000_000)]);
    assert_eq!(totals.grew_count, 0);
    assert_eq!(totals.vmaf_scores, vec![VmafScore(9_512)]);
    assert_eq!(totals.crfs, vec![Crf(24_000)]);
    assert_eq!(totals.cumulative_savings.len(), 1);
    assert_eq!(totals.first_epoch_day, Some(20_000));
    assert_eq!(totals.runs.converted, 1);
}

#[test]
fn recovered_evidence_falls_back_to_the_settled_transaction() {
    let mut state = converted_state(&[(0, 0)], DAY_MS * 20_000);
    state.conversion_runs[0].outcome =
        Some(ItemOutcome::Converted(CompletionEvidence::RecoveredAtStartup));
    state.outputs.push(OutputTransaction {
        run_id: RunId(1),
        input: "input-1.mkv".to_owned(),
        input_identity: ArtifactIdentity {
            content_key: key("content-0001"),
            destructive: identity(8_000),
        },
        staging: "staging".to_owned(),
        initial_staging_identity: ArtifactIdentity {
            content_key: key("staging-0001"),
            destructive: identity(0),
        },
        final_path: "final.mkv".to_owned(),
        final_preimage: None,
        replacement: Replacement::KeepOriginal,
        state: OutputState::Committed {
            final_identity: ArtifactIdentity {
                content_key: key("output-0001"),
                destructive: identity(3_000),
            },
        },
    });
    let facts = collect_stat_facts(&state);
    assert_eq!(facts.len(), 1);
    assert_eq!(facts[0].input_size_bytes, Some(8_000));
    assert_eq!(facts[0].output_size_bytes, Some(3_000));
}

#[test]
fn verdict_without_run_or_transaction_keeps_input_from_metadata() {
    let mut state = DurableState::default();
    let content_key = key("adopted");
    let mut record = FileRecord::new(meta(VideoCodec::H264, 5_000));
    record.verdict = Some(Verdict {
        kind: VerdictKind::Converted {
            output_content_key: Some(key("adopted-out")),
            input_size: None,
            output_size: None,
            encoding_time: None,
            crf: None,
            vmaf: None,
            target: None,
        },
        source_run: Some(RunId(77)),
        decided_at: UnixMillis(DAY_MS * 19_000),
    });
    state.records.push((content_key.clone(), record));

    let facts = collect_stat_facts(&state);
    assert_eq!(facts.len(), 1);
    assert_eq!(facts[0].input_size_bytes, Some(5_000));
    assert_eq!(facts[0].output_size_bytes, None);
    assert_eq!(facts[0].finished_at, UnixMillis(DAY_MS * 19_000));

    let totals = statistics_totals(&state, 0);
    // Counted as converted, but never enters savings totals.
    assert_eq!(totals.converted_files, 1);
    assert_eq!(totals.sized_converted_files, 0);
    assert_eq!(totals.total_saved_bytes, 0);
    assert!(totals.sizes.is_empty());

    let rows = history_rows(&state);
    assert_eq!(rows.len(), 1);
    assert_eq!(rows[0].status, HistoryStatus::Converted);
    assert_eq!(rows[0].input_size_bytes, Some(5_000));
    assert_eq!(rows[0].output_size_bytes, None);
}

#[test]
fn remux_stays_out_of_conversion_aggregates() {
    let mut state = converted_state(&[(10_000, 5_000)], DAY_MS * 20_000);
    let content_key = key("remuxed");
    let mut record = FileRecord::new(meta(VideoCodec::Av1, 9_000));
    record.verdict = Some(Verdict {
        kind: VerdictKind::Remuxed {
            output_content_key: key("remuxed-out"),
            input_size: None,
            output_size: None,
        },
        source_run: Some(RunId(50)),
        decided_at: UnixMillis(DAY_MS * 20_000),
    });
    state.records.push((content_key.clone(), record));
    let mut run = finished_run(
        50,
        &content_key,
        ItemOutcome::Remuxed(CompletionEvidence::LiveRemux {
            input_size: 9_000,
            output_size: 8_900,
        }),
        UnixMillis(DAY_MS * 20_000),
    );
    run.analysis = None;
    state.conversion_runs.push(run);

    let totals = statistics_totals(&state, 0);
    assert_eq!(totals.converted_files, 1);
    assert_eq!(totals.remuxed_files, 1);
    assert_eq!(totals.total_saved_bytes, 5_000);
    assert_eq!(totals.remux_saved_bytes, 100);
    assert_eq!(totals.vmaf_scores.len(), 1);
    assert_eq!(totals.codecs.len(), 1);

    let rows = history_rows(&state);
    let remux_row = rows
        .iter()
        .find(|row| row.status == HistoryStatus::Remuxed)
        .unwrap();
    assert_eq!(remux_row.output_size_bytes, Some(8_900));
    assert_eq!(remux_row.vmaf, None);
}

#[test]
fn grown_outputs_count_separately_and_dip_the_cumulative_series() {
    let state = converted_state(
        &[(10_000, 4_000), (5_000, 8_000)], // second one grew by 3000
        DAY_MS * 20_000,
    );
    let totals = statistics_totals(&state, 0);
    assert_eq!(totals.grew_count, 1);
    assert_eq!(totals.total_saved_bytes, 3_000);
    assert_eq!(totals.cumulative_savings.len(), 2);
    assert_eq!(totals.cumulative_savings[0].epoch_day, 20_000);
    assert_eq!(totals.cumulative_savings[0].cumulative_saved_bytes, 6_000);
    assert_eq!(totals.cumulative_savings[1].epoch_day, 20_001);
    assert_eq!(totals.cumulative_savings[1].cumulative_saved_bytes, 3_000);
    assert_eq!(totals.first_epoch_day, Some(20_000));
    assert_eq!(totals.last_epoch_day, Some(20_001));
}

#[test]
fn savings_on_one_day_are_summed_and_days_come_out_in_order() {
    let mut state = converted_state(&[(10_000, 4_000), (6_000, 5_000)], DAY_MS * 20_010);
    // A third conversion finished earlier than the others, on the first day.
    let mut more = converted_state(&[(1_000, 500)], DAY_MS * 20_010);
    let (content_key, record) = more.records.remove(0);
    let mut run = more.conversion_runs.remove(0);
    let renamed = key("content-extra");
    run.spec.run_id = RunId(9);
    run.spec.content_key = Some(renamed.clone());
    let mut record = record;
    if let Some(verdict) = record.verdict.as_mut() {
        verdict.source_run = Some(RunId(9));
    }
    let _ = content_key;
    state.records.push((renamed, record));
    state.conversion_runs.push(run);
    let early = converted_state(&[(2_000, 1_000)], DAY_MS * 20_000);
    let (early_key, mut early_record) = early.records[0].clone();
    let mut early_run = early.conversion_runs[0].clone();
    early_run.spec.run_id = RunId(10);
    let early_key = ContentKey(format!("{}-early", early_key.0));
    early_run.spec.content_key = Some(early_key.clone());
    if let Some(verdict) = early_record.verdict.as_mut() {
        verdict.source_run = Some(RunId(10));
    }
    state.records.push((early_key, early_record));
    state.conversion_runs.push(early_run);

    let totals = statistics_totals(&state, 0);
    let days: Vec<(i64, i64)> = totals
        .cumulative_savings
        .iter()
        .map(|point| (point.epoch_day, point.cumulative_saved_bytes))
        .collect();
    assert_eq!(days, vec![(20_000, 1_000), (20_010, 7_500), (20_011, 8_500)]);
}

#[test]
fn timezone_offset_shifts_the_day_bucket() {
    // 23:30 UTC on epoch day 20000.
    let at = UnixMillis(DAY_MS * 20_000 + 23 * 3_600_000 + 30 * 60_000);
    assert_eq!(local_epoch_day(at, 0), 20_000);
    assert_eq!(local_epoch_day(at, 60), 20_001); // UTC+1 is past midnight
    assert_eq!(local_epoch_day(UnixMillis(DAY_MS * 20_000), -60), 19_999);
}

#[test]
fn timezone_offset_shifts_the_statistics_days() {
    let state = converted_state(&[(10_000, 4_000)], DAY_MS * 20_000);
    assert_eq!(statistics_totals(&state, -60).first_epoch_day, Some(19_999));
    assert_eq!(statistics_totals(&state, -60).utc_offset_minutes, -60);
}

#[test]
fn not_worthwhile_counts_and_rows_carry_the_targets() {
    let mut state = DurableState::default();
    let content_key = key("declined");
    let mut record = FileRecord::new(meta(VideoCodec::H264, 5_000));
    record.verdict = Some(Verdict {
        kind: VerdictKind::NotWorthwhile {
            requested: VmafTarget(95),
            floor: VmafTarget(90),
        },
        source_run: Some(RunId(9)),
        decided_at: UnixMillis(DAY_MS * 20_000),
    });
    state.records.push((content_key.clone(), record));
    state.conversion_runs.push(finished_run(
        9,
        &content_key,
        ItemOutcome::NotWorthwhile {
            attempts: Vec::new(),
        },
        UnixMillis(DAY_MS * 20_000),
    ));

    let totals = statistics_totals(&state, 0);
    assert_eq!(totals.not_worthwhile_files, 1);
    assert_eq!(totals.converted_files, 0);
    assert_eq!(totals.runs.not_worthwhile, 1);
    let rows = history_rows(&state);
    assert_eq!(
        rows[0].status,
        HistoryStatus::NotWorthwhile {
            requested: VmafTarget(95),
            floor: VmafTarget(90),
        }
    );
}

#[test]
fn failure_reports_only_for_verdictless_content() {
    let mut state = converted_state(&[(10_000, 4_000)], DAY_MS * 20_000);
    let converted_key = key("content-0001");
    // A later failed run on already-converted content: the verdict is the
    // standing judgment, so the row stays Converted.
    let mut failed_retry = finished_run(
        2,
        &converted_key,
        ItemOutcome::Failed(FailureFacts::new(
            FailureKind::EncodeRun,
            "encoder crashed".to_owned(),
        )),
        UnixMillis(DAY_MS * 20_001),
    );
    failed_retry.analysis = None;
    state.conversion_runs.push(failed_retry);
    // A failed run on fresh content produces a Failed row.
    let fresh_key = key("fresh");
    state.records.push((
        fresh_key.clone(),
        FileRecord::new(meta(VideoCodec::Vp9, 7_000)),
    ));
    let mut failed_fresh = finished_run(
        3,
        &fresh_key,
        ItemOutcome::Failed(FailureFacts::new(
            FailureKind::SearchRun,
            "probe failed".to_owned(),
        )),
        UnixMillis(DAY_MS * 20_001),
    );
    failed_fresh.analysis = None;
    state.conversion_runs.push(failed_fresh);

    let rows = history_rows(&state);
    assert_eq!(rows.len(), 2);
    let converted_row = rows
        .iter()
        .find(|row| row.key == HistoryRowKey::Content(converted_key.clone()))
        .unwrap();
    assert_eq!(converted_row.status, HistoryStatus::Converted);
    let failed_row = rows
        .iter()
        .find(|row| row.key == HistoryRowKey::Content(fresh_key.clone()))
        .unwrap();
    assert_eq!(
        failed_row.status,
        HistoryStatus::Failed {
            kind: FailureKind::SearchRun,
            message: "probe failed".to_owned(),
        }
    );
    assert_eq!(failed_row.source_run, Some(RunId(3)));
    assert_eq!(statistics_totals(&state, 0).runs.failed, 2);
    assert_eq!(run_totals(&state).converted, 1);
}

#[test]
fn analyzed_content_reports_the_latest_run_measurement() {
    let mut state = DurableState::default();
    let content_key = key("studied");
    let mut record = FileRecord::new(meta(VideoCodec::Hevc, 5_000));
    record.record_analysis(analysis(30_000, 9_400));
    record.record_analysis(analysis(26_000, 9_600));
    state.records.push((content_key.clone(), record));
    let mut run = finished_run(
        4,
        &content_key,
        ItemOutcome::Analyzed,
        UnixMillis(DAY_MS * 20_000),
    );
    run.analysis = Some(analysis(26_000, 9_600));
    state.conversion_runs.push(run);

    let rows = history_rows(&state);
    assert_eq!(rows[0].status, HistoryStatus::Analyzed);
    assert_eq!(rows[0].crf, Some(Crf(26_000)));
    assert_eq!(rows[0].vmaf, Some(VmafScore(9_600)));
    assert_eq!(rows[0].source_run, Some(RunId(4)));
    // Analyses alone never create a StatFact.
    assert!(collect_stat_facts(&state).is_empty());
    assert_eq!(statistics_totals(&state, 0).runs.analyzed, 1);
}

#[test]
fn scanned_only_content_gets_no_row() {
    let mut state = DurableState::default();
    state
        .records
        .push((key("seen"), FileRecord::new(meta(VideoCodec::H264, 1_000))));
    assert!(history_rows(&state).is_empty());
}

#[test]
fn rotated_dimensions_present_post_rotation() {
    let mut state = DurableState::default();
    let content_key = key("portrait");
    let mut portrait = meta(VideoCodec::H264, 1_000);
    portrait.rotation_degrees = 90;
    let mut record = FileRecord::new(portrait);
    record.verdict = Some(Verdict {
        kind: VerdictKind::NotWorthwhile {
            requested: VmafTarget(95),
            floor: VmafTarget(90),
        },
        source_run: Some(RunId(1)),
        decided_at: UnixMillis(0),
    });
    state.records.push((content_key, record));
    let rows = history_rows(&state);
    assert_eq!((rows[0].width, rows[0].height), (Some(1080), Some(1920)));
}

#[test]
fn savings_identities_hold_on_concrete_sizes() {
    let sizes = [
        (1_000_000_000_000, 1),
        (0, 5),
        (7, 7),
        (999_999_999_999, 123_456_789),
    ];
    let state = converted_state(&sizes, DAY_MS * 20_000);
    let totals = statistics_totals(&state, 0);
    let expected_input: u128 = sizes.iter().map(|(input, _)| u128::from(*input)).sum();
    let expected_output: u128 = sizes.iter().map(|(_, output)| u128::from(*output)).sum();
    assert_eq!(u128::from(totals.total_input_bytes), expected_input);
    assert_eq!(u128::from(totals.total_output_bytes), expected_output);
    assert_eq!(
        i128::from(totals.total_saved_bytes),
        expected_input as i128 - expected_output as i128
    );
    assert_eq!(
        totals.cumulative_savings.last().map(|point| point.cumulative_saved_bytes),
        Some(totals.total_saved_bytes)
    );
    assert_eq!(totals.sizes.len(), sizes.len());
    // Only an output larger than a non-empty input counts as grown.
    assert_eq!(totals.grew_count, 0);
}

#[test]
fn clamping_keeps_totals_within_i64() {
    assert_eq!(clamp_to_i64(i128::MAX), i64::MAX);
    assert_eq!(clamp_to_i64(i128::MIN), i64::MIN);
    assert_eq!(clamp_to_i64(-5), -5);
}

#[test]
fn rows_and_facts_come_out_in_key_order_whatever_the_stored_order() {
    let mut state = converted_state(&[(8_000, 3_000), (9_000, 4_000), (7_000, 2_000)], DAY_MS * 20_000);
    state.records.reverse();
    state.conversion_runs.reverse();
    state.parked.push((ImportPath("c:/z.mkv".to_owned()), imported(ParkedStatus::Converted, Some(VideoCodec::Hevc))));
    state.parked.push((ImportPath("c:/a.mkv".to_owned()), imported(ParkedStatus::Converted, Some(VideoCodec::Hevc))));

    let keys: Vec<HistoryRowKey> = history_rows(&state).into_iter().map(|row| row.key).collect();
    assert_eq!(
        keys,
        vec![
            HistoryRowKey::Content(key("content-0001")),
            HistoryRowKey::Content(key("content-0002")),
            HistoryRowKey::Content(key("content-0003")),
            HistoryRowKey::Parked(ImportPath("c:/a.mkv".to_owned())),
            HistoryRowKey::Parked(ImportPath("c:/z.mkv".to_owned())),
        ]
    );
    let facts: Vec<ContentKey> = collect_stat_facts(&state).into_iter().map(|fact| fact.content_key).collect();
    assert_eq!(facts, vec![key("content-0001"), key("content-0002"), key("content-0003")]);
    let runs: Vec<RunId> = crfty_core::observation::observations(&state)
        .into_iter()
        .map(|observation| observation.run_id)
        .collect();
    assert_eq!(runs, vec![RunId(1), RunId(2), RunId(3)]);
}
