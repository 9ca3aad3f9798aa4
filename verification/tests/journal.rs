use crfty_core::journal::{
    frame_journal, replay_records, FrameEnd, JournalLine, JournalRecord, JOURNAL_SCHEMA_VERSION,
};
use crfty_core::reducer::apply;
use crfty_core::{AppState, Command, QueueAddRequest, QueueCommand, TimestampReliability};
use crfty_core::{
    AnalysisIntent, ClaimId, ContentKey, Crf, DestructiveIdentity, DurableDelta, DurableState,
    FileSystemId, FileTimeNs, ImportPath, JournalEnvelope, JournalSequence, MediaContainer,
    MediaObservation, Operation, OutputTarget, OverwriteDecision, ParkedRecord, ParkedStatus,
    PathBinding, PathHash, QueueItem, QueueItemId, QueueItemState, RunId, UnixMillis, VideoCodec,
    VideoMeta, VmafScore, VmafTarget,
};

fn queue_added(id: u64, input: &str) -> DurableDelta {
    DurableDelta::QueueAdded {
        item: QueueItem {
            id: QueueItemId(id),
            input: input.to_owned(),
            operation: Operation::Convert,
            intent: AnalysisIntent::ReuseIfFresh,
            output_target: OutputTarget::Replace,
            overwrite: OverwriteDecision::FollowSettings,
            state: QueueItemState::Queued,
        },
    }
}

fn decoded(offset: usize, sequence: u64, deltas: Vec<DurableDelta>) -> JournalRecord {
    JournalRecord {
        offset,
        line: JournalLine::Decoded(JournalEnvelope {
            schema_version: JOURNAL_SCHEMA_VERSION,
            sequence: JournalSequence(sequence),
            deltas,
        }),
    }
}

fn observation(content: &str) -> MediaObservation {
    MediaObservation {
        path_hash: PathHash(format!("path-{content}")),
        binding: PathBinding {
            identity: DestructiveIdentity {
                file_id: FileSystemId::Unix { device: 1, inode: 2 },
                size: 10_000,
                modified_ns: Some(FileTimeNs(1)),
            },
            content_key: ContentKey(content.to_owned()),
        },
        metadata: VideoMeta {
            codec: VideoCodec::H264,
            container: MediaContainer::Matroska,
            width: 1_280,
            height: 720,
            rotation_degrees: 0,
            duration_ms: 60_000,
            size_bytes: 10_000,
            audio: Vec::new(),
            subtitle_count: 0,
        },
    }
}

fn parked_record(status: ParkedStatus) -> ParkedRecord {
    ParkedRecord {
        status,
        size: Some(10_000),
        modified_ns: Some(FileTimeNs(1)),
        video_codec: Some(VideoCodec::H264),
        width: Some(1_280),
        height: Some(720),
        duration_ms: Some(60_000),
        output_size: Some(4_000),
        encoding_time: None,
        crf: Some(Crf(30_000)),
        vmaf: Some(VmafScore(9_512)),
        target: Some(VmafTarget(95)),
        requested_target: Some(VmafTarget(94)),
        floor_target: Some(VmafTarget(91)),
        decided_at: UnixMillis(1_000),
    }
}

#[test]
fn journal_ignores_only_an_unterminated_final_record() {
    let bytes = b"{\"first\":0}\n{\"second\":1}".to_vec();
    let frames = frame_journal(&bytes);
    assert_eq!(frames.end, FrameEnd::TornTail);
    assert_eq!(frames.records.len(), 1);
    assert_eq!((frames.records[0].start, frames.records[0].end), (0, 11));

    let replayed = replay_records(vec![decoded(0, 0, vec![queue_added(1, "one.mkv")])], frames.end);
    assert!(replayed.ignored_torn_tail);
    assert!(replayed.corruption.is_none());
    assert_eq!(replayed.state.queue.len(), 1);
    assert_eq!(replayed.next_sequence, JournalSequence(1));
}

#[test]
fn journal_degrades_on_nonfinal_corruption() {
    let bytes = b"{\"first\":0}\nnot-json\n{\"first\":0}\n".to_vec();
    let frames = frame_journal(&bytes);
    assert_eq!(frames.end, FrameEnd::Complete);
    assert_eq!(frames.records.len(), 3);
    assert_eq!((frames.records[1].start, frames.records[1].end), (12, 20));

    let records = vec![
        decoded(0, 0, vec![queue_added(1, "one.mkv")]),
        JournalRecord {
            offset: 12,
            line: JournalLine::Undecodable {
                schema_version: None,
                error: "expected value".to_owned(),
            },
        },
        decoded(21, 1, vec![queue_added(2, "two.mkv")]),
    ];
    let replayed = replay_records(records, frames.end);
    let corruption = replayed.corruption.expect("corrupt middle record");
    assert_eq!(corruption.offset, 12);
    assert_eq!(corruption.reason, "invalid journal record: expected value");
    assert!(!replayed.ignored_torn_tail);
    assert_eq!(replayed.state.queue.len(), 1);
    assert_eq!(replayed.next_sequence, JournalSequence(1));
}

#[test]
fn an_empty_line_is_corruption_not_a_torn_tail() {
    let bytes = b"{\"first\":0}\n\n".to_vec();
    let frames = frame_journal(&bytes);
    assert_eq!(frames.end, FrameEnd::EmptyRecord { offset: 12 });
    let replayed = replay_records(vec![decoded(0, 0, vec![queue_added(1, "one.mkv")])], frames.end);
    let corruption = replayed.corruption.expect("empty record");
    assert_eq!(corruption.offset, 12);
    assert_eq!(corruption.reason, "empty journal record");
    assert_eq!(replayed.state.queue.len(), 1);
}

#[test]
fn replay_reports_old_and_future_schema_versions_before_decoding_the_payload() {
    for unsupported in [JOURNAL_SCHEMA_VERSION - 1, JOURNAL_SCHEMA_VERSION + 1] {
        let records = vec![JournalRecord {
            offset: 0,
            line: JournalLine::Undecodable {
                schema_version: Some(unsupported),
                error: "unknown variant".to_owned(),
            },
        }];
        let replayed = replay_records(records, FrameEnd::Complete);
        let corruption = replayed.corruption.expect("unsupported schema");
        assert_eq!(corruption.reason, format!("unsupported journal schema {unsupported}"));
    }
}

#[test]
fn replay_rejects_a_sequence_gap_and_an_empty_batch() {
    let gap = replay_records(
        vec![
            decoded(0, 0, vec![queue_added(1, "one.mkv")]),
            decoded(40, 2, vec![queue_added(2, "two.mkv")]),
        ],
        FrameEnd::Complete,
    );
    let corruption = gap.corruption.expect("sequence gap");
    assert_eq!(corruption.reason, "expected journal sequence 1, found 2");
    assert_eq!(corruption.offset, 40);
    assert_eq!(gap.state.queue.len(), 1);

    let empty = replay_records(vec![decoded(0, 0, Vec::new())], FrameEnd::Complete);
    assert_eq!(empty.corruption.expect("empty batch").reason, "empty journal batch");
}

#[test]
fn replay_rejects_semantically_impossible_durable_transition() {
    let running = DurableDelta::ItemRunning {
        item_id: QueueItemId(1),
        claim_id: ClaimId(2),
        run_id: RunId(3),
        at: UnixMillis(1_000),
    };
    let replayed = replay_records(vec![decoded(0, 0, vec![running])], FrameEnd::Complete);
    assert!(replayed.corruption.is_some());
    assert!(replayed.state.queue.is_empty());
}

#[test]
fn replay_rejects_an_entire_semantically_invalid_batch() {
    let deltas = vec![
        queue_added(1, "video.mkv"),
        DurableDelta::ItemRunning {
            item_id: QueueItemId(1),
            claim_id: ClaimId(2),
            run_id: RunId(3),
            at: UnixMillis(1_000),
        },
    ];
    let replayed = replay_records(vec![decoded(0, 0, deltas)], FrameEnd::Complete);
    assert!(replayed.corruption.is_some());
    assert!(replayed.state.queue.is_empty());
}

#[test]
fn replay_rejects_adoption_when_carried_facts_do_not_match_parked_record() {
    let import_path = ImportPath("c:/videos/imported.mkv".to_owned());
    let parked = parked_record(ParkedStatus::Converted);
    let mut mismatched = parked.clone();
    mismatched.output_size = Some(123);
    let observation = observation("imported-content");
    let deltas = vec![
        DurableDelta::HistoryImported {
            records: vec![(import_path.clone(), parked)],
        },
        DurableDelta::MediaObserved {
            observation: Box::new(observation.clone()),
        },
        DurableDelta::ParkedAdopted {
            import_path,
            content_key: observation.binding.content_key,
            imported: mismatched,
            verdict: None,
        },
    ];
    let replayed = replay_records(vec![decoded(0, 0, deltas)], FrameEnd::Complete);
    assert!(replayed.corruption.is_some());
    assert_eq!(replayed.state, DurableState::default());
}

#[test]
fn replay_of_live_adds_and_removes_equals_the_live_state() {
    let mut live = AppState::default();
    let mut emitted = Vec::new();
    let pattern = [false, true, true, false, false, true, false, true, true, true, false, false];
    for (index, remove) in pattern.into_iter().enumerate() {
        let item_id = QueueItemId(index as u64);
        let request = QueueAddRequest {
            item_id,
            input: format!("video-{index}.mkv"),
            path_hash: None,
            identity: None,
            timestamp_reliability: TimestampReliability::Unknown,
            operation: Operation::Convert,
            intent: AnalysisIntent::ReuseIfFresh,
            output_target: OutputTarget::Replace,
            overwrite: OverwriteDecision::FollowSettings,
        };
        let added = apply(&mut live, Command::Queue(QueueCommand::AddMany { requests: vec![request] }));
        emitted.extend(added.durable);
        if remove {
            let removed = apply(&mut live, Command::Queue(QueueCommand::Remove { item_id }));
            emitted.extend(removed.durable);
        }
    }
    let records: Vec<JournalRecord> = emitted
        .into_iter()
        .enumerate()
        .map(|(sequence, delta)| decoded(sequence * 100, sequence as u64, vec![delta]))
        .collect();
    let count = records.len();
    let replayed = replay_records(records, FrameEnd::Complete);
    assert!(replayed.corruption.is_none());
    assert_eq!(replayed.state, live.durable);
    assert_eq!(replayed.next_sequence, JournalSequence(count as u64));
    assert_eq!(live.durable.queue.len(), 6);
}
