use crfty_core::history::prepare_import_adoptions;
use crfty_core::{
    ContentKey, Crf, DestructiveIdentity, DurableDelta, DurableState, FileSystemId, FileTimeNs,
    ImportPath, MediaContainer, MediaObservation, ParkedRecord, ParkedStatus, PathBinding,
    PathHash, UnixMillis, VideoCodec, VideoMeta, VmafScore, VmafTarget,
};

fn observation() -> MediaObservation {
    MediaObservation {
        path_hash: PathHash("path".to_owned()),
        binding: PathBinding {
            identity: DestructiveIdentity {
                file_id: FileSystemId::Unix {
                    device: 1,
                    inode: 2,
                },
                size: 10_000,
                modified_ns: Some(FileTimeNs(1)),
            },
            content_key: ContentKey("content".to_owned()),
        },
        metadata: VideoMeta {
            codec: VideoCodec::H264,
            container: MediaContainer::Matroska,
            width: 1_280,
            height: 720,
            rotation_degrees: 0,
            duration_ms: 60_000,
            size_bytes: 10_000,
            audio: Vec::new(),
            subtitle_count: 0,
        },
    }
}

fn imported(status: ParkedStatus, decided_at: u64) -> ParkedRecord {
    ParkedRecord {
        status,
        size: Some(10_000),
        modified_ns: Some(FileTimeNs(1)),
        video_codec: Some(VideoCodec::H264),
        width: Some(1_280),
        height: Some(720),
        duration_ms: Some(60_000),
        output_size: Some(4_000),
        encoding_time: None,
        crf: Some(Crf(30_000)),
        vmaf: Some(VmafScore(9_500)),
        target: Some(VmafTarget(95)),
        requested_target: Some(VmafTarget(95)),
        floor_target: Some(VmafTarget(90)),
        decided_at: UnixMillis(decided_at),
    }
}

#[test]
fn strongest_adoption_supplies_the_effective_verdict() {
    let observation = observation();
    let older = ImportPath("older".to_owned());
    let newer = ImportPath("newer".to_owned());
    let stale = ImportPath("stale".to_owned());
    let mut stale_record = imported(ParkedStatus::Scanned, 3_000);
    stale_record.size = Some(99_999);
    let mut durable = DurableState::default();
    durable
        .parked
        .push((older.clone(), imported(ParkedStatus::Converted, 1_000)));
    durable
        .parked
        .push((newer.clone(), imported(ParkedStatus::NotWorthwhile, 2_000)));
    durable.parked.push((stale.clone(), stale_record));

    let prepared = prepare_import_adoptions(
        &durable,
        Some(&observation),
        &vec![older, stale.clone(), newer.clone()],
        Some(&observation.binding.content_key),
        None,
    );

    assert_eq!(prepared.deltas.len(), 3);
    assert!(prepared.deltas.iter().any(
        |delta| matches!(delta, DurableDelta::ParkedRetired { import_path } if import_path == &stale)
    ));
    assert!(prepared.deltas.iter().any(|delta| matches!(
        delta,
        DurableDelta::ParkedAdopted {
            import_path,
            verdict: Some(_),
            ..
        } if import_path == &newer
    )));
    assert!(prepared.effective_record.is_some_and(|record| {
        record
            .verdict
            .is_some_and(|verdict| verdict.decided_at == UnixMillis(2_000))
    }));
}

#[test]
fn preparation_without_an_observation_has_no_import_effects() {
    let durable = DurableState::default();
    let prepared = prepare_import_adoptions(&durable, None, &Vec::new(), None, None);

    assert!(prepared.deltas.is_empty());
    assert!(prepared.effective_record.is_none());
}

#[test]
fn an_unknown_import_path_is_ignored() {
    let observation = observation();
    let durable = DurableState::default();
    let prepared = prepare_import_adoptions(
        &durable,
        Some(&observation),
        &vec![ImportPath("never-parked".to_owned())],
        Some(&observation.binding.content_key),
        None,
    );
    assert!(prepared.deltas.is_empty());
    assert!(prepared.effective_record.is_none());
}
