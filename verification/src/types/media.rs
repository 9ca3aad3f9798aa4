//! Domain types and their mathematical views.
#![allow(unused_imports)]

use vstd::prelude::*;

use crate::model::{Duplicate, SameView, Plain, duplicate_vec, same_view_vec};
use crate::{AnalysisResult, AnalysisResultView, ContentKey, ContentKeyView, Crf, DurationMs, FileTimeNs, RunId, UnixMillis, VmafScore, VmafTarget};

verus! {

/// The hashed spelling of a source path.
#[derive(Clone, Debug, PartialEq, Eq)]
pub struct PathHash(pub String);

/// The mathematical value of a [`PathHash`].
pub struct PathHashView(pub Seq<char>);

impl View for PathHash {
    type V = PathHashView;

    open spec fn view(&self) -> PathHashView {
        PathHashView(self.0@)
    }
}

impl Duplicate for PathHash {
    fn duplicate(&self) -> (copy: Self) {
        PathHash(self.0.clone())
    }
}

impl SameView for PathHash {
    fn same_view(&self, other: &Self) -> (same: bool) {
        (self.0.same_view(&other.0))
    }
}

/// The normalized source-path key an imported history record is parked
/// under. Normalization is applied by the engine at import and at prepare
/// time, so both sides of a match meet on the same spelling.
#[derive(Clone, Debug, PartialEq, Eq)]
pub struct ImportPath(pub String);

/// The mathematical value of a [`ImportPath`].
pub struct ImportPathView(pub Seq<char>);

impl View for ImportPath {
    type V = ImportPathView;

    open spec fn view(&self) -> ImportPathView {
        ImportPathView(self.0@)
    }
}

impl Duplicate for ImportPath {
    fn duplicate(&self) -> (copy: Self) {
        ImportPath(self.0.clone())
    }
}

impl SameView for ImportPath {
    fn same_view(&self, other: &Self) -> (same: bool) {
        (self.0.same_view(&other.0))
    }
}

/// The filesystem's own identity of a file.
#[derive(Clone, Copy, Debug, PartialEq, Eq, Structural)]
pub enum FileSystemId {
    Unix { device: u64, inode: u64 },
    Windows { volume: u64, file_index: u128 },
}

impl View for FileSystemId {
    type V = FileSystemId;

    open spec fn view(&self) -> FileSystemId {
        *self
    }
}

impl Duplicate for FileSystemId {
    fn duplicate(&self) -> (copy: Self) {
        *self
    }
}

impl SameView for FileSystemId {
    fn same_view(&self, other: &Self) -> (same: bool) {
        *self == *other
    }
}

impl Plain for FileSystemId {
    proof fn lemma_view_is_self(&self) {
    }
}

/// What a stat of a file reveals: the filesystem identity, the byte size,
/// and the modification time when the filesystem reports one.
#[derive(Clone, Copy, Debug, PartialEq, Eq, Structural)]
pub struct DestructiveIdentity {
    pub file_id: FileSystemId,
    pub size: u64,
    pub modified_ns: Option<FileTimeNs>,
}

impl View for DestructiveIdentity {
    type V = DestructiveIdentity;

    open spec fn view(&self) -> DestructiveIdentity {
        *self
    }
}

impl Duplicate for DestructiveIdentity {
    fn duplicate(&self) -> (copy: Self) {
        *self
    }
}

impl SameView for DestructiveIdentity {
    fn same_view(&self, other: &Self) -> (same: bool) {
        *self == *other
    }
}

impl Plain for DestructiveIdentity {
    proof fn lemma_view_is_self(&self) {
    }
}

/// The cheap freshness probe of a file: byte size and modification time.
#[derive(Clone, Copy, Debug, PartialEq, Eq, Structural)]
pub struct FileStamp {
    pub size: u64,
    pub modified_ns: Option<FileTimeNs>,
}

impl View for FileStamp {
    type V = FileStamp;

    open spec fn view(&self) -> FileStamp {
        *self
    }
}

impl Duplicate for FileStamp {
    fn duplicate(&self) -> (copy: Self) {
        *self
    }
}

impl SameView for FileStamp {
    fn same_view(&self, other: &Self) -> (same: bool) {
        *self == *other
    }
}

impl Plain for FileStamp {
    proof fn lemma_view_is_self(&self) {
    }
}

/// The identity a path had when its content was last observed.
#[derive(Clone, Debug, PartialEq, Eq)]
pub struct PathBinding {
    pub identity: DestructiveIdentity,
    pub content_key: ContentKey,
}

/// The mathematical value of a [`PathBinding`].
pub struct PathBindingView {
    pub identity: DestructiveIdentity,
    pub content_key: ContentKeyView,
}

impl View for PathBinding {
    type V = PathBindingView;

    open spec fn view(&self) -> PathBindingView {
        PathBindingView {
            identity: self.identity,
            content_key: self.content_key@,
        }
    }
}

impl Duplicate for PathBinding {
    fn duplicate(&self) -> (copy: Self) {
        PathBinding {
            identity: self.identity,
            content_key: self.content_key.duplicate(),
        }
    }
}

impl SameView for PathBinding {
    fn same_view(&self, other: &Self) -> (same: bool) {
        (self.identity == other.identity)
            && (self.content_key.same_view(&other.content_key))
    }
}

/// Video codec of an inspected file.
#[derive(Clone, Debug, PartialEq, Eq, PartialOrd, Ord, Hash)]
pub enum VideoCodec {
    Av1,
    H264,
    Hevc,
    Vp9,
    Other(String),
}

/// The mathematical value of a [`VideoCodec`].
pub enum VideoCodecView {
    Av1,
    H264,
    Hevc,
    Vp9,
    Other(Seq<char>),
}

impl View for VideoCodec {
    type V = VideoCodecView;

    open spec fn view(&self) -> VideoCodecView {
        match self {
            VideoCodec::Av1 => VideoCodecView::Av1,
            VideoCodec::H264 => VideoCodecView::H264,
            VideoCodec::Hevc => VideoCodecView::Hevc,
            VideoCodec::Vp9 => VideoCodecView::Vp9,
            VideoCodec::Other(f0) => VideoCodecView::Other(f0@),
        }
    }
}

impl Duplicate for VideoCodec {
    fn duplicate(&self) -> (copy: Self) {
        match self {
            VideoCodec::Av1 => VideoCodec::Av1,
            VideoCodec::H264 => VideoCodec::H264,
            VideoCodec::Hevc => VideoCodec::Hevc,
            VideoCodec::Vp9 => VideoCodec::Vp9,
            VideoCodec::Other(f0) => VideoCodec::Other((*f0).clone()),
        }
    }
}

impl SameView for VideoCodec {
    fn same_view(&self, other: &Self) -> (same: bool) {
        match (self, other) {
            (VideoCodec::Av1, VideoCodec::Av1) => true,
            (VideoCodec::H264, VideoCodec::H264) => true,
            (VideoCodec::Hevc, VideoCodec::Hevc) => true,
            (VideoCodec::Vp9, VideoCodec::Vp9) => true,
            (VideoCodec::Other(a0), VideoCodec::Other(b0)) => ((*a0).same_view(&(*b0))),
            _ => false,
        }
    }
}

/// Container format of an inspected file.
#[derive(Clone, Debug, PartialEq, Eq)]
pub enum MediaContainer {
    Matroska,
    Other(String),
}

/// The mathematical value of a [`MediaContainer`].
pub enum MediaContainerView {
    Matroska,
    Other(Seq<char>),
}

impl View for MediaContainer {
    type V = MediaContainerView;

    open spec fn view(&self) -> MediaContainerView {
        match self {
            MediaContainer::Matroska => MediaContainerView::Matroska,
            MediaContainer::Other(f0) => MediaContainerView::Other(f0@),
        }
    }
}

impl Duplicate for MediaContainer {
    fn duplicate(&self) -> (copy: Self) {
        match self {
            MediaContainer::Matroska => MediaContainer::Matroska,
            MediaContainer::Other(f0) => MediaContainer::Other((*f0).clone()),
        }
    }
}

impl SameView for MediaContainer {
    fn same_view(&self, other: &Self) -> (same: bool) {
        match (self, other) {
            (MediaContainer::Matroska, MediaContainer::Matroska) => true,
            (MediaContainer::Other(a0), MediaContainer::Other(b0)) => ((*a0).same_view(&(*b0))),
            _ => false,
        }
    }
}

/// Audio codec of one stream.
#[derive(Clone, Debug, PartialEq, Eq)]
pub enum AudioCodec {
    Aac,
    Ac3,
    Eac3,
    Dts,
    Opus,
    Flac,
    Mp3,
    Other(String),
}

/// The mathematical value of a [`AudioCodec`].
pub enum AudioCodecView {
    Aac,
    Ac3,
    Eac3,
    Dts,
    Opus,
    Flac,
    Mp3,
    Other(Seq<char>),
}

impl View for AudioCodec {
    type V = AudioCodecView;

    open spec fn view(&self) -> AudioCodecView {
        match self {
            AudioCodec::Aac => AudioCodecView::Aac,
            AudioCodec::Ac3 => AudioCodecView::Ac3,
            AudioCodec::Eac3 => AudioCodecView::Eac3,
            AudioCodec::Dts => AudioCodecView::Dts,
            AudioCodec::Opus => AudioCodecView::Opus,
            AudioCodec::Flac => AudioCodecView::Flac,
            AudioCodec::Mp3 => AudioCodecView::Mp3,
            AudioCodec::Other(f0) => AudioCodecView::Other(f0@),
        }
    }
}

impl Duplicate for AudioCodec {
    fn duplicate(&self) -> (copy: Self) {
        match self {
            AudioCodec::Aac => AudioCodec::Aac,
            AudioCodec::Ac3 => AudioCodec::Ac3,
            AudioCodec::Eac3 => AudioCodec::Eac3,
            AudioCodec::Dts => AudioCodec::Dts,
            AudioCodec::Opus => AudioCodec::Opus,
            AudioCodec::Flac => AudioCodec::Flac,
            AudioCodec::Mp3 => AudioCodec::Mp3,
            AudioCodec::Other(f0) => AudioCodec::Other((*f0).clone()),
        }
    }
}

impl SameView for AudioCodec {
    fn same_view(&self, other: &Self) -> (same: bool) {
        match (self, other) {
            (AudioCodec::Aac, AudioCodec::Aac) => true,
            (AudioCodec::Ac3, AudioCodec::Ac3) => true,
            (AudioCodec::Eac3, AudioCodec::Eac3) => true,
            (AudioCodec::Dts, AudioCodec::Dts) => true,
            (AudioCodec::Opus, AudioCodec::Opus) => true,
            (AudioCodec::Flac, AudioCodec::Flac) => true,
            (AudioCodec::Mp3, AudioCodec::Mp3) => true,
            (AudioCodec::Other(a0), AudioCodec::Other(b0)) => ((*a0).same_view(&(*b0))),
            _ => false,
        }
    }
}

/// One audio stream of the inspected file.
#[derive(Clone, Debug, PartialEq, Eq)]
pub struct AudioStreamMeta {
    pub codec: AudioCodec,
    pub channels: u16,
}

/// The mathematical value of a [`AudioStreamMeta`].
pub struct AudioStreamMetaView {
    pub codec: AudioCodecView,
    pub channels: u16,
}

impl View for AudioStreamMeta {
    type V = AudioStreamMetaView;

    open spec fn view(&self) -> AudioStreamMetaView {
        AudioStreamMetaView {
            codec: self.codec@,
            channels: self.channels,
        }
    }
}

impl Duplicate for AudioStreamMeta {
    fn duplicate(&self) -> (copy: Self) {
        AudioStreamMeta {
            codec: self.codec.duplicate(),
            channels: self.channels,
        }
    }
}

impl SameView for AudioStreamMeta {
    fn same_view(&self, other: &Self) -> (same: bool) {
        (self.codec.same_view(&other.codec))
            && (self.channels == other.channels)
    }
}

/// Probed media facts of one file.
#[derive(Clone, Debug, PartialEq, Eq)]
pub struct VideoMeta {
    pub codec: VideoCodec,
    pub container: MediaContainer,
    pub width: u32,
    pub height: u32,
    pub rotation_degrees: i16,
    pub duration_ms: u64,
    /// Byte size of the inspected file.
    pub size_bytes: u64,
    pub audio: Vec<AudioStreamMeta>,
    pub subtitle_count: u32,
}

/// The mathematical value of a [`VideoMeta`].
pub struct VideoMetaView {
    pub codec: VideoCodecView,
    pub container: MediaContainerView,
    pub width: u32,
    pub height: u32,
    pub rotation_degrees: i16,
    pub duration_ms: u64,
    pub size_bytes: u64,
    pub audio: Seq<AudioStreamMetaView>,
    pub subtitle_count: u32,
}

impl View for VideoMeta {
    type V = VideoMetaView;

    open spec fn view(&self) -> VideoMetaView {
        VideoMetaView {
            codec: self.codec@,
            container: self.container@,
            width: self.width,
            height: self.height,
            rotation_degrees: self.rotation_degrees,
            duration_ms: self.duration_ms,
            size_bytes: self.size_bytes,
            audio: self.audio@.map_values(|x: AudioStreamMeta| x@),
            subtitle_count: self.subtitle_count,
        }
    }
}

impl Duplicate for VideoMeta {
    fn duplicate(&self) -> (copy: Self) {
        VideoMeta {
            codec: self.codec.duplicate(),
            container: self.container.duplicate(),
            width: self.width,
            height: self.height,
            rotation_degrees: self.rotation_degrees,
            duration_ms: self.duration_ms,
            size_bytes: self.size_bytes,
            audio: duplicate_vec(&self.audio),
            subtitle_count: self.subtitle_count,
        }
    }
}

impl SameView for VideoMeta {
    fn same_view(&self, other: &Self) -> (same: bool) {
        (self.codec.same_view(&other.codec))
            && (self.container.same_view(&other.container))
            && (self.width == other.width)
            && (self.height == other.height)
            && (self.rotation_degrees == other.rotation_degrees)
            && (self.duration_ms == other.duration_ms)
            && (self.size_bytes == other.size_bytes)
            && (same_view_vec(&self.audio, &other.audio))
            && (self.subtitle_count == other.subtitle_count)
    }
}

/// One observation of the file at a path: its identity binding and media facts.
#[derive(Clone, Debug, PartialEq, Eq)]
pub struct MediaObservation {
    pub path_hash: PathHash,
    pub binding: PathBinding,
    pub metadata: VideoMeta,
}

/// The mathematical value of a [`MediaObservation`].
pub struct MediaObservationView {
    pub path_hash: PathHashView,
    pub binding: PathBindingView,
    pub metadata: VideoMetaView,
}

impl View for MediaObservation {
    type V = MediaObservationView;

    open spec fn view(&self) -> MediaObservationView {
        MediaObservationView {
            path_hash: self.path_hash@,
            binding: self.binding@,
            metadata: self.metadata@,
        }
    }
}

impl Duplicate for MediaObservation {
    fn duplicate(&self) -> (copy: Self) {
        MediaObservation {
            path_hash: self.path_hash.duplicate(),
            binding: self.binding.duplicate(),
            metadata: self.metadata.duplicate(),
        }
    }
}

impl SameView for MediaObservation {
    fn same_view(&self, other: &Self) -> (same: bool) {
        (self.path_hash.same_view(&other.path_hash))
            && (self.binding.same_view(&other.binding))
            && (self.metadata.same_view(&other.metadata))
    }
}

/// What the latest decisive run concluded about a content, with its measured
/// summary. Every summary field is nullable because an import or a
/// crash-recovered success cannot honestly supply it.
#[derive(Clone, Debug, PartialEq, Eq)]
pub enum VerdictKind {
    Converted { output_content_key: Option<ContentKey>, input_size: Option<u64>, output_size: Option<u64>, encoding_time: Option<DurationMs>, crf: Option<Crf>, vmaf: Option<VmafScore>, target: Option<VmafTarget> },
    Remuxed { output_content_key: ContentKey, input_size: Option<u64>, output_size: Option<u64> },
    NotWorthwhile { requested: VmafTarget, floor: VmafTarget },
}

/// The mathematical value of a [`VerdictKind`].
pub enum VerdictKindView {
    Converted { output_content_key: Option<ContentKeyView>, input_size: Option<u64>, output_size: Option<u64>, encoding_time: Option<DurationMs>, crf: Option<Crf>, vmaf: Option<VmafScore>, target: Option<VmafTarget> },
    Remuxed { output_content_key: ContentKeyView, input_size: Option<u64>, output_size: Option<u64> },
    NotWorthwhile { requested: VmafTarget, floor: VmafTarget },
}

impl View for VerdictKind {
    type V = VerdictKindView;

    open spec fn view(&self) -> VerdictKindView {
        match self {
            VerdictKind::Converted { output_content_key, input_size, output_size, encoding_time, crf, vmaf, target } => VerdictKindView::Converted { output_content_key: match output_content_key { Some(x) => Some(x@), None => None }, input_size: *input_size, output_size: *output_size, encoding_time: *encoding_time, crf: *crf, vmaf: *vmaf, target: *target },
            VerdictKind::Remuxed { output_content_key, input_size, output_size } => VerdictKindView::Remuxed { output_content_key: output_content_key@, input_size: *input_size, output_size: *output_size },
            VerdictKind::NotWorthwhile { requested, floor } => VerdictKindView::NotWorthwhile { requested: *requested, floor: *floor },
        }
    }
}

impl Duplicate for VerdictKind {
    fn duplicate(&self) -> (copy: Self) {
        match self {
            VerdictKind::Converted { output_content_key, input_size, output_size, encoding_time, crf, vmaf, target } => VerdictKind::Converted { output_content_key: match &(*output_content_key) { Some(x) => Some(x.duplicate()), None => None }, input_size: *input_size, output_size: *output_size, encoding_time: *encoding_time, crf: *crf, vmaf: *vmaf, target: *target },
            VerdictKind::Remuxed { output_content_key, input_size, output_size } => VerdictKind::Remuxed { output_content_key: (*output_content_key).duplicate(), input_size: *input_size, output_size: *output_size },
            VerdictKind::NotWorthwhile { requested, floor } => VerdictKind::NotWorthwhile { requested: *requested, floor: *floor },
        }
    }
}

impl SameView for VerdictKind {
    fn same_view(&self, other: &Self) -> (same: bool) {
        match (self, other) {
            (VerdictKind::Converted { output_content_key: a_output_content_key, input_size: a_input_size, output_size: a_output_size, encoding_time: a_encoding_time, crf: a_crf, vmaf: a_vmaf, target: a_target }, VerdictKind::Converted { output_content_key: b_output_content_key, input_size: b_input_size, output_size: b_output_size, encoding_time: b_encoding_time, crf: b_crf, vmaf: b_vmaf, target: b_target }) => (match (&(*a_output_content_key), &(*b_output_content_key)) { (Some(x), Some(y)) => (*x).same_view(&(*y)), (None, None) => true, _ => false }) && (*a_input_size == *b_input_size) && (*a_output_size == *b_output_size) && (*a_encoding_time == *b_encoding_time) && (*a_crf == *b_crf) && (*a_vmaf == *b_vmaf) && (*a_target == *b_target),
            (VerdictKind::Remuxed { output_content_key: a_output_content_key, input_size: a_input_size, output_size: a_output_size }, VerdictKind::Remuxed { output_content_key: b_output_content_key, input_size: b_input_size, output_size: b_output_size }) => ((*a_output_content_key).same_view(&(*b_output_content_key))) && (*a_input_size == *b_input_size) && (*a_output_size == *b_output_size),
            (VerdictKind::NotWorthwhile { requested: a_requested, floor: a_floor }, VerdictKind::NotWorthwhile { requested: b_requested, floor: b_floor }) => (*a_requested == *b_requested) && (*a_floor == *b_floor),
            _ => false,
        }
    }
}

/// The standing judgment about a content.
#[derive(Clone, Debug, PartialEq, Eq)]
pub struct Verdict {
    pub kind: VerdictKind,
    /// `None`: adopted from a history import; no run backs it.
    pub source_run: Option<RunId>,
    pub decided_at: UnixMillis,
}

/// The mathematical value of a [`Verdict`].
pub struct VerdictView {
    pub kind: VerdictKindView,
    pub source_run: Option<RunId>,
    pub decided_at: UnixMillis,
}

impl View for Verdict {
    type V = VerdictView;

    open spec fn view(&self) -> VerdictView {
        VerdictView {
            kind: self.kind@,
            source_run: self.source_run,
            decided_at: self.decided_at,
        }
    }
}

impl Duplicate for Verdict {
    fn duplicate(&self) -> (copy: Self) {
        Verdict {
            kind: self.kind.duplicate(),
            source_run: self.source_run,
            decided_at: self.decided_at,
        }
    }
}

impl SameView for Verdict {
    fn same_view(&self, other: &Self) -> (same: bool) {
        (self.kind.same_view(&other.kind))
            && (self.source_run == other.source_run)
            && (self.decided_at == other.decided_at)
    }
}

/// The decisive standing of an imported history record.
#[derive(Clone, Copy, Debug, PartialEq, Eq, PartialOrd, Ord, Structural)]
pub enum ParkedStatus {
    Scanned,
    Analyzed,
    NotWorthwhile,
    Converted,
}

impl View for ParkedStatus {
    type V = ParkedStatus;

    open spec fn view(&self) -> ParkedStatus {
        *self
    }
}

impl Duplicate for ParkedStatus {
    fn duplicate(&self) -> (copy: Self) {
        *self
    }
}

impl SameView for ParkedStatus {
    fn same_view(&self, other: &Self) -> (same: bool) {
        *self == *other
    }
}

impl Plain for ParkedStatus {
    proof fn lemma_view_is_self(&self) {
    }
}

/// An imported history record waiting to be matched against a real file.
/// Every optional field carries what the source record said, nothing
/// synthesized.
#[derive(Clone, Debug, PartialEq, Eq)]
pub struct ParkedRecord {
    pub status: ParkedStatus,
    pub size: Option<u64>,
    pub modified_ns: Option<FileTimeNs>,
    pub video_codec: Option<VideoCodec>,
    pub width: Option<u32>,
    pub height: Option<u32>,
    pub duration_ms: Option<u64>,
    pub output_size: Option<u64>,
    pub encoding_time: Option<DurationMs>,
    pub crf: Option<Crf>,
    pub vmaf: Option<VmafScore>,
    pub target: Option<VmafTarget>,
    pub requested_target: Option<VmafTarget>,
    pub floor_target: Option<VmafTarget>,
    pub decided_at: UnixMillis,
}

/// The mathematical value of a [`ParkedRecord`].
pub struct ParkedRecordView {
    pub status: ParkedStatus,
    pub size: Option<u64>,
    pub modified_ns: Option<FileTimeNs>,
    pub video_codec: Option<VideoCodecView>,
    pub width: Option<u32>,
    pub height: Option<u32>,
    pub duration_ms: Option<u64>,
    pub output_size: Option<u64>,
    pub encoding_time: Option<DurationMs>,
    pub crf: Option<Crf>,
    pub vmaf: Option<VmafScore>,
    pub target: Option<VmafTarget>,
    pub requested_target: Option<VmafTarget>,
    pub floor_target: Option<VmafTarget>,
    pub decided_at: UnixMillis,
}

impl View for ParkedRecord {
    type V = ParkedRecordView;

    open spec fn view(&self) -> ParkedRecordView {
        ParkedRecordView {
            status: self.status,
            size: self.size,
            modified_ns: self.modified_ns,
            video_codec: match self.video_codec { Some(x) => Some(x@), None => None },
            width: self.width,
            height: self.height,
            duration_ms: self.duration_ms,
            output_size: self.output_size,
            encoding_time: self.encoding_time,
            crf: self.crf,
            vmaf: self.vmaf,
            target: self.target,
            requested_target: self.requested_target,
            floor_target: self.floor_target,
            decided_at: self.decided_at,
        }
    }
}

impl Duplicate for ParkedRecord {
    fn duplicate(&self) -> (copy: Self) {
        ParkedRecord {
            status: self.status,
            size: self.size,
            modified_ns: self.modified_ns,
            video_codec: match &self.video_codec { Some(x) => Some(x.duplicate()), None => None },
            width: self.width,
            height: self.height,
            duration_ms: self.duration_ms,
            output_size: self.output_size,
            encoding_time: self.encoding_time,
            crf: self.crf,
            vmaf: self.vmaf,
            target: self.target,
            requested_target: self.requested_target,
            floor_target: self.floor_target,
            decided_at: self.decided_at,
        }
    }
}

impl SameView for ParkedRecord {
    fn same_view(&self, other: &Self) -> (same: bool) {
        (self.status == other.status)
            && (self.size == other.size)
            && (self.modified_ns == other.modified_ns)
            && (match (&self.video_codec, &other.video_codec) { (Some(x), Some(y)) => (*x).same_view(&(*y)), (None, None) => true, _ => false })
            && (self.width == other.width)
            && (self.height == other.height)
            && (self.duration_ms == other.duration_ms)
            && (self.output_size == other.output_size)
            && (self.encoding_time == other.encoding_time)
            && (self.crf == other.crf)
            && (self.vmaf == other.vmaf)
            && (self.target == other.target)
            && (self.requested_target == other.requested_target)
            && (self.floor_target == other.floor_target)
            && (self.decided_at == other.decided_at)
    }
}

/// The imported record a content adopted, with the path it was parked under.
#[derive(Clone, Debug, PartialEq, Eq)]
pub struct ImportedProvenance {
    pub import_path: ImportPath,
    pub record: ParkedRecord,
}

/// The mathematical value of a [`ImportedProvenance`].
pub struct ImportedProvenanceView {
    pub import_path: ImportPathView,
    pub record: ParkedRecordView,
}

impl View for ImportedProvenance {
    type V = ImportedProvenanceView;

    open spec fn view(&self) -> ImportedProvenanceView {
        ImportedProvenanceView {
            import_path: self.import_path@,
            record: self.record@,
        }
    }
}

impl Duplicate for ImportedProvenance {
    fn duplicate(&self) -> (copy: Self) {
        ImportedProvenance {
            import_path: self.import_path.duplicate(),
            record: self.record.duplicate(),
        }
    }
}

impl SameView for ImportedProvenance {
    fn same_view(&self, other: &Self) -> (same: bool) {
        (self.import_path.same_view(&other.import_path))
            && (self.record.same_view(&other.record))
    }
}

/// Everything known about one content.
#[derive(Clone, Debug, PartialEq, Eq)]
pub struct FileRecord {
    pub metadata: VideoMeta,
    /// Recorded searches; at most one per (profile, successful target).
    pub analyses: Vec<AnalysisResult>,
    pub verdict: Option<Verdict>,
    pub imported: Option<ImportedProvenance>,
}

/// The mathematical value of a [`FileRecord`].
pub struct FileRecordView {
    pub metadata: VideoMetaView,
    pub analyses: Seq<AnalysisResultView>,
    pub verdict: Option<VerdictView>,
    pub imported: Option<ImportedProvenanceView>,
}

impl View for FileRecord {
    type V = FileRecordView;

    open spec fn view(&self) -> FileRecordView {
        FileRecordView {
            metadata: self.metadata@,
            analyses: self.analyses@.map_values(|x: AnalysisResult| x@),
            verdict: match self.verdict { Some(x) => Some(x@), None => None },
            imported: match self.imported { Some(x) => Some(x@), None => None },
        }
    }
}

impl Duplicate for FileRecord {
    fn duplicate(&self) -> (copy: Self) {
        FileRecord {
            metadata: self.metadata.duplicate(),
            analyses: duplicate_vec(&self.analyses),
            verdict: match &self.verdict { Some(x) => Some(x.duplicate()), None => None },
            imported: match &self.imported { Some(x) => Some(x.duplicate()), None => None },
        }
    }
}

impl SameView for FileRecord {
    fn same_view(&self, other: &Self) -> (same: bool) {
        (self.metadata.same_view(&other.metadata))
            && (same_view_vec(&self.analyses, &other.analyses))
            && (match (&self.verdict, &other.verdict) { (Some(x), Some(y)) => (*x).same_view(&(*y)), (None, None) => true, _ => false })
            && (match (&self.imported, &other.imported) { (Some(x), Some(y)) => (*x).same_view(&(*y)), (None, None) => true, _ => false })
    }
}

} // verus!
