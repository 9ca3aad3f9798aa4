//! Domain types and their mathematical views.
#![allow(unused_imports)]

use vstd::prelude::*;

use crate::model::{Duplicate, SameView, Plain, duplicate_vec, same_view_vec};
use crate::{AudioCodec, AudioCodecView, ContentKey, ContentKeyView, Crf, FailureKind, ImportPath, ImportPathView, MediaContainer, MediaContainerView, RunId, UnixMillis, VideoCodec, VideoCodecView, VmafScore, VmafTarget};

verus! {

/// What the current verdict says happened to a content.
#[derive(Clone, Copy, Debug, PartialEq, Eq, Structural)]
pub enum StatFactKind {
    Converted,
    Remuxed,
    NotWorthwhile { requested: VmafTarget, floor: VmafTarget },
}

impl View for StatFactKind {
    type V = StatFactKind;

    open spec fn view(&self) -> StatFactKind {
        *self
    }
}

impl Duplicate for StatFactKind {
    fn duplicate(&self) -> (copy: Self) {
        *self
    }
}

impl SameView for StatFactKind {
    fn same_view(&self, other: &Self) -> (same: bool) {
        *self == *other
    }
}

impl Plain for StatFactKind {
    proof fn lemma_view_is_self(&self) {
    }
}

/// One flattened fact per content with a standing verdict.
#[derive(Clone, Debug, PartialEq, Eq)]
pub struct StatFact {
    pub content_key: ContentKey,
    pub kind: StatFactKind,
    pub source_run: Option<RunId>,
    pub finished_at: UnixMillis,
    pub codec: VideoCodec,
    pub width: u32,
    pub height: u32,
    pub duration_ms: u64,
    pub input_size_bytes: Option<u64>,
    pub output_size_bytes: Option<u64>,
    pub analyzing_ms: u64,
    pub encoding_ms: u64,
    pub vmaf: Option<VmafScore>,
    pub crf: Option<Crf>,
}

/// The mathematical value of a [`StatFact`].
pub struct StatFactView {
    pub content_key: ContentKeyView,
    pub kind: StatFactKind,
    pub source_run: Option<RunId>,
    pub finished_at: UnixMillis,
    pub codec: VideoCodecView,
    pub width: u32,
    pub height: u32,
    pub duration_ms: u64,
    pub input_size_bytes: Option<u64>,
    pub output_size_bytes: Option<u64>,
    pub analyzing_ms: u64,
    pub encoding_ms: u64,
    pub vmaf: Option<VmafScore>,
    pub crf: Option<Crf>,
}

impl View for StatFact {
    type V = StatFactView;

    open spec fn view(&self) -> StatFactView {
        StatFactView {
            content_key: self.content_key@,
            kind: self.kind,
            source_run: self.source_run,
            finished_at: self.finished_at,
            codec: self.codec@,
            width: self.width,
            height: self.height,
            duration_ms: self.duration_ms,
            input_size_bytes: self.input_size_bytes,
            output_size_bytes: self.output_size_bytes,
            analyzing_ms: self.analyzing_ms,
            encoding_ms: self.encoding_ms,
            vmaf: self.vmaf,
            crf: self.crf,
        }
    }
}

impl Duplicate for StatFact {
    fn duplicate(&self) -> (copy: Self) {
        StatFact {
            content_key: self.content_key.duplicate(),
            kind: self.kind,
            source_run: self.source_run,
            finished_at: self.finished_at,
            codec: self.codec.duplicate(),
            width: self.width,
            height: self.height,
            duration_ms: self.duration_ms,
            input_size_bytes: self.input_size_bytes,
            output_size_bytes: self.output_size_bytes,
            analyzing_ms: self.analyzing_ms,
            encoding_ms: self.encoding_ms,
            vmaf: self.vmaf,
            crf: self.crf,
        }
    }
}

impl SameView for StatFact {
    fn same_view(&self, other: &Self) -> (same: bool) {
        (self.content_key.same_view(&other.content_key))
            && (self.kind == other.kind)
            && (self.source_run == other.source_run)
            && (self.finished_at == other.finished_at)
            && (self.codec.same_view(&other.codec))
            && (self.width == other.width)
            && (self.height == other.height)
            && (self.duration_ms == other.duration_ms)
            && (self.input_size_bytes == other.input_size_bytes)
            && (self.output_size_bytes == other.output_size_bytes)
            && (self.analyzing_ms == other.analyzing_ms)
            && (self.encoding_ms == other.encoding_ms)
            && (self.vmaf == other.vmaf)
            && (self.crf == other.crf)
    }
}

/// The current standing of one content in History terms.
#[derive(Clone, Debug, PartialEq, Eq)]
pub enum HistoryStatus {
    Converted,
    Remuxed,
    NotWorthwhile { requested: VmafTarget, floor: VmafTarget },
    Analyzed,
    Failed { kind: FailureKind, message: String },
    Stopped,
}

/// The mathematical value of a [`HistoryStatus`].
pub enum HistoryStatusView {
    Converted,
    Remuxed,
    NotWorthwhile { requested: VmafTarget, floor: VmafTarget },
    Analyzed,
    Failed { kind: FailureKind, message: Seq<char> },
    Stopped,
}

impl View for HistoryStatus {
    type V = HistoryStatusView;

    open spec fn view(&self) -> HistoryStatusView {
        match self {
            HistoryStatus::Converted => HistoryStatusView::Converted,
            HistoryStatus::Remuxed => HistoryStatusView::Remuxed,
            HistoryStatus::NotWorthwhile { requested, floor } => HistoryStatusView::NotWorthwhile { requested: *requested, floor: *floor },
            HistoryStatus::Analyzed => HistoryStatusView::Analyzed,
            HistoryStatus::Failed { kind, message } => HistoryStatusView::Failed { kind: *kind, message: message@ },
            HistoryStatus::Stopped => HistoryStatusView::Stopped,
        }
    }
}

impl Duplicate for HistoryStatus {
    fn duplicate(&self) -> (copy: Self) {
        match self {
            HistoryStatus::Converted => HistoryStatus::Converted,
            HistoryStatus::Remuxed => HistoryStatus::Remuxed,
            HistoryStatus::NotWorthwhile { requested, floor } => HistoryStatus::NotWorthwhile { requested: *requested, floor: *floor },
            HistoryStatus::Analyzed => HistoryStatus::Analyzed,
            HistoryStatus::Failed { kind, message } => HistoryStatus::Failed { kind: *kind, message: (*message).clone() },
            HistoryStatus::Stopped => HistoryStatus::Stopped,
        }
    }
}

impl SameView for HistoryStatus {
    fn same_view(&self, other: &Self) -> (same: bool) {
        match (self, other) {
            (HistoryStatus::Converted, HistoryStatus::Converted) => true,
            (HistoryStatus::Remuxed, HistoryStatus::Remuxed) => true,
            (HistoryStatus::NotWorthwhile { requested: a_requested, floor: a_floor }, HistoryStatus::NotWorthwhile { requested: b_requested, floor: b_floor }) => (*a_requested == *b_requested) && (*a_floor == *b_floor),
            (HistoryStatus::Analyzed, HistoryStatus::Analyzed) => true,
            (HistoryStatus::Failed { kind: a_kind, message: a_message }, HistoryStatus::Failed { kind: b_kind, message: b_message }) => (*a_kind == *b_kind) && ((*a_message).same_view(&(*b_message))),
            (HistoryStatus::Stopped, HistoryStatus::Stopped) => true,
            _ => false,
        }
    }
}

/// Stable identity of a History row.
#[derive(Clone, Debug, PartialEq, Eq)]
pub enum HistoryRowKey {
    Content(ContentKey),
    Parked(ImportPath),
}

/// The mathematical value of a [`HistoryRowKey`].
pub enum HistoryRowKeyView {
    Content(ContentKeyView),
    Parked(ImportPathView),
}

impl View for HistoryRowKey {
    type V = HistoryRowKeyView;

    open spec fn view(&self) -> HistoryRowKeyView {
        match self {
            HistoryRowKey::Content(f0) => HistoryRowKeyView::Content(f0@),
            HistoryRowKey::Parked(f0) => HistoryRowKeyView::Parked(f0@),
        }
    }
}

impl Duplicate for HistoryRowKey {
    fn duplicate(&self) -> (copy: Self) {
        match self {
            HistoryRowKey::Content(f0) => HistoryRowKey::Content((*f0).duplicate()),
            HistoryRowKey::Parked(f0) => HistoryRowKey::Parked((*f0).duplicate()),
        }
    }
}

impl SameView for HistoryRowKey {
    fn same_view(&self, other: &Self) -> (same: bool) {
        match (self, other) {
            (HistoryRowKey::Content(a0), HistoryRowKey::Content(b0)) => ((*a0).same_view(&(*b0))),
            (HistoryRowKey::Parked(a0), HistoryRowKey::Parked(b0)) => ((*a0).same_view(&(*b0))),
            _ => false,
        }
    }
}

/// One History row per reported content or parked import.
#[derive(Clone, Debug, PartialEq, Eq)]
pub struct HistoryRow {
    pub key: HistoryRowKey,
    pub status: HistoryStatus,
    pub source_run: Option<RunId>,
    pub happened_at: Option<UnixMillis>,
    pub codec: Option<VideoCodec>,
    pub container: Option<MediaContainer>,
    pub width: Option<u32>,
    pub height: Option<u32>,
    pub duration_ms: Option<u64>,
    pub audio: Option<Vec<AudioCodec>>,
    pub input_size_bytes: Option<u64>,
    pub output_size_bytes: Option<u64>,
    pub encoding_time_ms: Option<u64>,
    pub vmaf: Option<VmafScore>,
    pub crf: Option<Crf>,
}

/// The mathematical value of a [`HistoryRow`].
pub struct HistoryRowView {
    pub key: HistoryRowKeyView,
    pub status: HistoryStatusView,
    pub source_run: Option<RunId>,
    pub happened_at: Option<UnixMillis>,
    pub codec: Option<VideoCodecView>,
    pub container: Option<MediaContainerView>,
    pub width: Option<u32>,
    pub height: Option<u32>,
    pub duration_ms: Option<u64>,
    pub audio: Option<Seq<AudioCodecView>>,
    pub input_size_bytes: Option<u64>,
    pub output_size_bytes: Option<u64>,
    pub encoding_time_ms: Option<u64>,
    pub vmaf: Option<VmafScore>,
    pub crf: Option<Crf>,
}

impl View for HistoryRow {
    type V = HistoryRowView;

    open spec fn view(&self) -> HistoryRowView {
        HistoryRowView {
            key: self.key@,
            status: self.status@,
            source_run: self.source_run,
            happened_at: self.happened_at,
            codec: match self.codec { Some(x) => Some(x@), None => None },
            container: match self.container { Some(x) => Some(x@), None => None },
            width: self.width,
            height: self.height,
            duration_ms: self.duration_ms,
            audio: match self.audio { Some(x) => Some(x@.map_values(|x: AudioCodec| x@)), None => None },
            input_size_bytes: self.input_size_bytes,
            output_size_bytes: self.output_size_bytes,
            encoding_time_ms: self.encoding_time_ms,
            vmaf: self.vmaf,
            crf: self.crf,
        }
    }
}

impl Duplicate for HistoryRow {
    fn duplicate(&self) -> (copy: Self) {
        HistoryRow {
            key: self.key.duplicate(),
            status: self.status.duplicate(),
            source_run: self.source_run,
            happened_at: self.happened_at,
            codec: match &self.codec { Some(x) => Some(x.duplicate()), None => None },
            container: match &self.container { Some(x) => Some(x.duplicate()), None => None },
            width: self.width,
            height: self.height,
            duration_ms: self.duration_ms,
            audio: match &self.audio { Some(x) => Some(duplicate_vec(&x)), None => None },
            input_size_bytes: self.input_size_bytes,
            output_size_bytes: self.output_size_bytes,
            encoding_time_ms: self.encoding_time_ms,
            vmaf: self.vmaf,
            crf: self.crf,
        }
    }
}

impl SameView for HistoryRow {
    fn same_view(&self, other: &Self) -> (same: bool) {
        (self.key.same_view(&other.key))
            && (self.status.same_view(&other.status))
            && (self.source_run == other.source_run)
            && (self.happened_at == other.happened_at)
            && (match (&self.codec, &other.codec) { (Some(x), Some(y)) => (*x).same_view(&(*y)), (None, None) => true, _ => false })
            && (match (&self.container, &other.container) { (Some(x), Some(y)) => (*x).same_view(&(*y)), (None, None) => true, _ => false })
            && (self.width == other.width)
            && (self.height == other.height)
            && (self.duration_ms == other.duration_ms)
            && (match (&self.audio, &other.audio) { (Some(x), Some(y)) => same_view_vec(&(*x), &(*y)), (None, None) => true, _ => false })
            && (self.input_size_bytes == other.input_size_bytes)
            && (self.output_size_bytes == other.output_size_bytes)
            && (self.encoding_time_ms == other.encoding_time_ms)
            && (self.vmaf == other.vmaf)
            && (self.crf == other.crf)
    }
}

/// Terminal run outcomes counted across every run.
#[derive(Clone, Copy, Debug, PartialEq, Eq, Structural)]
pub struct RunTotals {
    pub analyzed: u32,
    pub converted: u32,
    pub remuxed: u32,
    pub not_worthwhile: u32,
    pub stopped: u32,
    pub skipped: u32,
    pub failed: u32,
}

impl View for RunTotals {
    type V = RunTotals;

    open spec fn view(&self) -> RunTotals {
        *self
    }
}

impl Duplicate for RunTotals {
    fn duplicate(&self) -> (copy: Self) {
        *self
    }
}

impl SameView for RunTotals {
    fn same_view(&self, other: &Self) -> (same: bool) {
        *self == *other
    }
}

impl Plain for RunTotals {
    proof fn lemma_view_is_self(&self) {
    }
}

} // verus!
