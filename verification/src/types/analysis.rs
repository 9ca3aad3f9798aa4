//! Domain types and their mathematical views.
#![allow(unused_imports)]

use vstd::prelude::*;

use crate::model::{Duplicate, SameView, Plain, duplicate_vec, same_view_vec};
use crate::{AnalysisGenerationId, AnalysisRowId, AnalysisRowStatus, ContentKey, ContentKeyView, DestructiveIdentity, VideoMeta, VideoMetaView};

verus! {

/// The complete public identity of an Analysis row.
#[derive(Clone, Copy, Debug, PartialEq, Eq, Structural)]
pub struct AnalysisRowRef {
    pub generation: AnalysisGenerationId,
    pub row_id: AnalysisRowId,
}

impl View for AnalysisRowRef {
    type V = AnalysisRowRef;

    open spec fn view(&self) -> AnalysisRowRef {
        *self
    }
}

impl Duplicate for AnalysisRowRef {
    fn duplicate(&self) -> (copy: Self) {
        *self
    }
}

impl SameView for AnalysisRowRef {
    fn same_view(&self, other: &Self) -> (same: bool) {
        *self == *other
    }
}

impl Plain for AnalysisRowRef {
    proof fn lemma_view_is_self(&self) {
    }
}

/// Presentation text derived from a native path; `lossy` marks a
/// replacement-character rendering.
#[derive(Clone, Debug, PartialEq, Eq)]
pub struct AnalysisDisplayText {
    pub text: String,
    pub lossy: bool,
}

/// The mathematical value of a [`AnalysisDisplayText`].
pub struct AnalysisDisplayTextView {
    pub text: Seq<char>,
    pub lossy: bool,
}

impl View for AnalysisDisplayText {
    type V = AnalysisDisplayTextView;

    open spec fn view(&self) -> AnalysisDisplayTextView {
        AnalysisDisplayTextView {
            text: self.text@,
            lossy: self.lossy,
        }
    }
}

impl Duplicate for AnalysisDisplayText {
    fn duplicate(&self) -> (copy: Self) {
        AnalysisDisplayText {
            text: self.text.clone(),
            lossy: self.lossy,
        }
    }
}

impl SameView for AnalysisDisplayText {
    fn same_view(&self, other: &Self) -> (same: bool) {
        (self.text.same_view(&other.text))
            && (self.lossy == other.lossy)
    }
}

/// A directory-local discovery failure.
#[derive(Clone, Debug, PartialEq, Eq)]
pub enum AnalysisDirectoryFailure {
    Missing,
    PermissionDenied,
    NotDirectory,
    TraversalRefused,
    EntriesUnavailable { count: u32, detail: String },
    Unavailable { detail: String },
}

/// The mathematical value of a [`AnalysisDirectoryFailure`].
pub enum AnalysisDirectoryFailureView {
    Missing,
    PermissionDenied,
    NotDirectory,
    TraversalRefused,
    EntriesUnavailable { count: u32, detail: Seq<char> },
    Unavailable { detail: Seq<char> },
}

impl View for AnalysisDirectoryFailure {
    type V = AnalysisDirectoryFailureView;

    open spec fn view(&self) -> AnalysisDirectoryFailureView {
        match self {
            AnalysisDirectoryFailure::Missing => AnalysisDirectoryFailureView::Missing,
            AnalysisDirectoryFailure::PermissionDenied => AnalysisDirectoryFailureView::PermissionDenied,
            AnalysisDirectoryFailure::NotDirectory => AnalysisDirectoryFailureView::NotDirectory,
            AnalysisDirectoryFailure::TraversalRefused => AnalysisDirectoryFailureView::TraversalRefused,
            AnalysisDirectoryFailure::EntriesUnavailable { count, detail } => AnalysisDirectoryFailureView::EntriesUnavailable { count: *count, detail: detail@ },
            AnalysisDirectoryFailure::Unavailable { detail } => AnalysisDirectoryFailureView::Unavailable { detail: detail@ },
        }
    }
}

impl Duplicate for AnalysisDirectoryFailure {
    fn duplicate(&self) -> (copy: Self) {
        match self {
            AnalysisDirectoryFailure::Missing => AnalysisDirectoryFailure::Missing,
            AnalysisDirectoryFailure::PermissionDenied => AnalysisDirectoryFailure::PermissionDenied,
            AnalysisDirectoryFailure::NotDirectory => AnalysisDirectoryFailure::NotDirectory,
            AnalysisDirectoryFailure::TraversalRefused => AnalysisDirectoryFailure::TraversalRefused,
            AnalysisDirectoryFailure::EntriesUnavailable { count, detail } => AnalysisDirectoryFailure::EntriesUnavailable { count: *count, detail: (*detail).clone() },
            AnalysisDirectoryFailure::Unavailable { detail } => AnalysisDirectoryFailure::Unavailable { detail: (*detail).clone() },
        }
    }
}

impl SameView for AnalysisDirectoryFailure {
    fn same_view(&self, other: &Self) -> (same: bool) {
        match (self, other) {
            (AnalysisDirectoryFailure::Missing, AnalysisDirectoryFailure::Missing) => true,
            (AnalysisDirectoryFailure::PermissionDenied, AnalysisDirectoryFailure::PermissionDenied) => true,
            (AnalysisDirectoryFailure::NotDirectory, AnalysisDirectoryFailure::NotDirectory) => true,
            (AnalysisDirectoryFailure::TraversalRefused, AnalysisDirectoryFailure::TraversalRefused) => true,
            (AnalysisDirectoryFailure::EntriesUnavailable { count: a_count, detail: a_detail }, AnalysisDirectoryFailure::EntriesUnavailable { count: b_count, detail: b_detail }) => (*a_count == *b_count) && ((*a_detail).same_view(&(*b_detail))),
            (AnalysisDirectoryFailure::Unavailable { detail: a_detail }, AnalysisDirectoryFailure::Unavailable { detail: b_detail }) => ((*a_detail).same_view(&(*b_detail))),
            _ => false,
        }
    }
}

/// Bounded, path-scrubbed diagnostic output from one probe invocation.
#[derive(Clone, Debug, PartialEq, Eq)]
pub struct AnalysisDiagnosticTail {
    pub text: String,
    pub truncated: bool,
}

/// The mathematical value of a [`AnalysisDiagnosticTail`].
pub struct AnalysisDiagnosticTailView {
    pub text: Seq<char>,
    pub truncated: bool,
}

impl View for AnalysisDiagnosticTail {
    type V = AnalysisDiagnosticTailView;

    open spec fn view(&self) -> AnalysisDiagnosticTailView {
        AnalysisDiagnosticTailView {
            text: self.text@,
            truncated: self.truncated,
        }
    }
}

impl Duplicate for AnalysisDiagnosticTail {
    fn duplicate(&self) -> (copy: Self) {
        AnalysisDiagnosticTail {
            text: self.text.clone(),
            truncated: self.truncated,
        }
    }
}

impl SameView for AnalysisDiagnosticTail {
    fn same_view(&self, other: &Self) -> (same: bool) {
        (self.text.same_view(&other.text))
            && (self.truncated == other.truncated)
    }
}

/// A file-local Basic Scan failure.
#[derive(Clone, Debug, PartialEq, Eq)]
pub enum AnalysisScanFailure {
    Missing,
    Unavailable { detail: String },
    TimedOut { diagnostic: AnalysisDiagnosticTail },
    Rejected { diagnostic: AnalysisDiagnosticTail },
    InvalidOutput { detail: String, diagnostic: AnalysisDiagnosticTail },
    Supervision { detail: String, diagnostic: AnalysisDiagnosticTail },
    ChangedAfterProbe,
    ChangedDuringSampling,
}

/// The mathematical value of a [`AnalysisScanFailure`].
pub enum AnalysisScanFailureView {
    Missing,
    Unavailable { detail: Seq<char> },
    TimedOut { diagnostic: AnalysisDiagnosticTailView },
    Rejected { diagnostic: AnalysisDiagnosticTailView },
    InvalidOutput { detail: Seq<char>, diagnostic: AnalysisDiagnosticTailView },
    Supervision { detail: Seq<char>, diagnostic: AnalysisDiagnosticTailView },
    ChangedAfterProbe,
    ChangedDuringSampling,
}

impl View for AnalysisScanFailure {
    type V = AnalysisScanFailureView;

    open spec fn view(&self) -> AnalysisScanFailureView {
        match self {
            AnalysisScanFailure::Missing => AnalysisScanFailureView::Missing,
            AnalysisScanFailure::Unavailable { detail } => AnalysisScanFailureView::Unavailable { detail: detail@ },
            AnalysisScanFailure::TimedOut { diagnostic } => AnalysisScanFailureView::TimedOut { diagnostic: diagnostic@ },
            AnalysisScanFailure::Rejected { diagnostic } => AnalysisScanFailureView::Rejected { diagnostic: diagnostic@ },
            AnalysisScanFailure::InvalidOutput { detail, diagnostic } => AnalysisScanFailureView::InvalidOutput { detail: detail@, diagnostic: diagnostic@ },
            AnalysisScanFailure::Supervision { detail, diagnostic } => AnalysisScanFailureView::Supervision { detail: detail@, diagnostic: diagnostic@ },
            AnalysisScanFailure::ChangedAfterProbe => AnalysisScanFailureView::ChangedAfterProbe,
            AnalysisScanFailure::ChangedDuringSampling => AnalysisScanFailureView::ChangedDuringSampling,
        }
    }
}

impl Duplicate for AnalysisScanFailure {
    fn duplicate(&self) -> (copy: Self) {
        match self {
            AnalysisScanFailure::Missing => AnalysisScanFailure::Missing,
            AnalysisScanFailure::Unavailable { detail } => AnalysisScanFailure::Unavailable { detail: (*detail).clone() },
            AnalysisScanFailure::TimedOut { diagnostic } => AnalysisScanFailure::TimedOut { diagnostic: (*diagnostic).duplicate() },
            AnalysisScanFailure::Rejected { diagnostic } => AnalysisScanFailure::Rejected { diagnostic: (*diagnostic).duplicate() },
            AnalysisScanFailure::InvalidOutput { detail, diagnostic } => AnalysisScanFailure::InvalidOutput { detail: (*detail).clone(), diagnostic: (*diagnostic).duplicate() },
            AnalysisScanFailure::Supervision { detail, diagnostic } => AnalysisScanFailure::Supervision { detail: (*detail).clone(), diagnostic: (*diagnostic).duplicate() },
            AnalysisScanFailure::ChangedAfterProbe => AnalysisScanFailure::ChangedAfterProbe,
            AnalysisScanFailure::ChangedDuringSampling => AnalysisScanFailure::ChangedDuringSampling,
        }
    }
}

impl SameView for AnalysisScanFailure {
    fn same_view(&self, other: &Self) -> (same: bool) {
        match (self, other) {
            (AnalysisScanFailure::Missing, AnalysisScanFailure::Missing) => true,
            (AnalysisScanFailure::Unavailable { detail: a_detail }, AnalysisScanFailure::Unavailable { detail: b_detail }) => ((*a_detail).same_view(&(*b_detail))),
            (AnalysisScanFailure::TimedOut { diagnostic: a_diagnostic }, AnalysisScanFailure::TimedOut { diagnostic: b_diagnostic }) => ((*a_diagnostic).same_view(&(*b_diagnostic))),
            (AnalysisScanFailure::Rejected { diagnostic: a_diagnostic }, AnalysisScanFailure::Rejected { diagnostic: b_diagnostic }) => ((*a_diagnostic).same_view(&(*b_diagnostic))),
            (AnalysisScanFailure::InvalidOutput { detail: a_detail, diagnostic: a_diagnostic }, AnalysisScanFailure::InvalidOutput { detail: b_detail, diagnostic: b_diagnostic }) => ((*a_detail).same_view(&(*b_detail))) && ((*a_diagnostic).same_view(&(*b_diagnostic))),
            (AnalysisScanFailure::Supervision { detail: a_detail, diagnostic: a_diagnostic }, AnalysisScanFailure::Supervision { detail: b_detail, diagnostic: b_diagnostic }) => ((*a_detail).same_view(&(*b_detail))) && ((*a_diagnostic).same_view(&(*b_diagnostic))),
            (AnalysisScanFailure::ChangedAfterProbe, AnalysisScanFailure::ChangedAfterProbe) => true,
            (AnalysisScanFailure::ChangedDuringSampling, AnalysisScanFailure::ChangedDuringSampling) => true,
            _ => false,
        }
    }
}

/// Standing Basic Scan result for a discovered file.
#[derive(Clone, Debug, PartialEq, Eq)]
pub enum AnalysisFileScan {
    Discovered,
    Scanned { content_key: ContentKey, metadata: VideoMeta, refresh_failure: Option<Box<AnalysisScanFailure>>, status: Box<AnalysisRowStatus> },
    SettledOutput { source_content_key: ContentKey, output_content_key: ContentKey, metadata: Option<VideoMeta>, refresh_failure: Option<Box<AnalysisScanFailure>>, status: Box<AnalysisRowStatus> },
    Failed { failure: AnalysisScanFailure },
}

/// The mathematical value of a [`AnalysisFileScan`].
pub enum AnalysisFileScanView {
    Discovered,
    Scanned { content_key: ContentKeyView, metadata: VideoMetaView, refresh_failure: Option<AnalysisScanFailureView>, status: AnalysisRowStatus },
    SettledOutput { source_content_key: ContentKeyView, output_content_key: ContentKeyView, metadata: Option<VideoMetaView>, refresh_failure: Option<AnalysisScanFailureView>, status: AnalysisRowStatus },
    Failed { failure: AnalysisScanFailureView },
}

impl View for AnalysisFileScan {
    type V = AnalysisFileScanView;

    open spec fn view(&self) -> AnalysisFileScanView {
        match self {
            AnalysisFileScan::Discovered => AnalysisFileScanView::Discovered,
            AnalysisFileScan::Scanned { content_key, metadata, refresh_failure, status } => AnalysisFileScanView::Scanned { content_key: content_key@, metadata: metadata@, refresh_failure: match refresh_failure { Some(x) => Some((*x)@), None => None }, status: status@ },
            AnalysisFileScan::SettledOutput { source_content_key, output_content_key, metadata, refresh_failure, status } => AnalysisFileScanView::SettledOutput { source_content_key: source_content_key@, output_content_key: output_content_key@, metadata: match metadata { Some(x) => Some(x@), None => None }, refresh_failure: match refresh_failure { Some(x) => Some((*x)@), None => None }, status: status@ },
            AnalysisFileScan::Failed { failure } => AnalysisFileScanView::Failed { failure: failure@ },
        }
    }
}

impl Duplicate for AnalysisFileScan {
    fn duplicate(&self) -> (copy: Self) {
        match self {
            AnalysisFileScan::Discovered => AnalysisFileScan::Discovered,
            AnalysisFileScan::Scanned { content_key, metadata, refresh_failure, status } => AnalysisFileScan::Scanned { content_key: (*content_key).duplicate(), metadata: (*metadata).duplicate(), refresh_failure: match &(*refresh_failure) { Some(x) => Some(Box::new((*x).duplicate())), None => None }, status: Box::new((*(*status)).duplicate()) },
            AnalysisFileScan::SettledOutput { source_content_key, output_content_key, metadata, refresh_failure, status } => AnalysisFileScan::SettledOutput { source_content_key: (*source_content_key).duplicate(), output_content_key: (*output_content_key).duplicate(), metadata: match &(*metadata) { Some(x) => Some(x.duplicate()), None => None }, refresh_failure: match &(*refresh_failure) { Some(x) => Some(Box::new((*x).duplicate())), None => None }, status: Box::new((*(*status)).duplicate()) },
            AnalysisFileScan::Failed { failure } => AnalysisFileScan::Failed { failure: (*failure).duplicate() },
        }
    }
}

impl SameView for AnalysisFileScan {
    fn same_view(&self, other: &Self) -> (same: bool) {
        match (self, other) {
            (AnalysisFileScan::Discovered, AnalysisFileScan::Discovered) => true,
            (AnalysisFileScan::Scanned { content_key: a_content_key, metadata: a_metadata, refresh_failure: a_refresh_failure, status: a_status }, AnalysisFileScan::Scanned { content_key: b_content_key, metadata: b_metadata, refresh_failure: b_refresh_failure, status: b_status }) => ((*a_content_key).same_view(&(*b_content_key))) && ((*a_metadata).same_view(&(*b_metadata))) && (match (&(*a_refresh_failure), &(*b_refresh_failure)) { (Some(x), Some(y)) => (*(*x)).same_view(&*(*y)), (None, None) => true, _ => false }) && ((*(*a_status)).same_view(&*(*b_status))),
            (AnalysisFileScan::SettledOutput { source_content_key: a_source_content_key, output_content_key: a_output_content_key, metadata: a_metadata, refresh_failure: a_refresh_failure, status: a_status }, AnalysisFileScan::SettledOutput { source_content_key: b_source_content_key, output_content_key: b_output_content_key, metadata: b_metadata, refresh_failure: b_refresh_failure, status: b_status }) => ((*a_source_content_key).same_view(&(*b_source_content_key))) && ((*a_output_content_key).same_view(&(*b_output_content_key))) && (match (&(*a_metadata), &(*b_metadata)) { (Some(x), Some(y)) => (*x).same_view(&(*y)), (None, None) => true, _ => false }) && (match (&(*a_refresh_failure), &(*b_refresh_failure)) { (Some(x), Some(y)) => (*(*x)).same_view(&*(*y)), (None, None) => true, _ => false }) && ((*(*a_status)).same_view(&*(*b_status))),
            (AnalysisFileScan::Failed { failure: a_failure }, AnalysisFileScan::Failed { failure: b_failure }) => ((*a_failure).same_view(&(*b_failure))),
            _ => false,
        }
    }
}

/// Folder or file state of a row.
#[derive(Clone, Debug, PartialEq, Eq)]
pub enum AnalysisRowEntry {
    Folder { failure: Option<AnalysisDirectoryFailure> },
    File { scan: AnalysisFileScan },
}

/// The mathematical value of a [`AnalysisRowEntry`].
pub enum AnalysisRowEntryView {
    Folder { failure: Option<AnalysisDirectoryFailureView> },
    File { scan: AnalysisFileScanView },
}

impl View for AnalysisRowEntry {
    type V = AnalysisRowEntryView;

    open spec fn view(&self) -> AnalysisRowEntryView {
        match self {
            AnalysisRowEntry::Folder { failure } => AnalysisRowEntryView::Folder { failure: match failure { Some(x) => Some(x@), None => None } },
            AnalysisRowEntry::File { scan } => AnalysisRowEntryView::File { scan: scan@ },
        }
    }
}

impl Duplicate for AnalysisRowEntry {
    fn duplicate(&self) -> (copy: Self) {
        match self {
            AnalysisRowEntry::Folder { failure } => AnalysisRowEntry::Folder { failure: match &(*failure) { Some(x) => Some(x.duplicate()), None => None } },
            AnalysisRowEntry::File { scan } => AnalysisRowEntry::File { scan: (*scan).duplicate() },
        }
    }
}

impl SameView for AnalysisRowEntry {
    fn same_view(&self, other: &Self) -> (same: bool) {
        match (self, other) {
            (AnalysisRowEntry::Folder { failure: a_failure }, AnalysisRowEntry::Folder { failure: b_failure }) => (match (&(*a_failure), &(*b_failure)) { (Some(x), Some(y)) => (*x).same_view(&(*y)), (None, None) => true, _ => false }),
            (AnalysisRowEntry::File { scan: a_scan }, AnalysisRowEntry::File { scan: b_scan }) => ((*a_scan).same_view(&(*b_scan))),
            _ => false,
        }
    }
}

/// Generation-scoped row facts.
#[derive(Clone, Debug, PartialEq, Eq)]
pub struct AnalysisRow {
    pub id: AnalysisRowId,
    pub parent: Option<AnalysisRowId>,
    pub entry: AnalysisRowEntry,
    pub display_name: AnalysisDisplayText,
    pub display_path: AnalysisDisplayText,
}

/// The mathematical value of a [`AnalysisRow`].
pub struct AnalysisRowView {
    pub id: AnalysisRowId,
    pub parent: Option<AnalysisRowId>,
    pub entry: AnalysisRowEntryView,
    pub display_name: AnalysisDisplayTextView,
    pub display_path: AnalysisDisplayTextView,
}

impl View for AnalysisRow {
    type V = AnalysisRowView;

    open spec fn view(&self) -> AnalysisRowView {
        AnalysisRowView {
            id: self.id,
            parent: self.parent,
            entry: self.entry@,
            display_name: self.display_name@,
            display_path: self.display_path@,
        }
    }
}

impl Duplicate for AnalysisRow {
    fn duplicate(&self) -> (copy: Self) {
        AnalysisRow {
            id: self.id,
            parent: self.parent,
            entry: self.entry.duplicate(),
            display_name: self.display_name.duplicate(),
            display_path: self.display_path.duplicate(),
        }
    }
}

impl SameView for AnalysisRow {
    fn same_view(&self, other: &Self) -> (same: bool) {
        (self.id == other.id)
            && (self.parent == other.parent)
            && (self.entry.same_view(&other.entry))
            && (self.display_name.same_view(&other.display_name))
            && (self.display_path.same_view(&other.display_path))
    }
}

/// What a generation is doing.
#[derive(Clone, Debug, PartialEq, Eq)]
pub enum AnalysisActivity {
    Discovering,
    Discovered,
    BasicScanning,
    Ready,
    Cancelled,
    Failed { detail: String },
}

/// The mathematical value of a [`AnalysisActivity`].
pub enum AnalysisActivityView {
    Discovering,
    Discovered,
    BasicScanning,
    Ready,
    Cancelled,
    Failed { detail: Seq<char> },
}

impl View for AnalysisActivity {
    type V = AnalysisActivityView;

    open spec fn view(&self) -> AnalysisActivityView {
        match self {
            AnalysisActivity::Discovering => AnalysisActivityView::Discovering,
            AnalysisActivity::Discovered => AnalysisActivityView::Discovered,
            AnalysisActivity::BasicScanning => AnalysisActivityView::BasicScanning,
            AnalysisActivity::Ready => AnalysisActivityView::Ready,
            AnalysisActivity::Cancelled => AnalysisActivityView::Cancelled,
            AnalysisActivity::Failed { detail } => AnalysisActivityView::Failed { detail: detail@ },
        }
    }
}

impl Duplicate for AnalysisActivity {
    fn duplicate(&self) -> (copy: Self) {
        match self {
            AnalysisActivity::Discovering => AnalysisActivity::Discovering,
            AnalysisActivity::Discovered => AnalysisActivity::Discovered,
            AnalysisActivity::BasicScanning => AnalysisActivity::BasicScanning,
            AnalysisActivity::Ready => AnalysisActivity::Ready,
            AnalysisActivity::Cancelled => AnalysisActivity::Cancelled,
            AnalysisActivity::Failed { detail } => AnalysisActivity::Failed { detail: (*detail).clone() },
        }
    }
}

impl SameView for AnalysisActivity {
    fn same_view(&self, other: &Self) -> (same: bool) {
        match (self, other) {
            (AnalysisActivity::Discovering, AnalysisActivity::Discovering) => true,
            (AnalysisActivity::Discovered, AnalysisActivity::Discovered) => true,
            (AnalysisActivity::BasicScanning, AnalysisActivity::BasicScanning) => true,
            (AnalysisActivity::Ready, AnalysisActivity::Ready) => true,
            (AnalysisActivity::Cancelled, AnalysisActivity::Cancelled) => true,
            (AnalysisActivity::Failed { detail: a_detail }, AnalysisActivity::Failed { detail: b_detail }) => ((*a_detail).same_view(&(*b_detail))),
            _ => false,
        }
    }
}

/// One generation's standing public state.
#[derive(Clone, Debug, PartialEq, Eq)]
pub struct AnalysisGeneration {
    pub id: AnalysisGenerationId,
    pub roots: Vec<AnalysisDisplayText>,
    pub activity: AnalysisActivity,
    /// Rows in row-id order of first insertion; no row id twice.
    pub rows: Vec<AnalysisRow>,
}

/// The mathematical value of a [`AnalysisGeneration`].
pub struct AnalysisGenerationView {
    pub id: AnalysisGenerationId,
    pub roots: Seq<AnalysisDisplayTextView>,
    pub activity: AnalysisActivityView,
    pub rows: Seq<AnalysisRowView>,
}

impl View for AnalysisGeneration {
    type V = AnalysisGenerationView;

    open spec fn view(&self) -> AnalysisGenerationView {
        AnalysisGenerationView {
            id: self.id,
            roots: self.roots@.map_values(|x: AnalysisDisplayText| x@),
            activity: self.activity@,
            rows: self.rows@.map_values(|x: AnalysisRow| x@),
        }
    }
}

impl Duplicate for AnalysisGeneration {
    fn duplicate(&self) -> (copy: Self) {
        AnalysisGeneration {
            id: self.id,
            roots: duplicate_vec(&self.roots),
            activity: self.activity.duplicate(),
            rows: duplicate_vec(&self.rows),
        }
    }
}

impl SameView for AnalysisGeneration {
    fn same_view(&self, other: &Self) -> (same: bool) {
        (self.id == other.id)
            && (same_view_vec(&self.roots, &other.roots))
            && (self.activity.same_view(&other.activity))
            && (same_view_vec(&self.rows, &other.rows))
    }
}

/// Standing Analysis state.
#[derive(Clone, Debug, PartialEq, Eq)]
pub struct AnalysisSnapshot {
    pub current: Option<AnalysisGeneration>,
}

/// The mathematical value of a [`AnalysisSnapshot`].
pub struct AnalysisSnapshotView {
    pub current: Option<AnalysisGenerationView>,
}

impl View for AnalysisSnapshot {
    type V = AnalysisSnapshotView;

    open spec fn view(&self) -> AnalysisSnapshotView {
        AnalysisSnapshotView {
            current: match self.current { Some(x) => Some(x@), None => None },
        }
    }
}

impl Duplicate for AnalysisSnapshot {
    fn duplicate(&self) -> (copy: Self) {
        AnalysisSnapshot {
            current: match &self.current { Some(x) => Some(x.duplicate()), None => None },
        }
    }
}

impl SameView for AnalysisSnapshot {
    fn same_view(&self, other: &Self) -> (same: bool) {
        (match (&self.current, &other.current) { (Some(x), Some(y)) => (*x).same_view(&(*y)), (None, None) => true, _ => false })
    }
}

/// Bounded live changes plus the complete replacement used at generation
/// start and reconnect.
#[derive(Clone, Debug, PartialEq, Eq)]
pub enum AnalysisDelta {
    Reset { snapshot: Box<AnalysisSnapshot> },
    RowsUpserted { generation: AnalysisGenerationId, rows: Vec<AnalysisRow> },
    ActivityChanged { generation: AnalysisGenerationId, activity: AnalysisActivity },
}

/// The mathematical value of a [`AnalysisDelta`].
pub enum AnalysisDeltaView {
    Reset { snapshot: AnalysisSnapshotView },
    RowsUpserted { generation: AnalysisGenerationId, rows: Seq<AnalysisRowView> },
    ActivityChanged { generation: AnalysisGenerationId, activity: AnalysisActivityView },
}

impl View for AnalysisDelta {
    type V = AnalysisDeltaView;

    open spec fn view(&self) -> AnalysisDeltaView {
        match self {
            AnalysisDelta::Reset { snapshot } => AnalysisDeltaView::Reset { snapshot: snapshot@ },
            AnalysisDelta::RowsUpserted { generation, rows } => AnalysisDeltaView::RowsUpserted { generation: *generation, rows: rows@.map_values(|x: AnalysisRow| x@) },
            AnalysisDelta::ActivityChanged { generation, activity } => AnalysisDeltaView::ActivityChanged { generation: *generation, activity: activity@ },
        }
    }
}

impl Duplicate for AnalysisDelta {
    fn duplicate(&self) -> (copy: Self) {
        match self {
            AnalysisDelta::Reset { snapshot } => AnalysisDelta::Reset { snapshot: Box::new((*(*snapshot)).duplicate()) },
            AnalysisDelta::RowsUpserted { generation, rows } => AnalysisDelta::RowsUpserted { generation: *generation, rows: duplicate_vec(&(*rows)) },
            AnalysisDelta::ActivityChanged { generation, activity } => AnalysisDelta::ActivityChanged { generation: *generation, activity: (*activity).duplicate() },
        }
    }
}

impl SameView for AnalysisDelta {
    fn same_view(&self, other: &Self) -> (same: bool) {
        match (self, other) {
            (AnalysisDelta::Reset { snapshot: a_snapshot }, AnalysisDelta::Reset { snapshot: b_snapshot }) => ((*(*a_snapshot)).same_view(&*(*b_snapshot))),
            (AnalysisDelta::RowsUpserted { generation: a_generation, rows: a_rows }, AnalysisDelta::RowsUpserted { generation: b_generation, rows: b_rows }) => (*a_generation == *b_generation) && (same_view_vec(&(*a_rows), &(*b_rows))),
            (AnalysisDelta::ActivityChanged { generation: a_generation, activity: a_activity }, AnalysisDelta::ActivityChanged { generation: b_generation, activity: b_activity }) => (*a_generation == *b_generation) && ((*a_activity).same_view(&(*b_activity))),
            _ => false,
        }
    }
}

/// Commands that drive the Analysis read model.
#[derive(Clone, Debug, PartialEq, Eq)]
pub enum AnalysisCommand {
    Begin { roots: Vec<AnalysisDisplayText> },
    UpsertRows { generation: AnalysisGenerationId, rows: Vec<AnalysisRow> },
    SetActivity { generation: AnalysisGenerationId, activity: AnalysisActivity },
}

/// The mathematical value of a [`AnalysisCommand`].
pub enum AnalysisCommandView {
    Begin { roots: Seq<AnalysisDisplayTextView> },
    UpsertRows { generation: AnalysisGenerationId, rows: Seq<AnalysisRowView> },
    SetActivity { generation: AnalysisGenerationId, activity: AnalysisActivityView },
}

impl View for AnalysisCommand {
    type V = AnalysisCommandView;

    open spec fn view(&self) -> AnalysisCommandView {
        match self {
            AnalysisCommand::Begin { roots } => AnalysisCommandView::Begin { roots: roots@.map_values(|x: AnalysisDisplayText| x@) },
            AnalysisCommand::UpsertRows { generation, rows } => AnalysisCommandView::UpsertRows { generation: *generation, rows: rows@.map_values(|x: AnalysisRow| x@) },
            AnalysisCommand::SetActivity { generation, activity } => AnalysisCommandView::SetActivity { generation: *generation, activity: activity@ },
        }
    }
}

impl Duplicate for AnalysisCommand {
    fn duplicate(&self) -> (copy: Self) {
        match self {
            AnalysisCommand::Begin { roots } => AnalysisCommand::Begin { roots: duplicate_vec(&(*roots)) },
            AnalysisCommand::UpsertRows { generation, rows } => AnalysisCommand::UpsertRows { generation: *generation, rows: duplicate_vec(&(*rows)) },
            AnalysisCommand::SetActivity { generation, activity } => AnalysisCommand::SetActivity { generation: *generation, activity: (*activity).duplicate() },
        }
    }
}

impl SameView for AnalysisCommand {
    fn same_view(&self, other: &Self) -> (same: bool) {
        match (self, other) {
            (AnalysisCommand::Begin { roots: a_roots }, AnalysisCommand::Begin { roots: b_roots }) => (same_view_vec(&(*a_roots), &(*b_roots))),
            (AnalysisCommand::UpsertRows { generation: a_generation, rows: a_rows }, AnalysisCommand::UpsertRows { generation: b_generation, rows: b_rows }) => (*a_generation == *b_generation) && (same_view_vec(&(*a_rows), &(*b_rows))),
            (AnalysisCommand::SetActivity { generation: a_generation, activity: a_activity }, AnalysisCommand::SetActivity { generation: b_generation, activity: b_activity }) => (*a_generation == *b_generation) && ((*a_activity).same_view(&(*b_activity))),
            _ => false,
        }
    }
}

/// What a Basic Scan does with one file.
#[derive(Clone, Copy, Debug, PartialEq, Eq, Structural)]
pub enum BasicScanDisposition {
    Complete,
    Observe,
    Missing,
    Unavailable,
}

impl View for BasicScanDisposition {
    type V = BasicScanDisposition;

    open spec fn view(&self) -> BasicScanDisposition {
        *self
    }
}

impl Duplicate for BasicScanDisposition {
    fn duplicate(&self) -> (copy: Self) {
        *self
    }
}

impl SameView for BasicScanDisposition {
    fn same_view(&self, other: &Self) -> (same: bool) {
        *self == *other
    }
}

impl Plain for BasicScanDisposition {
    proof fn lemma_view_is_self(&self) {
    }
}

/// Why the reducer refuses an Analysis delta.
#[derive(Clone, Copy, Debug, PartialEq, Eq, Structural)]
pub enum AnalysisMutationError {
    EmptyRoots,
    GenerationExhausted,
    InvalidActivityTransition,
    ResetIsNotNext,
    StaleGeneration,
    UnknownRow,
}

impl View for AnalysisMutationError {
    type V = AnalysisMutationError;

    open spec fn view(&self) -> AnalysisMutationError {
        *self
    }
}

impl Duplicate for AnalysisMutationError {
    fn duplicate(&self) -> (copy: Self) {
        *self
    }
}

impl SameView for AnalysisMutationError {
    fn same_view(&self, other: &Self) -> (same: bool) {
        *self == *other
    }
}

impl Plain for AnalysisMutationError {
    proof fn lemma_view_is_self(&self) {
    }
}

/// Engine-supplied judgment whether an mtime is safe for the metadata
/// fast path.
#[derive(Clone, Copy, Debug, PartialEq, Eq, Structural)]
pub enum TimestampReliability {
    Reliable,
    Unknown,
    CoarseOrRecent,
}

impl View for TimestampReliability {
    type V = TimestampReliability;

    open spec fn view(&self) -> TimestampReliability {
        *self
    }
}

impl Duplicate for TimestampReliability {
    fn duplicate(&self) -> (copy: Self) {
        *self
    }
}

impl SameView for TimestampReliability {
    fn same_view(&self, other: &Self) -> (same: bool) {
        *self == *other
    }
}

impl Plain for TimestampReliability {
    proof fn lemma_view_is_self(&self) {
    }
}

/// What a stat of the file at a row's path found.
#[derive(Clone, Copy, Debug, PartialEq, Eq, Structural)]
pub enum CurrentFileIdentity {
    Missing,
    Unavailable,
    Present(DestructiveIdentity),
}

impl View for CurrentFileIdentity {
    type V = CurrentFileIdentity;

    open spec fn view(&self) -> CurrentFileIdentity {
        *self
    }
}

impl Duplicate for CurrentFileIdentity {
    fn duplicate(&self) -> (copy: Self) {
        *self
    }
}

impl SameView for CurrentFileIdentity {
    fn same_view(&self, other: &Self) -> (same: bool) {
        *self == *other
    }
}

impl Plain for CurrentFileIdentity {
    proof fn lemma_view_is_self(&self) {
    }
}

/// Why a file must be observed again.
#[derive(Clone, Copy, Debug, PartialEq, Eq, Structural)]
pub enum FreshnessReason {
    NoBinding,
    FileIdentityChanged,
    SizeChanged,
    ModifiedTimeChanged,
    UnknownTimestamp,
    CoarseOrRecentTimestamp,
}

impl View for FreshnessReason {
    type V = FreshnessReason;

    open spec fn view(&self) -> FreshnessReason {
        *self
    }
}

impl Duplicate for FreshnessReason {
    fn duplicate(&self) -> (copy: Self) {
        *self
    }
}

impl SameView for FreshnessReason {
    fn same_view(&self, other: &Self) -> (same: bool) {
        *self == *other
    }
}

impl Plain for FreshnessReason {
    proof fn lemma_view_is_self(&self) {
    }
}

/// The metadata fast-path decision for one file.
#[derive(Clone, Copy, Debug, PartialEq, Eq, Structural)]
pub enum FreshnessDecision {
    RecognizeSettledOutput,
    ReuseObservation,
    Reobserve(FreshnessReason),
    Missing,
    Unavailable,
}

impl View for FreshnessDecision {
    type V = FreshnessDecision;

    open spec fn view(&self) -> FreshnessDecision {
        *self
    }
}

impl Duplicate for FreshnessDecision {
    fn duplicate(&self) -> (copy: Self) {
        *self
    }
}

impl SameView for FreshnessDecision {
    fn same_view(&self, other: &Self) -> (same: bool) {
        *self == *other
    }
}

impl Plain for FreshnessDecision {
    proof fn lemma_view_is_self(&self) {
    }
}

/// Result of the identity reads bracketing probe and sampling.
#[derive(Clone, Copy, Debug, PartialEq, Eq, Structural)]
pub enum ObservationStability {
    Stable,
    ChangedAfterProbe,
    ChangedDuringSampling,
}

impl View for ObservationStability {
    type V = ObservationStability;

    open spec fn view(&self) -> ObservationStability {
        *self
    }
}

impl Duplicate for ObservationStability {
    fn duplicate(&self) -> (copy: Self) {
        *self
    }
}

impl SameView for ObservationStability {
    fn same_view(&self, other: &Self) -> (same: bool) {
        *self == *other
    }
}

impl Plain for ObservationStability {
    proof fn lemma_view_is_self(&self) {
    }
}

} // verus!
