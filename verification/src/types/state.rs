//! Domain types and their mathematical views.
#![allow(unused_imports)]

use vstd::prelude::*;

use crate::model::{Duplicate, SameView, Plain, duplicate_vec, copy_plain_vec, same_view_vec, same_plain_vec};
use crate::{AnalysisAttempt, AnalysisIntent, AnalysisResult, AnalysisResultView, AnalysisSnapshot, AnalysisSnapshotView, ClaimId, ContentKey, ContentKeyView, DecodeMode, DurationMs, FailureFacts, FailureFactsView, FileRecord, FileRecordView, ImportPath, ImportPathView, JobPhase, JobSpec, JobSpecView, MediaObservation, MediaObservationView, Operation, OutputDelta, OutputDeltaView, OutputTarget, OutputTargetView, OutputTransaction, OutputTransactionView, OverwriteDecision, ParkedRecord, ParkedRecordView, PathBinding, PathBindingView, PathHash, PathHashView, QueueItemId, ReservedJob, ReservedJobView, RunId, Settings, SettingsView, SkipReason, ToolsState, ToolsStateView, UnixMillis, Verdict, VerdictView};

verus! {

/// Per-stream output byte accounting.
#[derive(Clone, Copy, Debug, PartialEq, Eq, Structural)]
pub struct StreamByteSizes {
    pub video: u64,
    pub audio: u64,
    pub subtitle: u64,
    pub other: u64,
}

impl View for StreamByteSizes {
    type V = StreamByteSizes;

    open spec fn view(&self) -> StreamByteSizes {
        *self
    }
}

impl Duplicate for StreamByteSizes {
    fn duplicate(&self) -> (copy: Self) {
        *self
    }
}

impl SameView for StreamByteSizes {
    fn same_view(&self, other: &Self) -> (same: bool) {
        *self == *other
    }
}

impl Plain for StreamByteSizes {
    proof fn lemma_view_is_self(&self) {
    }
}

/// Where the facts backing a successful outcome came from.
#[derive(Clone, Copy, Debug, PartialEq, Eq, Structural)]
pub enum CompletionEvidence {
    LiveEncode { input_size: u64, output_size: u64, stream_sizes: StreamByteSizes, encode_decode: DecodeMode },
    LiveRemux { input_size: u64, output_size: u64 },
    RecoveredAtStartup,
}

impl View for CompletionEvidence {
    type V = CompletionEvidence;

    open spec fn view(&self) -> CompletionEvidence {
        *self
    }
}

impl Duplicate for CompletionEvidence {
    fn duplicate(&self) -> (copy: Self) {
        *self
    }
}

impl SameView for CompletionEvidence {
    fn same_view(&self, other: &Self) -> (same: bool) {
        *self == *other
    }
}

impl Plain for CompletionEvidence {
    proof fn lemma_view_is_self(&self) {
    }
}

/// How one run ended.
#[derive(Clone, Debug, PartialEq, Eq)]
pub enum ItemOutcome {
    Analyzed,
    Converted(CompletionEvidence),
    Remuxed(CompletionEvidence),
    NotWorthwhile { attempts: Vec<AnalysisAttempt> },
    Stopped,
    Skipped { reason: SkipReason },
    Failed(FailureFacts),
}

/// The mathematical value of a [`ItemOutcome`].
pub enum ItemOutcomeView {
    Analyzed,
    Converted(CompletionEvidence),
    Remuxed(CompletionEvidence),
    NotWorthwhile { attempts: Seq<AnalysisAttempt> },
    Stopped,
    Skipped { reason: SkipReason },
    Failed(FailureFactsView),
}

impl View for ItemOutcome {
    type V = ItemOutcomeView;

    open spec fn view(&self) -> ItemOutcomeView {
        match self {
            ItemOutcome::Analyzed => ItemOutcomeView::Analyzed,
            ItemOutcome::Converted(f0) => ItemOutcomeView::Converted(*f0),
            ItemOutcome::Remuxed(f0) => ItemOutcomeView::Remuxed(*f0),
            ItemOutcome::NotWorthwhile { attempts } => ItemOutcomeView::NotWorthwhile { attempts: attempts@ },
            ItemOutcome::Stopped => ItemOutcomeView::Stopped,
            ItemOutcome::Skipped { reason } => ItemOutcomeView::Skipped { reason: *reason },
            ItemOutcome::Failed(f0) => ItemOutcomeView::Failed(f0@),
        }
    }
}

impl Duplicate for ItemOutcome {
    fn duplicate(&self) -> (copy: Self) {
        match self {
            ItemOutcome::Analyzed => ItemOutcome::Analyzed,
            ItemOutcome::Converted(f0) => ItemOutcome::Converted(*f0),
            ItemOutcome::Remuxed(f0) => ItemOutcome::Remuxed(*f0),
            ItemOutcome::NotWorthwhile { attempts } => ItemOutcome::NotWorthwhile { attempts: copy_plain_vec(&(*attempts)) },
            ItemOutcome::Stopped => ItemOutcome::Stopped,
            ItemOutcome::Skipped { reason } => ItemOutcome::Skipped { reason: *reason },
            ItemOutcome::Failed(f0) => ItemOutcome::Failed((*f0).duplicate()),
        }
    }
}

impl SameView for ItemOutcome {
    fn same_view(&self, other: &Self) -> (same: bool) {
        match (self, other) {
            (ItemOutcome::Analyzed, ItemOutcome::Analyzed) => true,
            (ItemOutcome::Converted(a0), ItemOutcome::Converted(b0)) => (*a0 == *b0),
            (ItemOutcome::Remuxed(a0), ItemOutcome::Remuxed(b0)) => (*a0 == *b0),
            (ItemOutcome::NotWorthwhile { attempts: a_attempts }, ItemOutcome::NotWorthwhile { attempts: b_attempts }) => (same_plain_vec(&(*a_attempts), &(*b_attempts))),
            (ItemOutcome::Stopped, ItemOutcome::Stopped) => true,
            (ItemOutcome::Skipped { reason: a_reason }, ItemOutcome::Skipped { reason: b_reason }) => (*a_reason == *b_reason),
            (ItemOutcome::Failed(a0), ItemOutcome::Failed(b0)) => ((*a0).same_view(&(*b0))),
            _ => false,
        }
    }
}

/// Where a queue item stands.
#[derive(Clone, Debug, PartialEq, Eq)]
pub enum QueueItemState {
    Queued,
    Reserved { claim_id: ClaimId, run_id: RunId },
    Claimed { claim_id: ClaimId, run_id: RunId },
    Running { claim_id: ClaimId, run_id: RunId },
    Finished(ItemOutcome),
}

/// The mathematical value of a [`QueueItemState`].
pub enum QueueItemStateView {
    Queued,
    Reserved { claim_id: ClaimId, run_id: RunId },
    Claimed { claim_id: ClaimId, run_id: RunId },
    Running { claim_id: ClaimId, run_id: RunId },
    Finished(ItemOutcomeView),
}

impl View for QueueItemState {
    type V = QueueItemStateView;

    open spec fn view(&self) -> QueueItemStateView {
        match self {
            QueueItemState::Queued => QueueItemStateView::Queued,
            QueueItemState::Reserved { claim_id, run_id } => QueueItemStateView::Reserved { claim_id: *claim_id, run_id: *run_id },
            QueueItemState::Claimed { claim_id, run_id } => QueueItemStateView::Claimed { claim_id: *claim_id, run_id: *run_id },
            QueueItemState::Running { claim_id, run_id } => QueueItemStateView::Running { claim_id: *claim_id, run_id: *run_id },
            QueueItemState::Finished(f0) => QueueItemStateView::Finished(f0@),
        }
    }
}

impl Duplicate for QueueItemState {
    fn duplicate(&self) -> (copy: Self) {
        match self {
            QueueItemState::Queued => QueueItemState::Queued,
            QueueItemState::Reserved { claim_id, run_id } => QueueItemState::Reserved { claim_id: *claim_id, run_id: *run_id },
            QueueItemState::Claimed { claim_id, run_id } => QueueItemState::Claimed { claim_id: *claim_id, run_id: *run_id },
            QueueItemState::Running { claim_id, run_id } => QueueItemState::Running { claim_id: *claim_id, run_id: *run_id },
            QueueItemState::Finished(f0) => QueueItemState::Finished((*f0).duplicate()),
        }
    }
}

impl SameView for QueueItemState {
    fn same_view(&self, other: &Self) -> (same: bool) {
        match (self, other) {
            (QueueItemState::Queued, QueueItemState::Queued) => true,
            (QueueItemState::Reserved { claim_id: a_claim_id, run_id: a_run_id }, QueueItemState::Reserved { claim_id: b_claim_id, run_id: b_run_id }) => (*a_claim_id == *b_claim_id) && (*a_run_id == *b_run_id),
            (QueueItemState::Claimed { claim_id: a_claim_id, run_id: a_run_id }, QueueItemState::Claimed { claim_id: b_claim_id, run_id: b_run_id }) => (*a_claim_id == *b_claim_id) && (*a_run_id == *b_run_id),
            (QueueItemState::Running { claim_id: a_claim_id, run_id: a_run_id }, QueueItemState::Running { claim_id: b_claim_id, run_id: b_run_id }) => (*a_claim_id == *b_claim_id) && (*a_run_id == *b_run_id),
            (QueueItemState::Finished(a0), QueueItemState::Finished(b0)) => ((*a0).same_view(&(*b0))),
            _ => false,
        }
    }
}

/// One queued file.
#[derive(Clone, Debug, PartialEq, Eq)]
pub struct QueueItem {
    pub id: QueueItemId,
    pub input: String,
    pub operation: Operation,
    pub intent: AnalysisIntent,
    pub output_target: OutputTarget,
    pub overwrite: OverwriteDecision,
    pub state: QueueItemState,
}

/// The mathematical value of a [`QueueItem`].
pub struct QueueItemView {
    pub id: QueueItemId,
    pub input: Seq<char>,
    pub operation: Operation,
    pub intent: AnalysisIntent,
    pub output_target: OutputTargetView,
    pub overwrite: OverwriteDecision,
    pub state: QueueItemStateView,
}

impl View for QueueItem {
    type V = QueueItemView;

    open spec fn view(&self) -> QueueItemView {
        QueueItemView {
            id: self.id,
            input: self.input@,
            operation: self.operation,
            intent: self.intent,
            output_target: self.output_target@,
            overwrite: self.overwrite,
            state: self.state@,
        }
    }
}

impl Duplicate for QueueItem {
    fn duplicate(&self) -> (copy: Self) {
        QueueItem {
            id: self.id,
            input: self.input.clone(),
            operation: self.operation,
            intent: self.intent,
            output_target: self.output_target.duplicate(),
            overwrite: self.overwrite,
            state: self.state.duplicate(),
        }
    }
}

impl SameView for QueueItem {
    fn same_view(&self, other: &Self) -> (same: bool) {
        (self.id == other.id)
            && (self.input.same_view(&other.input))
            && (self.operation == other.operation)
            && (self.intent == other.intent)
            && (self.output_target.same_view(&other.output_target))
            && (self.overwrite == other.overwrite)
            && (self.state.same_view(&other.state))
    }
}

/// How long one job phase ran.
#[derive(Clone, Copy, Debug, PartialEq, Eq, Structural)]
pub struct PhaseSpan {
    pub phase: JobPhase,
    pub duration: DurationMs,
}

impl View for PhaseSpan {
    type V = PhaseSpan;

    open spec fn view(&self) -> PhaseSpan {
        *self
    }
}

impl Duplicate for PhaseSpan {
    fn duplicate(&self) -> (copy: Self) {
        *self
    }
}

impl SameView for PhaseSpan {
    fn same_view(&self, other: &Self) -> (same: bool) {
        *self == *other
    }
}

impl Plain for PhaseSpan {
    proof fn lemma_view_is_self(&self) {
    }
}

/// Rolling per-session outcome counters and byte totals.
#[derive(Clone, Copy, Debug, PartialEq, Eq, Structural)]
pub struct SessionAggregates {
    pub completed: u32,
    pub failed: u32,
    pub skipped: u32,
    pub stopped: u32,
    pub not_worthwhile: u32,
    pub analyzed: u32,
    pub remuxed: u32,
    pub input_bytes: u64,
    pub output_bytes: u64,
    pub encode_duration_ms: u64,
}

impl View for SessionAggregates {
    type V = SessionAggregates;

    open spec fn view(&self) -> SessionAggregates {
        *self
    }
}

impl Duplicate for SessionAggregates {
    fn duplicate(&self) -> (copy: Self) {
        *self
    }
}

impl SameView for SessionAggregates {
    fn same_view(&self, other: &Self) -> (same: bool) {
        *self == *other
    }
}

impl Plain for SessionAggregates {
    proof fn lemma_view_is_self(&self) {
    }
}

/// The durable record of one run.
#[derive(Clone, Debug, PartialEq, Eq)]
pub struct ConversionRun {
    pub spec: JobSpec,
    pub analysis: Option<AnalysisResult>,
    pub output_content_key: Option<ContentKey>,
    pub outcome: Option<ItemOutcome>,
    pub started_at: Option<UnixMillis>,
    pub finished_at: Option<UnixMillis>,
    pub phase_spans: Vec<PhaseSpan>,
}

/// The mathematical value of a [`ConversionRun`].
pub struct ConversionRunView {
    pub spec: JobSpecView,
    pub analysis: Option<AnalysisResultView>,
    pub output_content_key: Option<ContentKeyView>,
    pub outcome: Option<ItemOutcomeView>,
    pub started_at: Option<UnixMillis>,
    pub finished_at: Option<UnixMillis>,
    pub phase_spans: Seq<PhaseSpan>,
}

impl View for ConversionRun {
    type V = ConversionRunView;

    open spec fn view(&self) -> ConversionRunView {
        ConversionRunView {
            spec: self.spec@,
            analysis: match self.analysis { Some(x) => Some(x@), None => None },
            output_content_key: match self.output_content_key { Some(x) => Some(x@), None => None },
            outcome: match self.outcome { Some(x) => Some(x@), None => None },
            started_at: self.started_at,
            finished_at: self.finished_at,
            phase_spans: self.phase_spans@,
        }
    }
}

impl Duplicate for ConversionRun {
    fn duplicate(&self) -> (copy: Self) {
        ConversionRun {
            spec: self.spec.duplicate(),
            analysis: match &self.analysis { Some(x) => Some(x.duplicate()), None => None },
            output_content_key: match &self.output_content_key { Some(x) => Some(x.duplicate()), None => None },
            outcome: match &self.outcome { Some(x) => Some(x.duplicate()), None => None },
            started_at: self.started_at,
            finished_at: self.finished_at,
            phase_spans: copy_plain_vec(&self.phase_spans),
        }
    }
}

impl SameView for ConversionRun {
    fn same_view(&self, other: &Self) -> (same: bool) {
        (self.spec.same_view(&other.spec))
            && (match (&self.analysis, &other.analysis) { (Some(x), Some(y)) => (*x).same_view(&(*y)), (None, None) => true, _ => false })
            && (match (&self.output_content_key, &other.output_content_key) { (Some(x), Some(y)) => (*x).same_view(&(*y)), (None, None) => true, _ => false })
            && (match (&self.outcome, &other.outcome) { (Some(x), Some(y)) => (*x).same_view(&(*y)), (None, None) => true, _ => false })
            && (self.started_at == other.started_at)
            && (self.finished_at == other.finished_at)
            && (same_plain_vec(&self.phase_spans, &other.phase_spans))
    }
}

/// One durable state change; the journal is a sequence of these.
#[derive(Clone, Debug, PartialEq, Eq)]
pub enum DurableDelta {
    QueueAdded { item: QueueItem },
    QueueRemoved { item_id: QueueItemId },
    QueueMoved { item_id: QueueItemId, before: Option<QueueItemId> },
    QueueReordered { pending_order: Vec<QueueItemId> },
    QueueRequeued { item_id: QueueItemId },
    QueueEdited { item_id: QueueItemId, operation: Operation, intent: AnalysisIntent, output_target: OutputTarget, overwrite: OverwriteDecision },
    ItemReserved { job: Box<ReservedJob> },
    MediaObserved { observation: Box<MediaObservation> },
    ItemPrepared { spec: Box<JobSpec> },
    ItemRunning { item_id: QueueItemId, claim_id: ClaimId, run_id: RunId, at: UnixMillis },
    AnalysisRecorded { run_id: RunId, result: Box<AnalysisResult> },
    ItemFinished { item_id: QueueItemId, claim_id: ClaimId, run_id: RunId, outcome: ItemOutcome, at: UnixMillis, phase_spans: Vec<PhaseSpan> },
    Output(OutputDelta),
    HistoryImported { records: Vec<(ImportPath, ParkedRecord)> },
    ParkedAdopted { import_path: ImportPath, content_key: ContentKey, imported: ParkedRecord, verdict: Option<Verdict> },
    ParkedRetired { import_path: ImportPath },
}

/// The mathematical value of a [`DurableDelta`].
pub enum DurableDeltaView {
    QueueAdded { item: QueueItemView },
    QueueRemoved { item_id: QueueItemId },
    QueueMoved { item_id: QueueItemId, before: Option<QueueItemId> },
    QueueReordered { pending_order: Seq<QueueItemId> },
    QueueRequeued { item_id: QueueItemId },
    QueueEdited { item_id: QueueItemId, operation: Operation, intent: AnalysisIntent, output_target: OutputTargetView, overwrite: OverwriteDecision },
    ItemReserved { job: ReservedJobView },
    MediaObserved { observation: MediaObservationView },
    ItemPrepared { spec: JobSpecView },
    ItemRunning { item_id: QueueItemId, claim_id: ClaimId, run_id: RunId, at: UnixMillis },
    AnalysisRecorded { run_id: RunId, result: AnalysisResultView },
    ItemFinished { item_id: QueueItemId, claim_id: ClaimId, run_id: RunId, outcome: ItemOutcomeView, at: UnixMillis, phase_spans: Seq<PhaseSpan> },
    Output(OutputDeltaView),
    HistoryImported { records: Seq<(ImportPathView, ParkedRecordView)> },
    ParkedAdopted { import_path: ImportPathView, content_key: ContentKeyView, imported: ParkedRecordView, verdict: Option<VerdictView> },
    ParkedRetired { import_path: ImportPathView },
}

impl View for DurableDelta {
    type V = DurableDeltaView;

    open spec fn view(&self) -> DurableDeltaView {
        match self {
            DurableDelta::QueueAdded { item } => DurableDeltaView::QueueAdded { item: item@ },
            DurableDelta::QueueRemoved { item_id } => DurableDeltaView::QueueRemoved { item_id: *item_id },
            DurableDelta::QueueMoved { item_id, before } => DurableDeltaView::QueueMoved { item_id: *item_id, before: *before },
            DurableDelta::QueueReordered { pending_order } => DurableDeltaView::QueueReordered { pending_order: pending_order@ },
            DurableDelta::QueueRequeued { item_id } => DurableDeltaView::QueueRequeued { item_id: *item_id },
            DurableDelta::QueueEdited { item_id, operation, intent, output_target, overwrite } => DurableDeltaView::QueueEdited { item_id: *item_id, operation: *operation, intent: *intent, output_target: output_target@, overwrite: *overwrite },
            DurableDelta::ItemReserved { job } => DurableDeltaView::ItemReserved { job: job@ },
            DurableDelta::MediaObserved { observation } => DurableDeltaView::MediaObserved { observation: observation@ },
            DurableDelta::ItemPrepared { spec } => DurableDeltaView::ItemPrepared { spec: spec@ },
            DurableDelta::ItemRunning { item_id, claim_id, run_id, at } => DurableDeltaView::ItemRunning { item_id: *item_id, claim_id: *claim_id, run_id: *run_id, at: *at },
            DurableDelta::AnalysisRecorded { run_id, result } => DurableDeltaView::AnalysisRecorded { run_id: *run_id, result: result@ },
            DurableDelta::ItemFinished { item_id, claim_id, run_id, outcome, at, phase_spans } => DurableDeltaView::ItemFinished { item_id: *item_id, claim_id: *claim_id, run_id: *run_id, outcome: outcome@, at: *at, phase_spans: phase_spans@ },
            DurableDelta::Output(f0) => DurableDeltaView::Output(f0@),
            DurableDelta::HistoryImported { records } => DurableDeltaView::HistoryImported { records: records@.map_values(|x: (ImportPath, ParkedRecord)| x@) },
            DurableDelta::ParkedAdopted { import_path, content_key, imported, verdict } => DurableDeltaView::ParkedAdopted { import_path: import_path@, content_key: content_key@, imported: imported@, verdict: match verdict { Some(x) => Some(x@), None => None } },
            DurableDelta::ParkedRetired { import_path } => DurableDeltaView::ParkedRetired { import_path: import_path@ },
        }
    }
}

impl Duplicate for DurableDelta {
    fn duplicate(&self) -> (copy: Self) {
        match self {
            DurableDelta::QueueAdded { item } => DurableDelta::QueueAdded { item: (*item).duplicate() },
            DurableDelta::QueueRemoved { item_id } => DurableDelta::QueueRemoved { item_id: *item_id },
            DurableDelta::QueueMoved { item_id, before } => DurableDelta::QueueMoved { item_id: *item_id, before: *before },
            DurableDelta::QueueReordered { pending_order } => DurableDelta::QueueReordered { pending_order: copy_plain_vec(&(*pending_order)) },
            DurableDelta::QueueRequeued { item_id } => DurableDelta::QueueRequeued { item_id: *item_id },
            DurableDelta::QueueEdited { item_id, operation, intent, output_target, overwrite } => DurableDelta::QueueEdited { item_id: *item_id, operation: *operation, intent: *intent, output_target: (*output_target).duplicate(), overwrite: *overwrite },
            DurableDelta::ItemReserved { job } => DurableDelta::ItemReserved { job: Box::new((*(*job)).duplicate()) },
            DurableDelta::MediaObserved { observation } => DurableDelta::MediaObserved { observation: Box::new((*(*observation)).duplicate()) },
            DurableDelta::ItemPrepared { spec } => DurableDelta::ItemPrepared { spec: Box::new((*(*spec)).duplicate()) },
            DurableDelta::ItemRunning { item_id, claim_id, run_id, at } => DurableDelta::ItemRunning { item_id: *item_id, claim_id: *claim_id, run_id: *run_id, at: *at },
            DurableDelta::AnalysisRecorded { run_id, result } => DurableDelta::AnalysisRecorded { run_id: *run_id, result: Box::new((*(*result)).duplicate()) },
            DurableDelta::ItemFinished { item_id, claim_id, run_id, outcome, at, phase_spans } => DurableDelta::ItemFinished { item_id: *item_id, claim_id: *claim_id, run_id: *run_id, outcome: (*outcome).duplicate(), at: *at, phase_spans: copy_plain_vec(&(*phase_spans)) },
            DurableDelta::Output(f0) => DurableDelta::Output((*f0).duplicate()),
            DurableDelta::HistoryImported { records } => DurableDelta::HistoryImported { records: duplicate_vec(&(*records)) },
            DurableDelta::ParkedAdopted { import_path, content_key, imported, verdict } => DurableDelta::ParkedAdopted { import_path: (*import_path).duplicate(), content_key: (*content_key).duplicate(), imported: (*imported).duplicate(), verdict: match &(*verdict) { Some(x) => Some(x.duplicate()), None => None } },
            DurableDelta::ParkedRetired { import_path } => DurableDelta::ParkedRetired { import_path: (*import_path).duplicate() },
        }
    }
}

impl SameView for DurableDelta {
    fn same_view(&self, other: &Self) -> (same: bool) {
        match (self, other) {
            (DurableDelta::QueueAdded { item: a_item }, DurableDelta::QueueAdded { item: b_item }) => ((*a_item).same_view(&(*b_item))),
            (DurableDelta::QueueRemoved { item_id: a_item_id }, DurableDelta::QueueRemoved { item_id: b_item_id }) => (*a_item_id == *b_item_id),
            (DurableDelta::QueueMoved { item_id: a_item_id, before: a_before }, DurableDelta::QueueMoved { item_id: b_item_id, before: b_before }) => (*a_item_id == *b_item_id) && (*a_before == *b_before),
            (DurableDelta::QueueReordered { pending_order: a_pending_order }, DurableDelta::QueueReordered { pending_order: b_pending_order }) => (same_plain_vec(&(*a_pending_order), &(*b_pending_order))),
            (DurableDelta::QueueRequeued { item_id: a_item_id }, DurableDelta::QueueRequeued { item_id: b_item_id }) => (*a_item_id == *b_item_id),
            (DurableDelta::QueueEdited { item_id: a_item_id, operation: a_operation, intent: a_intent, output_target: a_output_target, overwrite: a_overwrite }, DurableDelta::QueueEdited { item_id: b_item_id, operation: b_operation, intent: b_intent, output_target: b_output_target, overwrite: b_overwrite }) => (*a_item_id == *b_item_id) && (*a_operation == *b_operation) && (*a_intent == *b_intent) && ((*a_output_target).same_view(&(*b_output_target))) && (*a_overwrite == *b_overwrite),
            (DurableDelta::ItemReserved { job: a_job }, DurableDelta::ItemReserved { job: b_job }) => ((*(*a_job)).same_view(&*(*b_job))),
            (DurableDelta::MediaObserved { observation: a_observation }, DurableDelta::MediaObserved { observation: b_observation }) => ((*(*a_observation)).same_view(&*(*b_observation))),
            (DurableDelta::ItemPrepared { spec: a_spec }, DurableDelta::ItemPrepared { spec: b_spec }) => ((*(*a_spec)).same_view(&*(*b_spec))),
            (DurableDelta::ItemRunning { item_id: a_item_id, claim_id: a_claim_id, run_id: a_run_id, at: a_at }, DurableDelta::ItemRunning { item_id: b_item_id, claim_id: b_claim_id, run_id: b_run_id, at: b_at }) => (*a_item_id == *b_item_id) && (*a_claim_id == *b_claim_id) && (*a_run_id == *b_run_id) && (*a_at == *b_at),
            (DurableDelta::AnalysisRecorded { run_id: a_run_id, result: a_result }, DurableDelta::AnalysisRecorded { run_id: b_run_id, result: b_result }) => (*a_run_id == *b_run_id) && ((*(*a_result)).same_view(&*(*b_result))),
            (DurableDelta::ItemFinished { item_id: a_item_id, claim_id: a_claim_id, run_id: a_run_id, outcome: a_outcome, at: a_at, phase_spans: a_phase_spans }, DurableDelta::ItemFinished { item_id: b_item_id, claim_id: b_claim_id, run_id: b_run_id, outcome: b_outcome, at: b_at, phase_spans: b_phase_spans }) => (*a_item_id == *b_item_id) && (*a_claim_id == *b_claim_id) && (*a_run_id == *b_run_id) && ((*a_outcome).same_view(&(*b_outcome))) && (*a_at == *b_at) && (same_plain_vec(&(*a_phase_spans), &(*b_phase_spans))),
            (DurableDelta::Output(a0), DurableDelta::Output(b0)) => ((*a0).same_view(&(*b0))),
            (DurableDelta::HistoryImported { records: a_records }, DurableDelta::HistoryImported { records: b_records }) => (same_view_vec(&(*a_records), &(*b_records))),
            (DurableDelta::ParkedAdopted { import_path: a_import_path, content_key: a_content_key, imported: a_imported, verdict: a_verdict }, DurableDelta::ParkedAdopted { import_path: b_import_path, content_key: b_content_key, imported: b_imported, verdict: b_verdict }) => ((*a_import_path).same_view(&(*b_import_path))) && ((*a_content_key).same_view(&(*b_content_key))) && ((*a_imported).same_view(&(*b_imported))) && (match (&(*a_verdict), &(*b_verdict)) { (Some(x), Some(y)) => (*x).same_view(&(*y)), (None, None) => true, _ => false }),
            (DurableDelta::ParkedRetired { import_path: a_import_path }, DurableDelta::ParkedRetired { import_path: b_import_path }) => ((*a_import_path).same_view(&(*b_import_path))),
            _ => false,
        }
    }
}

/// Everything the journal makes durable.
#[derive(Clone, Debug, PartialEq, Eq)]
pub struct DurableState {
    pub queue: Vec<QueueItem>,
    /// Path bindings, keyed by path hash; no key twice.
    pub paths: Vec<(PathHash, PathBinding)>,
    /// Content records, keyed by content key; no key twice.
    pub records: Vec<(ContentKey, FileRecord)>,
    /// Output transactions; no run twice.
    pub outputs: Vec<OutputTransaction>,
    /// Runs; no run twice.
    pub conversion_runs: Vec<ConversionRun>,
    /// Imported records not yet matched to a file; no key twice.
    pub parked: Vec<(ImportPath, ParkedRecord)>,
    /// Every adopted import path: the re-import guard.
    pub adopted_imports: Vec<ImportPath>,
}

/// The mathematical value of a [`DurableState`].
pub struct DurableStateView {
    pub queue: Seq<QueueItemView>,
    pub paths: Seq<(PathHashView, PathBindingView)>,
    pub records: Seq<(ContentKeyView, FileRecordView)>,
    pub outputs: Seq<OutputTransactionView>,
    pub conversion_runs: Seq<ConversionRunView>,
    pub parked: Seq<(ImportPathView, ParkedRecordView)>,
    pub adopted_imports: Seq<ImportPathView>,
}

impl View for DurableState {
    type V = DurableStateView;

    open spec fn view(&self) -> DurableStateView {
        DurableStateView {
            queue: self.queue@.map_values(|x: QueueItem| x@),
            paths: self.paths@.map_values(|x: (PathHash, PathBinding)| x@),
            records: self.records@.map_values(|x: (ContentKey, FileRecord)| x@),
            outputs: self.outputs@.map_values(|x: OutputTransaction| x@),
            conversion_runs: self.conversion_runs@.map_values(|x: ConversionRun| x@),
            parked: self.parked@.map_values(|x: (ImportPath, ParkedRecord)| x@),
            adopted_imports: self.adopted_imports@.map_values(|x: ImportPath| x@),
        }
    }
}

impl Duplicate for DurableState {
    fn duplicate(&self) -> (copy: Self) {
        DurableState {
            queue: duplicate_vec(&self.queue),
            paths: duplicate_vec(&self.paths),
            records: duplicate_vec(&self.records),
            outputs: duplicate_vec(&self.outputs),
            conversion_runs: duplicate_vec(&self.conversion_runs),
            parked: duplicate_vec(&self.parked),
            adopted_imports: duplicate_vec(&self.adopted_imports),
        }
    }
}

impl SameView for DurableState {
    fn same_view(&self, other: &Self) -> (same: bool) {
        (same_view_vec(&self.queue, &other.queue))
            && (same_view_vec(&self.paths, &other.paths))
            && (same_view_vec(&self.records, &other.records))
            && (same_view_vec(&self.outputs, &other.outputs))
            && (same_view_vec(&self.conversion_runs, &other.conversion_runs))
            && (same_view_vec(&self.parked, &other.parked))
            && (same_view_vec(&self.adopted_imports, &other.adopted_imports))
    }
}

/// A settings change.
#[derive(Clone, Debug, PartialEq, Eq)]
pub enum ConfigDelta {
    SettingsChanged { settings: Settings },
}

/// The mathematical value of a [`ConfigDelta`].
pub enum ConfigDeltaView {
    SettingsChanged { settings: SettingsView },
}

impl View for ConfigDelta {
    type V = ConfigDeltaView;

    open spec fn view(&self) -> ConfigDeltaView {
        match self {
            ConfigDelta::SettingsChanged { settings } => ConfigDeltaView::SettingsChanged { settings: settings@ },
        }
    }
}

impl Duplicate for ConfigDelta {
    fn duplicate(&self) -> (copy: Self) {
        match self {
            ConfigDelta::SettingsChanged { settings } => ConfigDelta::SettingsChanged { settings: (*settings).duplicate() },
        }
    }
}

impl SameView for ConfigDelta {
    fn same_view(&self, other: &Self) -> (same: bool) {
        match (self, other) {
            (ConfigDelta::SettingsChanged { settings: a_settings }, ConfigDelta::SettingsChanged { settings: b_settings }) => ((*a_settings).same_view(&(*b_settings))),
        }
    }
}

/// Where the worker session stands.
#[derive(Clone, Copy, Debug, PartialEq, Eq, Structural)]
pub enum SessionState {
    Idle,
    Running,
    StopAfterCurrent,
    ForceStopping,
}

impl View for SessionState {
    type V = SessionState;

    open spec fn view(&self) -> SessionState {
        *self
    }
}

impl Duplicate for SessionState {
    fn duplicate(&self) -> (copy: Self) {
        *self
    }
}

impl SameView for SessionState {
    fn same_view(&self, other: &Self) -> (same: bool) {
        *self == *other
    }
}

impl Plain for SessionState {
    proof fn lemma_view_is_self(&self) {
    }
}

/// Progress within the current phase.
#[derive(Clone, Copy, Debug, PartialEq, Eq, Structural)]
pub enum JobProgress {
    Phase,
    SearchBasisPoints(u32),
    OutputPositionMs(u64),
}

impl View for JobProgress {
    type V = JobProgress;

    open spec fn view(&self) -> JobProgress {
        *self
    }
}

impl Duplicate for JobProgress {
    fn duplicate(&self) -> (copy: Self) {
        *self
    }
}

impl SameView for JobProgress {
    fn same_view(&self, other: &Self) -> (same: bool) {
        *self == *other
    }
}

impl Plain for JobProgress {
    proof fn lemma_view_is_self(&self) {
    }
}

/// Live progress of the active run.
#[derive(Clone, Copy, Debug, PartialEq, Eq, Structural)]
pub struct Telemetry {
    pub run_id: RunId,
    pub sequence: u64,
    pub phase: JobPhase,
    pub progress: JobProgress,
    pub fps_centi: Option<u32>,
    pub eta_ms: Option<u64>,
}

impl View for Telemetry {
    type V = Telemetry;

    open spec fn view(&self) -> Telemetry {
        *self
    }
}

impl Duplicate for Telemetry {
    fn duplicate(&self) -> (copy: Self) {
        *self
    }
}

impl SameView for Telemetry {
    fn same_view(&self, other: &Self) -> (same: bool) {
        *self == *other
    }
}

impl Plain for Telemetry {
    proof fn lemma_view_is_self(&self) {
    }
}

/// Durable state and settings, as replayed to a subscriber.
#[derive(Clone, Debug, PartialEq, Eq)]
pub struct AppSnapshot {
    pub durable: DurableState,
    pub settings: Settings,
}

/// The mathematical value of a [`AppSnapshot`].
pub struct AppSnapshotView {
    pub durable: DurableStateView,
    pub settings: SettingsView,
}

impl View for AppSnapshot {
    type V = AppSnapshotView;

    open spec fn view(&self) -> AppSnapshotView {
        AppSnapshotView {
            durable: self.durable@,
            settings: self.settings@,
        }
    }
}

impl Duplicate for AppSnapshot {
    fn duplicate(&self) -> (copy: Self) {
        AppSnapshot {
            durable: self.durable.duplicate(),
            settings: self.settings.duplicate(),
        }
    }
}

impl SameView for AppSnapshot {
    fn same_view(&self, other: &Self) -> (same: bool) {
        (self.durable.same_view(&other.durable))
            && (self.settings.same_view(&other.settings))
    }
}

/// The whole reducer state: durable, configuration, and ephemeral.
#[derive(Clone, Debug, PartialEq, Eq)]
pub struct AppState {
    pub durable: DurableState,
    pub settings: Settings,
    pub session: SessionState,
    pub aggregates: SessionAggregates,
    /// Live telemetry, keyed by run; no run twice.
    pub telemetry: Vec<Telemetry>,
    pub tools: ToolsState,
    pub analysis: AnalysisSnapshot,
}

/// The mathematical value of a [`AppState`].
pub struct AppStateView {
    pub durable: DurableStateView,
    pub settings: SettingsView,
    pub session: SessionState,
    pub aggregates: SessionAggregates,
    pub telemetry: Seq<Telemetry>,
    pub tools: ToolsStateView,
    pub analysis: AnalysisSnapshotView,
}

impl View for AppState {
    type V = AppStateView;

    open spec fn view(&self) -> AppStateView {
        AppStateView {
            durable: self.durable@,
            settings: self.settings@,
            session: self.session,
            aggregates: self.aggregates,
            telemetry: self.telemetry@,
            tools: self.tools@,
            analysis: self.analysis@,
        }
    }
}

impl Duplicate for AppState {
    fn duplicate(&self) -> (copy: Self) {
        AppState {
            durable: self.durable.duplicate(),
            settings: self.settings.duplicate(),
            session: self.session,
            aggregates: self.aggregates,
            telemetry: copy_plain_vec(&self.telemetry),
            tools: self.tools.duplicate(),
            analysis: self.analysis.duplicate(),
        }
    }
}

impl SameView for AppState {
    fn same_view(&self, other: &Self) -> (same: bool) {
        (self.durable.same_view(&other.durable))
            && (self.settings.same_view(&other.settings))
            && (self.session == other.session)
            && (self.aggregates == other.aggregates)
            && (same_plain_vec(&self.telemetry, &other.telemetry))
            && (self.tools.same_view(&other.tools))
            && (self.analysis.same_view(&other.analysis))
    }
}

} // verus!
