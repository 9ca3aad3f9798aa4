//! Domain types and their mathematical views.
#![allow(unused_imports)]

use vstd::prelude::*;

use crate::model::{Duplicate, SameView, Plain, duplicate_vec, copy_plain_vec, same_view_vec, same_plain_vec};
use crate::{AnalysisCommand, AnalysisCommandView, AnalysisDelta, AnalysisDeltaView, AnalysisGenerationId, AnalysisIntent, AnalysisResult, AnalysisResultView, ClaimId, ClaimedJob, ClaimedJobView, ConfigDelta, ConfigDeltaView, DestructiveIdentity, DurableDelta, DurableDeltaView, ExecutionSettings, ExecutionSettingsView, ImportPath, ImportPathView, ItemOutcome, ItemOutcomeView, MediaObservation, MediaObservationView, Operation, OutputDelta, OutputDeltaView, OutputTarget, OutputTargetView, OverwriteDecision, ParkedRecord, ParkedRecordView, PathHash, PathHashView, PhaseSpan, QueueItemId, ReservedJob, ReservedJobView, RunId, SessionAggregates, SessionState, Settings, SettingsView, SkipReason, Telemetry, TimestampReliability, ToolAvailability, ToolAvailabilityView, ToolsState, ToolsStateView, UnixMillis, VendorActivity, VendorActivityView};

verus! {

/// Durable history-surface operations.
#[derive(Clone, Debug, PartialEq, Eq)]
pub enum HistoryCommand {
    Import { records: Vec<(ImportPath, ParkedRecord)> },
}

/// The mathematical value of a [`HistoryCommand`].
pub enum HistoryCommandView {
    Import { records: Seq<(ImportPathView, ParkedRecordView)> },
}

impl View for HistoryCommand {
    type V = HistoryCommandView;

    open spec fn view(&self) -> HistoryCommandView {
        match self {
            HistoryCommand::Import { records } => HistoryCommandView::Import { records: records@.map_values(|x: (ImportPath, ParkedRecord)| x@) },
        }
    }
}

impl Duplicate for HistoryCommand {
    fn duplicate(&self) -> (copy: Self) {
        match self {
            HistoryCommand::Import { records } => HistoryCommand::Import { records: duplicate_vec(&(*records)) },
        }
    }
}

impl SameView for HistoryCommand {
    fn same_view(&self, other: &Self) -> (same: bool) {
        match (self, other) {
            (HistoryCommand::Import { records: a_records }, HistoryCommand::Import { records: b_records }) => (same_view_vec(&(*a_records), &(*b_records))),
        }
    }
}

/// Settings operations.
#[derive(Clone, Debug, PartialEq, Eq)]
pub enum SettingsCommand {
    Update { settings: Settings },
}

/// The mathematical value of a [`SettingsCommand`].
pub enum SettingsCommandView {
    Update { settings: SettingsView },
}

impl View for SettingsCommand {
    type V = SettingsCommandView;

    open spec fn view(&self) -> SettingsCommandView {
        match self {
            SettingsCommand::Update { settings } => SettingsCommandView::Update { settings: settings@ },
        }
    }
}

impl Duplicate for SettingsCommand {
    fn duplicate(&self) -> (copy: Self) {
        match self {
            SettingsCommand::Update { settings } => SettingsCommand::Update { settings: (*settings).duplicate() },
        }
    }
}

impl SameView for SettingsCommand {
    fn same_view(&self, other: &Self) -> (same: bool) {
        match (self, other) {
            (SettingsCommand::Update { settings: a_settings }, SettingsCommand::Update { settings: b_settings }) => ((*a_settings).same_view(&(*b_settings))),
        }
    }
}

/// A partial edit of a queued item; `None` keeps the current value.
#[derive(Clone, Debug, PartialEq, Eq)]
pub struct QueueItemEdit {
    pub operation: Option<Operation>,
    pub intent: Option<AnalysisIntent>,
    pub output_target: Option<OutputTarget>,
    pub overwrite: Option<OverwriteDecision>,
}

/// The mathematical value of a [`QueueItemEdit`].
pub struct QueueItemEditView {
    pub operation: Option<Operation>,
    pub intent: Option<AnalysisIntent>,
    pub output_target: Option<OutputTargetView>,
    pub overwrite: Option<OverwriteDecision>,
}

impl View for QueueItemEdit {
    type V = QueueItemEditView;

    open spec fn view(&self) -> QueueItemEditView {
        QueueItemEditView {
            operation: self.operation,
            intent: self.intent,
            output_target: match self.output_target { Some(x) => Some(x@), None => None },
            overwrite: self.overwrite,
        }
    }
}

impl Duplicate for QueueItemEdit {
    fn duplicate(&self) -> (copy: Self) {
        QueueItemEdit {
            operation: self.operation,
            intent: self.intent,
            output_target: match &self.output_target { Some(x) => Some(x.duplicate()), None => None },
            overwrite: self.overwrite,
        }
    }
}

impl SameView for QueueItemEdit {
    fn same_view(&self, other: &Self) -> (same: bool) {
        (self.operation == other.operation)
            && (self.intent == other.intent)
            && (match (&self.output_target, &other.output_target) { (Some(x), Some(y)) => (*x).same_view(&(*y)), (None, None) => true, _ => false })
            && (self.overwrite == other.overwrite)
    }
}

/// One add request; the identity facts are I/O results gathered by the caller.
#[derive(Clone, Debug, PartialEq, Eq)]
pub struct QueueAddRequest {
    pub item_id: QueueItemId,
    pub input: String,
    pub path_hash: Option<PathHash>,
    pub identity: Option<DestructiveIdentity>,
    pub timestamp_reliability: TimestampReliability,
    pub operation: Operation,
    pub intent: AnalysisIntent,
    pub output_target: OutputTarget,
    pub overwrite: OverwriteDecision,
}

/// The mathematical value of a [`QueueAddRequest`].
pub struct QueueAddRequestView {
    pub item_id: QueueItemId,
    pub input: Seq<char>,
    pub path_hash: Option<PathHashView>,
    pub identity: Option<DestructiveIdentity>,
    pub timestamp_reliability: TimestampReliability,
    pub operation: Operation,
    pub intent: AnalysisIntent,
    pub output_target: OutputTargetView,
    pub overwrite: OverwriteDecision,
}

impl View for QueueAddRequest {
    type V = QueueAddRequestView;

    open spec fn view(&self) -> QueueAddRequestView {
        QueueAddRequestView {
            item_id: self.item_id,
            input: self.input@,
            path_hash: match self.path_hash { Some(x) => Some(x@), None => None },
            identity: self.identity,
            timestamp_reliability: self.timestamp_reliability,
            operation: self.operation,
            intent: self.intent,
            output_target: self.output_target@,
            overwrite: self.overwrite,
        }
    }
}

impl Duplicate for QueueAddRequest {
    fn duplicate(&self) -> (copy: Self) {
        QueueAddRequest {
            item_id: self.item_id,
            input: self.input.clone(),
            path_hash: match &self.path_hash { Some(x) => Some(x.duplicate()), None => None },
            identity: self.identity,
            timestamp_reliability: self.timestamp_reliability,
            operation: self.operation,
            intent: self.intent,
            output_target: self.output_target.duplicate(),
            overwrite: self.overwrite,
        }
    }
}

impl SameView for QueueAddRequest {
    fn same_view(&self, other: &Self) -> (same: bool) {
        (self.item_id == other.item_id)
            && (self.input.same_view(&other.input))
            && (match (&self.path_hash, &other.path_hash) { (Some(x), Some(y)) => (*x).same_view(&(*y)), (None, None) => true, _ => false })
            && (self.identity == other.identity)
            && (self.timestamp_reliability == other.timestamp_reliability)
            && (self.operation == other.operation)
            && (self.intent == other.intent)
            && (self.output_target.same_view(&other.output_target))
            && (self.overwrite == other.overwrite)
    }
}

/// Queue operations.
#[derive(Clone, Debug, PartialEq, Eq)]
pub enum QueueCommand {
    AddMany { requests: Vec<QueueAddRequest> },
    Remove { item_id: QueueItemId },
    Move { item_id: QueueItemId, before: Option<QueueItemId> },
    ReorderPending { pending_order: Vec<QueueItemId> },
    Clear,
    ClearCompleted,
    Retry { item_id: QueueItemId },
    Edit { item_id: QueueItemId, patch: QueueItemEdit },
}

/// The mathematical value of a [`QueueCommand`].
pub enum QueueCommandView {
    AddMany { requests: Seq<QueueAddRequestView> },
    Remove { item_id: QueueItemId },
    Move { item_id: QueueItemId, before: Option<QueueItemId> },
    ReorderPending { pending_order: Seq<QueueItemId> },
    Clear,
    ClearCompleted,
    Retry { item_id: QueueItemId },
    Edit { item_id: QueueItemId, patch: QueueItemEditView },
}

impl View for QueueCommand {
    type V = QueueCommandView;

    open spec fn view(&self) -> QueueCommandView {
        match self {
            QueueCommand::AddMany { requests } => QueueCommandView::AddMany { requests: requests@.map_values(|x: QueueAddRequest| x@) },
            QueueCommand::Remove { item_id } => QueueCommandView::Remove { item_id: *item_id },
            QueueCommand::Move { item_id, before } => QueueCommandView::Move { item_id: *item_id, before: *before },
            QueueCommand::ReorderPending { pending_order } => QueueCommandView::ReorderPending { pending_order: pending_order@ },
            QueueCommand::Clear => QueueCommandView::Clear,
            QueueCommand::ClearCompleted => QueueCommandView::ClearCompleted,
            QueueCommand::Retry { item_id } => QueueCommandView::Retry { item_id: *item_id },
            QueueCommand::Edit { item_id, patch } => QueueCommandView::Edit { item_id: *item_id, patch: patch@ },
        }
    }
}

impl Duplicate for QueueCommand {
    fn duplicate(&self) -> (copy: Self) {
        match self {
            QueueCommand::AddMany { requests } => QueueCommand::AddMany { requests: duplicate_vec(&(*requests)) },
            QueueCommand::Remove { item_id } => QueueCommand::Remove { item_id: *item_id },
            QueueCommand::Move { item_id, before } => QueueCommand::Move { item_id: *item_id, before: *before },
            QueueCommand::ReorderPending { pending_order } => QueueCommand::ReorderPending { pending_order: copy_plain_vec(&(*pending_order)) },
            QueueCommand::Clear => QueueCommand::Clear,
            QueueCommand::ClearCompleted => QueueCommand::ClearCompleted,
            QueueCommand::Retry { item_id } => QueueCommand::Retry { item_id: *item_id },
            QueueCommand::Edit { item_id, patch } => QueueCommand::Edit { item_id: *item_id, patch: (*patch).duplicate() },
        }
    }
}

impl SameView for QueueCommand {
    fn same_view(&self, other: &Self) -> (same: bool) {
        match (self, other) {
            (QueueCommand::AddMany { requests: a_requests }, QueueCommand::AddMany { requests: b_requests }) => (same_view_vec(&(*a_requests), &(*b_requests))),
            (QueueCommand::Remove { item_id: a_item_id }, QueueCommand::Remove { item_id: b_item_id }) => (*a_item_id == *b_item_id),
            (QueueCommand::Move { item_id: a_item_id, before: a_before }, QueueCommand::Move { item_id: b_item_id, before: b_before }) => (*a_item_id == *b_item_id) && (*a_before == *b_before),
            (QueueCommand::ReorderPending { pending_order: a_pending_order }, QueueCommand::ReorderPending { pending_order: b_pending_order }) => (same_plain_vec(&(*a_pending_order), &(*b_pending_order))),
            (QueueCommand::Clear, QueueCommand::Clear) => true,
            (QueueCommand::ClearCompleted, QueueCommand::ClearCompleted) => true,
            (QueueCommand::Retry { item_id: a_item_id }, QueueCommand::Retry { item_id: b_item_id }) => (*a_item_id == *b_item_id),
            (QueueCommand::Edit { item_id: a_item_id, patch: a_patch }, QueueCommand::Edit { item_id: b_item_id, patch: b_patch }) => (*a_item_id == *b_item_id) && ((*a_patch).same_view(&(*b_patch))),
            _ => false,
        }
    }
}

/// Session operations.
#[derive(Clone, Copy, Debug, PartialEq, Eq, Structural)]
pub enum SessionCommand {
    Start,
    StopAfterCurrent,
    ForceStop,
}

impl View for SessionCommand {
    type V = SessionCommand;

    open spec fn view(&self) -> SessionCommand {
        *self
    }
}

impl Duplicate for SessionCommand {
    fn duplicate(&self) -> (copy: Self) {
        *self
    }
}

impl SameView for SessionCommand {
    fn same_view(&self, other: &Self) -> (same: bool) {
        *self == *other
    }
}

impl Plain for SessionCommand {
    proof fn lemma_view_is_self(&self) {
    }
}

/// User-initiated vendor operations.
#[derive(Clone, Copy, Debug, PartialEq, Eq, Structural)]
pub enum VendorCommand {
    Install,
    Check,
}

impl View for VendorCommand {
    type V = VendorCommand;

    open spec fn view(&self) -> VendorCommand {
        *self
    }
}

impl Duplicate for VendorCommand {
    fn duplicate(&self) -> (copy: Self) {
        *self
    }
}

impl SameView for VendorCommand {
    fn same_view(&self, other: &Self) -> (same: bool) {
        *self == *other
    }
}

impl Plain for VendorCommand {
    proof fn lemma_view_is_self(&self) {
    }
}

/// Read-model requests answered from durable state.
#[derive(Clone, Copy, Debug, PartialEq, Eq, Structural)]
pub enum ProjectionCommand {
    RequestStatistics { utc_offset_minutes: i32 },
}

impl View for ProjectionCommand {
    type V = ProjectionCommand;

    open spec fn view(&self) -> ProjectionCommand {
        *self
    }
}

impl Duplicate for ProjectionCommand {
    fn duplicate(&self) -> (copy: Self) {
        *self
    }
}

impl SameView for ProjectionCommand {
    fn same_view(&self, other: &Self) -> (same: bool) {
        *self == *other
    }
}

impl Plain for ProjectionCommand {
    proof fn lemma_view_is_self(&self) {
    }
}

/// Worker events.
#[derive(Clone, Debug, PartialEq, Eq)]
pub enum WorkerCommand {
    ReserveNext { claim_id: ClaimId, run_id: RunId },
    PrepareReserved { item_id: QueueItemId, claim_id: ClaimId, run_id: RunId, observation: Option<Box<MediaObservation>>, import_paths: Vec<ImportPath>, execution: ExecutionSettings },
    AbandonReservation { item_id: QueueItemId, claim_id: ClaimId, run_id: RunId, at: UnixMillis },
    Started { item_id: QueueItemId, claim_id: ClaimId, run_id: RunId, at: UnixMillis },
    Output(OutputDelta),
    RecordAnalysis { item_id: QueueItemId, claim_id: ClaimId, run_id: RunId, result: Box<AnalysisResult> },
    Terminal { item_id: QueueItemId, claim_id: ClaimId, run_id: RunId, outcome: ItemOutcome, at: UnixMillis, phase_spans: Vec<PhaseSpan>, final_telemetry: Option<Telemetry> },
    Crashed { message: String },
    Finished,
}

/// The mathematical value of a [`WorkerCommand`].
pub enum WorkerCommandView {
    ReserveNext { claim_id: ClaimId, run_id: RunId },
    PrepareReserved { item_id: QueueItemId, claim_id: ClaimId, run_id: RunId, observation: Option<MediaObservationView>, import_paths: Seq<ImportPathView>, execution: ExecutionSettingsView },
    AbandonReservation { item_id: QueueItemId, claim_id: ClaimId, run_id: RunId, at: UnixMillis },
    Started { item_id: QueueItemId, claim_id: ClaimId, run_id: RunId, at: UnixMillis },
    Output(OutputDeltaView),
    RecordAnalysis { item_id: QueueItemId, claim_id: ClaimId, run_id: RunId, result: AnalysisResultView },
    Terminal { item_id: QueueItemId, claim_id: ClaimId, run_id: RunId, outcome: ItemOutcomeView, at: UnixMillis, phase_spans: Seq<PhaseSpan>, final_telemetry: Option<Telemetry> },
    Crashed { message: Seq<char> },
    Finished,
}

impl View for WorkerCommand {
    type V = WorkerCommandView;

    open spec fn view(&self) -> WorkerCommandView {
        match self {
            WorkerCommand::ReserveNext { claim_id, run_id } => WorkerCommandView::ReserveNext { claim_id: *claim_id, run_id: *run_id },
            WorkerCommand::PrepareReserved { item_id, claim_id, run_id, observation, import_paths, execution } => WorkerCommandView::PrepareReserved { item_id: *item_id, claim_id: *claim_id, run_id: *run_id, observation: match observation { Some(x) => Some((*x)@), None => None }, import_paths: import_paths@.map_values(|x: ImportPath| x@), execution: execution@ },
            WorkerCommand::AbandonReservation { item_id, claim_id, run_id, at } => WorkerCommandView::AbandonReservation { item_id: *item_id, claim_id: *claim_id, run_id: *run_id, at: *at },
            WorkerCommand::Started { item_id, claim_id, run_id, at } => WorkerCommandView::Started { item_id: *item_id, claim_id: *claim_id, run_id: *run_id, at: *at },
            WorkerCommand::Output(f0) => WorkerCommandView::Output(f0@),
            WorkerCommand::RecordAnalysis { item_id, claim_id, run_id, result } => WorkerCommandView::RecordAnalysis { item_id: *item_id, claim_id: *claim_id, run_id: *run_id, result: result@ },
            WorkerCommand::Terminal { item_id, claim_id, run_id, outcome, at, phase_spans, final_telemetry } => WorkerCommandView::Terminal { item_id: *item_id, claim_id: *claim_id, run_id: *run_id, outcome: outcome@, at: *at, phase_spans: phase_spans@, final_telemetry: *final_telemetry },
            WorkerCommand::Crashed { message } => WorkerCommandView::Crashed { message: message@ },
            WorkerCommand::Finished => WorkerCommandView::Finished,
        }
    }
}

impl Duplicate for WorkerCommand {
    fn duplicate(&self) -> (copy: Self) {
        match self {
            WorkerCommand::ReserveNext { claim_id, run_id } => WorkerCommand::ReserveNext { claim_id: *claim_id, run_id: *run_id },
            WorkerCommand::PrepareReserved { item_id, claim_id, run_id, observation, import_paths, execution } => WorkerCommand::PrepareReserved { item_id: *item_id, claim_id: *claim_id, run_id: *run_id, observation: match &(*observation) { Some(x) => Some(Box::new((*x).duplicate())), None => None }, import_paths: duplicate_vec(&(*import_paths)), execution: (*execution).duplicate() },
            WorkerCommand::AbandonReservation { item_id, claim_id, run_id, at } => WorkerCommand::AbandonReservation { item_id: *item_id, claim_id: *claim_id, run_id: *run_id, at: *at },
            WorkerCommand::Started { item_id, claim_id, run_id, at } => WorkerCommand::Started { item_id: *item_id, claim_id: *claim_id, run_id: *run_id, at: *at },
            WorkerCommand::Output(f0) => WorkerCommand::Output((*f0).duplicate()),
            WorkerCommand::RecordAnalysis { item_id, claim_id, run_id, result } => WorkerCommand::RecordAnalysis { item_id: *item_id, claim_id: *claim_id, run_id: *run_id, result: Box::new((*(*result)).duplicate()) },
            WorkerCommand::Terminal { item_id, claim_id, run_id, outcome, at, phase_spans, final_telemetry } => WorkerCommand::Terminal { item_id: *item_id, claim_id: *claim_id, run_id: *run_id, outcome: (*outcome).duplicate(), at: *at, phase_spans: copy_plain_vec(&(*phase_spans)), final_telemetry: *final_telemetry },
            WorkerCommand::Crashed { message } => WorkerCommand::Crashed { message: (*message).clone() },
            WorkerCommand::Finished => WorkerCommand::Finished,
        }
    }
}

impl SameView for WorkerCommand {
    fn same_view(&self, other: &Self) -> (same: bool) {
        match (self, other) {
            (WorkerCommand::ReserveNext { claim_id: a_claim_id, run_id: a_run_id }, WorkerCommand::ReserveNext { claim_id: b_claim_id, run_id: b_run_id }) => (*a_claim_id == *b_claim_id) && (*a_run_id == *b_run_id),
            (WorkerCommand::PrepareReserved { item_id: a_item_id, claim_id: a_claim_id, run_id: a_run_id, observation: a_observation, import_paths: a_import_paths, execution: a_execution }, WorkerCommand::PrepareReserved { item_id: b_item_id, claim_id: b_claim_id, run_id: b_run_id, observation: b_observation, import_paths: b_import_paths, execution: b_execution }) => (*a_item_id == *b_item_id) && (*a_claim_id == *b_claim_id) && (*a_run_id == *b_run_id) && (match (&(*a_observation), &(*b_observation)) { (Some(x), Some(y)) => (*(*x)).same_view(&*(*y)), (None, None) => true, _ => false }) && (same_view_vec(&(*a_import_paths), &(*b_import_paths))) && ((*a_execution).same_view(&(*b_execution))),
            (WorkerCommand::AbandonReservation { item_id: a_item_id, claim_id: a_claim_id, run_id: a_run_id, at: a_at }, WorkerCommand::AbandonReservation { item_id: b_item_id, claim_id: b_claim_id, run_id: b_run_id, at: b_at }) => (*a_item_id == *b_item_id) && (*a_claim_id == *b_claim_id) && (*a_run_id == *b_run_id) && (*a_at == *b_at),
            (WorkerCommand::Started { item_id: a_item_id, claim_id: a_claim_id, run_id: a_run_id, at: a_at }, WorkerCommand::Started { item_id: b_item_id, claim_id: b_claim_id, run_id: b_run_id, at: b_at }) => (*a_item_id == *b_item_id) && (*a_claim_id == *b_claim_id) && (*a_run_id == *b_run_id) && (*a_at == *b_at),
            (WorkerCommand::Output(a0), WorkerCommand::Output(b0)) => ((*a0).same_view(&(*b0))),
            (WorkerCommand::RecordAnalysis { item_id: a_item_id, claim_id: a_claim_id, run_id: a_run_id, result: a_result }, WorkerCommand::RecordAnalysis { item_id: b_item_id, claim_id: b_claim_id, run_id: b_run_id, result: b_result }) => (*a_item_id == *b_item_id) && (*a_claim_id == *b_claim_id) && (*a_run_id == *b_run_id) && ((*(*a_result)).same_view(&*(*b_result))),
            (WorkerCommand::Terminal { item_id: a_item_id, claim_id: a_claim_id, run_id: a_run_id, outcome: a_outcome, at: a_at, phase_spans: a_phase_spans, final_telemetry: a_final_telemetry }, WorkerCommand::Terminal { item_id: b_item_id, claim_id: b_claim_id, run_id: b_run_id, outcome: b_outcome, at: b_at, phase_spans: b_phase_spans, final_telemetry: b_final_telemetry }) => (*a_item_id == *b_item_id) && (*a_claim_id == *b_claim_id) && (*a_run_id == *b_run_id) && ((*a_outcome).same_view(&(*b_outcome))) && (*a_at == *b_at) && (same_plain_vec(&(*a_phase_spans), &(*b_phase_spans))) && (*a_final_telemetry == *b_final_telemetry),
            (WorkerCommand::Crashed { message: a_message }, WorkerCommand::Crashed { message: b_message }) => ((*a_message).same_view(&(*b_message))),
            (WorkerCommand::Finished, WorkerCommand::Finished) => true,
            _ => false,
        }
    }
}

/// Engine facts and lifecycle commands.
#[derive(Clone, Debug, PartialEq, Eq)]
pub enum SystemCommand {
    Shutdown,
    ToolsDiscovered { availability: ToolAvailability, update_available: bool },
    VendorProgress { activity: VendorActivity },
}

/// The mathematical value of a [`SystemCommand`].
pub enum SystemCommandView {
    Shutdown,
    ToolsDiscovered { availability: ToolAvailabilityView, update_available: bool },
    VendorProgress { activity: VendorActivityView },
}

impl View for SystemCommand {
    type V = SystemCommandView;

    open spec fn view(&self) -> SystemCommandView {
        match self {
            SystemCommand::Shutdown => SystemCommandView::Shutdown,
            SystemCommand::ToolsDiscovered { availability, update_available } => SystemCommandView::ToolsDiscovered { availability: availability@, update_available: *update_available },
            SystemCommand::VendorProgress { activity } => SystemCommandView::VendorProgress { activity: activity@ },
        }
    }
}

impl Duplicate for SystemCommand {
    fn duplicate(&self) -> (copy: Self) {
        match self {
            SystemCommand::Shutdown => SystemCommand::Shutdown,
            SystemCommand::ToolsDiscovered { availability, update_available } => SystemCommand::ToolsDiscovered { availability: (*availability).duplicate(), update_available: *update_available },
            SystemCommand::VendorProgress { activity } => SystemCommand::VendorProgress { activity: (*activity).duplicate() },
        }
    }
}

impl SameView for SystemCommand {
    fn same_view(&self, other: &Self) -> (same: bool) {
        match (self, other) {
            (SystemCommand::Shutdown, SystemCommand::Shutdown) => true,
            (SystemCommand::ToolsDiscovered { availability: a_availability, update_available: a_update_available }, SystemCommand::ToolsDiscovered { availability: b_availability, update_available: b_update_available }) => ((*a_availability).same_view(&(*b_availability))) && (*a_update_available == *b_update_available),
            (SystemCommand::VendorProgress { activity: a_activity }, SystemCommand::VendorProgress { activity: b_activity }) => ((*a_activity).same_view(&(*b_activity))),
            _ => false,
        }
    }
}

/// Every command the reducer applies.
#[derive(Clone, Debug, PartialEq, Eq)]
pub enum Command {
    Analysis(AnalysisCommand),
    Queue(QueueCommand),
    Session(SessionCommand),
    Settings(SettingsCommand),
    Worker(WorkerCommand),
    Vendor(VendorCommand),
    Projection(ProjectionCommand),
    History(HistoryCommand),
    System(SystemCommand),
}

/// The mathematical value of a [`Command`].
pub enum CommandView {
    Analysis(AnalysisCommandView),
    Queue(QueueCommandView),
    Session(SessionCommand),
    Settings(SettingsCommandView),
    Worker(WorkerCommandView),
    Vendor(VendorCommand),
    Projection(ProjectionCommand),
    History(HistoryCommandView),
    System(SystemCommandView),
}

impl View for Command {
    type V = CommandView;

    open spec fn view(&self) -> CommandView {
        match self {
            Command::Analysis(f0) => CommandView::Analysis(f0@),
            Command::Queue(f0) => CommandView::Queue(f0@),
            Command::Session(f0) => CommandView::Session(*f0),
            Command::Settings(f0) => CommandView::Settings(f0@),
            Command::Worker(f0) => CommandView::Worker(f0@),
            Command::Vendor(f0) => CommandView::Vendor(*f0),
            Command::Projection(f0) => CommandView::Projection(*f0),
            Command::History(f0) => CommandView::History(f0@),
            Command::System(f0) => CommandView::System(f0@),
        }
    }
}

impl Duplicate for Command {
    fn duplicate(&self) -> (copy: Self) {
        match self {
            Command::Analysis(f0) => Command::Analysis((*f0).duplicate()),
            Command::Queue(f0) => Command::Queue((*f0).duplicate()),
            Command::Session(f0) => Command::Session(*f0),
            Command::Settings(f0) => Command::Settings((*f0).duplicate()),
            Command::Worker(f0) => Command::Worker((*f0).duplicate()),
            Command::Vendor(f0) => Command::Vendor(*f0),
            Command::Projection(f0) => Command::Projection(*f0),
            Command::History(f0) => Command::History((*f0).duplicate()),
            Command::System(f0) => Command::System((*f0).duplicate()),
        }
    }
}

impl SameView for Command {
    fn same_view(&self, other: &Self) -> (same: bool) {
        match (self, other) {
            (Command::Analysis(a0), Command::Analysis(b0)) => ((*a0).same_view(&(*b0))),
            (Command::Queue(a0), Command::Queue(b0)) => ((*a0).same_view(&(*b0))),
            (Command::Session(a0), Command::Session(b0)) => (*a0 == *b0),
            (Command::Settings(a0), Command::Settings(b0)) => ((*a0).same_view(&(*b0))),
            (Command::Worker(a0), Command::Worker(b0)) => ((*a0).same_view(&(*b0))),
            (Command::Vendor(a0), Command::Vendor(b0)) => (*a0 == *b0),
            (Command::Projection(a0), Command::Projection(b0)) => (*a0 == *b0),
            (Command::History(a0), Command::History(b0)) => ((*a0).same_view(&(*b0))),
            (Command::System(a0), Command::System(b0)) => ((*a0).same_view(&(*b0))),
            _ => false,
        }
    }
}

/// How many adds one skip reason turned away.
#[derive(Clone, Copy, Debug, PartialEq, Eq, Structural)]
pub struct SkipCount {
    pub reason: SkipReason,
    pub count: u32,
}

impl View for SkipCount {
    type V = SkipCount;

    open spec fn view(&self) -> SkipCount {
        *self
    }
}

impl Duplicate for SkipCount {
    fn duplicate(&self) -> (copy: Self) {
        *self
    }
}

impl SameView for SkipCount {
    fn same_view(&self, other: &Self) -> (same: bool) {
        *self == *other
    }
}

impl Plain for SkipCount {
    proof fn lemma_view_is_self(&self) {
    }
}

/// Non-durable changes published on the event stream.
#[derive(Clone, Debug, PartialEq, Eq)]
pub enum EphemeralDelta {
    Analysis(AnalysisDelta),
    SessionChanged(SessionState),
    SessionAggregates(SessionAggregates),
    Telemetry(Telemetry),
    TelemetryCleared { run_id: RunId },
    ToolsChanged(ToolsState),
    WorkerCrashed { message: String },
    CommandRejected { reason: String },
    QueueAddSummary { added: u32, skipped: Vec<SkipCount> },
}

/// The mathematical value of a [`EphemeralDelta`].
pub enum EphemeralDeltaView {
    Analysis(AnalysisDeltaView),
    SessionChanged(SessionState),
    SessionAggregates(SessionAggregates),
    Telemetry(Telemetry),
    TelemetryCleared { run_id: RunId },
    ToolsChanged(ToolsStateView),
    WorkerCrashed { message: Seq<char> },
    CommandRejected { reason: Seq<char> },
    QueueAddSummary { added: u32, skipped: Seq<SkipCount> },
}

impl View for EphemeralDelta {
    type V = EphemeralDeltaView;

    open spec fn view(&self) -> EphemeralDeltaView {
        match self {
            EphemeralDelta::Analysis(f0) => EphemeralDeltaView::Analysis(f0@),
            EphemeralDelta::SessionChanged(f0) => EphemeralDeltaView::SessionChanged(*f0),
            EphemeralDelta::SessionAggregates(f0) => EphemeralDeltaView::SessionAggregates(*f0),
            EphemeralDelta::Telemetry(f0) => EphemeralDeltaView::Telemetry(*f0),
            EphemeralDelta::TelemetryCleared { run_id } => EphemeralDeltaView::TelemetryCleared { run_id: *run_id },
            EphemeralDelta::ToolsChanged(f0) => EphemeralDeltaView::ToolsChanged(f0@),
            EphemeralDelta::WorkerCrashed { message } => EphemeralDeltaView::WorkerCrashed { message: message@ },
            EphemeralDelta::CommandRejected { reason } => EphemeralDeltaView::CommandRejected { reason: reason@ },
            EphemeralDelta::QueueAddSummary { added, skipped } => EphemeralDeltaView::QueueAddSummary { added: *added, skipped: skipped@ },
        }
    }
}

impl Duplicate for EphemeralDelta {
    fn duplicate(&self) -> (copy: Self) {
        match self {
            EphemeralDelta::Analysis(f0) => EphemeralDelta::Analysis((*f0).duplicate()),
            EphemeralDelta::SessionChanged(f0) => EphemeralDelta::SessionChanged(*f0),
            EphemeralDelta::SessionAggregates(f0) => EphemeralDelta::SessionAggregates(*f0),
            EphemeralDelta::Telemetry(f0) => EphemeralDelta::Telemetry(*f0),
            EphemeralDelta::TelemetryCleared { run_id } => EphemeralDelta::TelemetryCleared { run_id: *run_id },
            EphemeralDelta::ToolsChanged(f0) => EphemeralDelta::ToolsChanged((*f0).duplicate()),
            EphemeralDelta::WorkerCrashed { message } => EphemeralDelta::WorkerCrashed { message: (*message).clone() },
            EphemeralDelta::CommandRejected { reason } => EphemeralDelta::CommandRejected { reason: (*reason).clone() },
            EphemeralDelta::QueueAddSummary { added, skipped } => EphemeralDelta::QueueAddSummary { added: *added, skipped: copy_plain_vec(&(*skipped)) },
        }
    }
}

impl SameView for EphemeralDelta {
    fn same_view(&self, other: &Self) -> (same: bool) {
        match (self, other) {
            (EphemeralDelta::Analysis(a0), EphemeralDelta::Analysis(b0)) => ((*a0).same_view(&(*b0))),
            (EphemeralDelta::SessionChanged(a0), EphemeralDelta::SessionChanged(b0)) => (*a0 == *b0),
            (EphemeralDelta::SessionAggregates(a0), EphemeralDelta::SessionAggregates(b0)) => (*a0 == *b0),
            (EphemeralDelta::Telemetry(a0), EphemeralDelta::Telemetry(b0)) => (*a0 == *b0),
            (EphemeralDelta::TelemetryCleared { run_id: a_run_id }, EphemeralDelta::TelemetryCleared { run_id: b_run_id }) => (*a_run_id == *b_run_id),
            (EphemeralDelta::ToolsChanged(a0), EphemeralDelta::ToolsChanged(b0)) => ((*a0).same_view(&(*b0))),
            (EphemeralDelta::WorkerCrashed { message: a_message }, EphemeralDelta::WorkerCrashed { message: b_message }) => ((*a_message).same_view(&(*b_message))),
            (EphemeralDelta::CommandRejected { reason: a_reason }, EphemeralDelta::CommandRejected { reason: b_reason }) => ((*a_reason).same_view(&(*b_reason))),
            (EphemeralDelta::QueueAddSummary { added: a_added, skipped: a_skipped }, EphemeralDelta::QueueAddSummary { added: b_added, skipped: b_skipped }) => (*a_added == *b_added) && (same_plain_vec(&(*a_skipped), &(*b_skipped))),
            _ => false,
        }
    }
}

/// Side effects the driver performs after a command applies.
#[derive(Clone, Debug, PartialEq, Eq)]
pub enum Effect {
    StartWorker,
    KillActiveRun { run_id: RunId },
    WriteSettings { settings: Settings },
    VendorInstall,
    VendorCheck,
    PublishStatistics { utc_offset_minutes: i32 },
    StopDriver,
}

/// The mathematical value of a [`Effect`].
pub enum EffectView {
    StartWorker,
    KillActiveRun { run_id: RunId },
    WriteSettings { settings: SettingsView },
    VendorInstall,
    VendorCheck,
    PublishStatistics { utc_offset_minutes: i32 },
    StopDriver,
}

impl View for Effect {
    type V = EffectView;

    open spec fn view(&self) -> EffectView {
        match self {
            Effect::StartWorker => EffectView::StartWorker,
            Effect::KillActiveRun { run_id } => EffectView::KillActiveRun { run_id: *run_id },
            Effect::WriteSettings { settings } => EffectView::WriteSettings { settings: settings@ },
            Effect::VendorInstall => EffectView::VendorInstall,
            Effect::VendorCheck => EffectView::VendorCheck,
            Effect::PublishStatistics { utc_offset_minutes } => EffectView::PublishStatistics { utc_offset_minutes: *utc_offset_minutes },
            Effect::StopDriver => EffectView::StopDriver,
        }
    }
}

impl Duplicate for Effect {
    fn duplicate(&self) -> (copy: Self) {
        match self {
            Effect::StartWorker => Effect::StartWorker,
            Effect::KillActiveRun { run_id } => Effect::KillActiveRun { run_id: *run_id },
            Effect::WriteSettings { settings } => Effect::WriteSettings { settings: (*settings).duplicate() },
            Effect::VendorInstall => Effect::VendorInstall,
            Effect::VendorCheck => Effect::VendorCheck,
            Effect::PublishStatistics { utc_offset_minutes } => Effect::PublishStatistics { utc_offset_minutes: *utc_offset_minutes },
            Effect::StopDriver => Effect::StopDriver,
        }
    }
}

impl SameView for Effect {
    fn same_view(&self, other: &Self) -> (same: bool) {
        match (self, other) {
            (Effect::StartWorker, Effect::StartWorker) => true,
            (Effect::KillActiveRun { run_id: a_run_id }, Effect::KillActiveRun { run_id: b_run_id }) => (*a_run_id == *b_run_id),
            (Effect::WriteSettings { settings: a_settings }, Effect::WriteSettings { settings: b_settings }) => ((*a_settings).same_view(&(*b_settings))),
            (Effect::VendorInstall, Effect::VendorInstall) => true,
            (Effect::VendorCheck, Effect::VendorCheck) => true,
            (Effect::PublishStatistics { utc_offset_minutes: a_utc_offset_minutes }, Effect::PublishStatistics { utc_offset_minutes: b_utc_offset_minutes }) => (*a_utc_offset_minutes == *b_utc_offset_minutes),
            (Effect::StopDriver, Effect::StopDriver) => true,
            _ => false,
        }
    }
}

/// The answer to the caller of one command.
#[derive(Clone, Debug, PartialEq, Eq)]
pub enum Reply {
    Accepted,
    AnalysisStarted { generation: AnalysisGenerationId },
    Reserved(Option<Box<ReservedJob>>),
    Claimed(Option<Box<ClaimedJob>>),
    Imported { parked: u32, skipped: u32 },
    Rejected { reason: String },
}

/// The mathematical value of a [`Reply`].
pub enum ReplyView {
    Accepted,
    AnalysisStarted { generation: AnalysisGenerationId },
    Reserved(Option<ReservedJobView>),
    Claimed(Option<ClaimedJobView>),
    Imported { parked: u32, skipped: u32 },
    Rejected { reason: Seq<char> },
}

impl View for Reply {
    type V = ReplyView;

    open spec fn view(&self) -> ReplyView {
        match self {
            Reply::Accepted => ReplyView::Accepted,
            Reply::AnalysisStarted { generation } => ReplyView::AnalysisStarted { generation: *generation },
            Reply::Reserved(f0) => ReplyView::Reserved(match f0 { Some(x) => Some((*x)@), None => None }),
            Reply::Claimed(f0) => ReplyView::Claimed(match f0 { Some(x) => Some((*x)@), None => None }),
            Reply::Imported { parked, skipped } => ReplyView::Imported { parked: *parked, skipped: *skipped },
            Reply::Rejected { reason } => ReplyView::Rejected { reason: reason@ },
        }
    }
}

impl Duplicate for Reply {
    fn duplicate(&self) -> (copy: Self) {
        match self {
            Reply::Accepted => Reply::Accepted,
            Reply::AnalysisStarted { generation } => Reply::AnalysisStarted { generation: *generation },
            Reply::Reserved(f0) => Reply::Reserved(match &(*f0) { Some(x) => Some(Box::new((*x).duplicate())), None => None }),
            Reply::Claimed(f0) => Reply::Claimed(match &(*f0) { Some(x) => Some(Box::new((*x).duplicate())), None => None }),
            Reply::Imported { parked, skipped } => Reply::Imported { parked: *parked, skipped: *skipped },
            Reply::Rejected { reason } => Reply::Rejected { reason: (*reason).clone() },
        }
    }
}

impl SameView for Reply {
    fn same_view(&self, other: &Self) -> (same: bool) {
        match (self, other) {
            (Reply::Accepted, Reply::Accepted) => true,
            (Reply::AnalysisStarted { generation: a_generation }, Reply::AnalysisStarted { generation: b_generation }) => (*a_generation == *b_generation),
            (Reply::Reserved(a0), Reply::Reserved(b0)) => (match (&(*a0), &(*b0)) { (Some(x), Some(y)) => (*(*x)).same_view(&*(*y)), (None, None) => true, _ => false }),
            (Reply::Claimed(a0), Reply::Claimed(b0)) => (match (&(*a0), &(*b0)) { (Some(x), Some(y)) => (*(*x)).same_view(&*(*y)), (None, None) => true, _ => false }),
            (Reply::Imported { parked: a_parked, skipped: a_skipped }, Reply::Imported { parked: b_parked, skipped: b_skipped }) => (*a_parked == *b_parked) && (*a_skipped == *b_skipped),
            (Reply::Rejected { reason: a_reason }, Reply::Rejected { reason: b_reason }) => ((*a_reason).same_view(&(*b_reason))),
            _ => false,
        }
    }
}

/// Everything one command produced.
#[derive(Clone, Debug, PartialEq, Eq)]
pub struct Applied {
    pub durable: Vec<DurableDelta>,
    pub config: Vec<ConfigDelta>,
    pub ephemeral: Vec<EphemeralDelta>,
    pub effects: Vec<Effect>,
    pub reply: Reply,
}

/// The mathematical value of a [`Applied`].
pub struct AppliedView {
    pub durable: Seq<DurableDeltaView>,
    pub config: Seq<ConfigDeltaView>,
    pub ephemeral: Seq<EphemeralDeltaView>,
    pub effects: Seq<EffectView>,
    pub reply: ReplyView,
}

impl View for Applied {
    type V = AppliedView;

    open spec fn view(&self) -> AppliedView {
        AppliedView {
            durable: self.durable@.map_values(|x: DurableDelta| x@),
            config: self.config@.map_values(|x: ConfigDelta| x@),
            ephemeral: self.ephemeral@.map_values(|x: EphemeralDelta| x@),
            effects: self.effects@.map_values(|x: Effect| x@),
            reply: self.reply@,
        }
    }
}

impl Duplicate for Applied {
    fn duplicate(&self) -> (copy: Self) {
        Applied {
            durable: duplicate_vec(&self.durable),
            config: duplicate_vec(&self.config),
            ephemeral: duplicate_vec(&self.ephemeral),
            effects: duplicate_vec(&self.effects),
            reply: self.reply.duplicate(),
        }
    }
}

impl SameView for Applied {
    fn same_view(&self, other: &Self) -> (same: bool) {
        (same_view_vec(&self.durable, &other.durable))
            && (same_view_vec(&self.config, &other.config))
            && (same_view_vec(&self.ephemeral, &other.ephemeral))
            && (same_view_vec(&self.effects, &other.effects))
            && (self.reply.same_view(&other.reply))
    }
}

} // verus!
