//! Pure domain logic for CRFty: queue, journal, media records, analysis
//! read model, output transactions, and the reducer that drives them.

pub mod model;
pub mod types;
pub mod failure;

pub use failure::{DiagnosticTail, DIAGNOSTIC_TAIL_MAX_BYTES};
pub use types::time::{UnixMillis, DurationMs, FileTimeNs};
pub use types::ids::{QueueItemId, ClaimId, RunId, JournalSequence, AnalysisGenerationId, AnalysisRowId};
pub use types::output::{ContentKey, ContentKeyView, ArtifactIdentity, ArtifactIdentityView, ArtifactObservation, ArtifactObservationView, Replacement, OutputState, OutputStateView, OutputTransaction, OutputTransactionView, OutputDelta, OutputDeltaView, FileSystemFacts, FileSystemFactsView, RecoveryConflict, RecoveryConflictView, OutputRecoveryAction, OutputRecoveryActionView};
pub use types::media::{PathHash, PathHashView, ImportPath, ImportPathView, FileSystemId, DestructiveIdentity, FileStamp, PathBinding, PathBindingView, VideoCodec, VideoCodecView, MediaContainer, MediaContainerView, AudioCodec, AudioCodecView, AudioStreamMeta, AudioStreamMetaView, VideoMeta, VideoMetaView, MediaObservation, MediaObservationView, VerdictKind, VerdictKindView, Verdict, VerdictView, ParkedStatus, ParkedRecord, ParkedRecordView, ImportedProvenance, ImportedProvenanceView, FileRecord, FileRecordView};
pub use types::job::{Operation, AnalysisIntent, OverwriteDecision, HardwareDecoder, DecodeMode, DecodePreference, OutputTarget, OutputTargetView, VmafTarget, VmafScore, Crf, AnalysisProfile, AnalysisProfileView, ToolRevisions, ToolRevisionsView, ExecutionSettings, ExecutionSettingsView, SearchMeasurement, AnalysisAttempt, AnalysisResult, AnalysisResultView, JobAction, JobActionView, JobSpec, JobSpecView, ReservedJob, ReservedJobView, ClaimedJob, ClaimedJobView, JobPhase};
pub use types::policy::{SkipReason, Eligibility, ParkedResolution, ParkedResolutionView};
pub use types::failure_kind::{FailureKind};
pub use types::settings::{VideoExtension, DefaultOutputMode, OutputSettings, OutputSettingsView, PrivacySettings, Settings, SettingsView};
pub use types::tools::{MediaTool, ToolSource, LocatedTool, LocatedToolView, LocatedTools, LocatedToolsView, ToolCapability, ProbeFailure, ProbeFailureView, ToolVerification, ToolVerificationView, ToolAvailability, ToolAvailabilityView, VendorActivity, VendorActivityView, ToolsState, ToolsStateView, ExecutionUnavailable};
pub use types::failure_facts::{FailureFacts, FailureFactsView};
pub use types::state::{StreamByteSizes, CompletionEvidence, ItemOutcome, ItemOutcomeView, QueueItemState, QueueItemStateView, QueueItem, QueueItemView, PhaseSpan, SessionAggregates, ConversionRun, ConversionRunView, DurableDelta, DurableDeltaView, DurableState, DurableStateView, ConfigDelta, ConfigDeltaView, SessionState, JobProgress, Telemetry, AppSnapshot, AppSnapshotView, AppState, AppStateView};
pub use types::analysis::{AnalysisRowRef, AnalysisDisplayText, AnalysisDisplayTextView, AnalysisDirectoryFailure, AnalysisDirectoryFailureView, AnalysisDiagnosticTail, AnalysisDiagnosticTailView, AnalysisScanFailure, AnalysisScanFailureView, AnalysisFileScan, AnalysisFileScanView, AnalysisRowEntry, AnalysisRowEntryView, AnalysisRow, AnalysisRowView, AnalysisActivity, AnalysisActivityView, AnalysisGeneration, AnalysisGenerationView, AnalysisSnapshot, AnalysisSnapshotView, AnalysisDelta, AnalysisDeltaView, AnalysisCommand, AnalysisCommandView, BasicScanDisposition, AnalysisMutationError, TimestampReliability, CurrentFileIdentity, FreshnessReason, FreshnessDecision, ObservationStability};
pub use types::analysis_status::{ReuseStanding, HistoricalLevel, SearchPrediction, ConversionSummary, ApplicableLevel, RowEligibility, AnalysisRowStatus};
pub use types::reducer::{HistoryCommand, HistoryCommandView, SettingsCommand, SettingsCommandView, QueueItemEdit, QueueItemEditView, QueueAddRequest, QueueAddRequestView, QueueCommand, QueueCommandView, SessionCommand, VendorCommand, ProjectionCommand, WorkerCommand, WorkerCommandView, SystemCommand, SystemCommandView, Command, CommandView, SkipCount, EphemeralDelta, EphemeralDeltaView, Effect, EffectView, Reply, ReplyView, Applied, AppliedView};
pub use types::observation::{SourceFacts, SourceFactsView, SourceAssessment, SearchEvidence, SearchEvidenceView, MeasuredSizes, EncodeMeasurement, EncodeEvidence, EncodeEvidenceView, RemuxMeasurement, RemuxEvidence, RemuxEvidenceView, ObservedOutcome, ObservedOutcomeView, Observation, ObservationView, DecisiveKind, DecisiveFact, DecisiveFactView, OutputKind, ReductionFact, ReductionFactView, RateSample, RateSampleView, PredictionPair, PredictionPairView};
pub use types::projection::{StatFactKind, StatFact, StatFactView, HistoryStatus, HistoryStatusView, HistoryRowKey, HistoryRowKeyView, HistoryRow, HistoryRowView, RunTotals};
pub use types::journal::{JournalEnvelope, JournalEnvelopeView, JournalCorruption, JournalCorruptionView, JournalReplay, JournalReplayView};
pub use types::estimation::{ResolutionBucket, HistoricalTier, EstimateBasis, EstimateConfidence, TimeEstimate};
pub mod lookup;
pub mod analysis;
pub mod analysis_status;
pub mod constants;
pub mod job;
pub mod text;
pub mod media;
pub mod settings;
pub mod execution;
pub mod output;
pub mod policy;
pub mod state;
pub mod history;
pub mod reducer;
pub mod queue_commands;
pub mod worker_commands;
pub mod journal;
pub mod durability;
pub mod preparation_replay;
pub mod run_records;
pub mod working_runs;
pub mod queue_shape;
pub mod key_order;
pub mod observation;
pub mod projection;
pub mod statistics;
pub mod estimation;
