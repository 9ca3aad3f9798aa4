//! Domain types and their mathematical views.
#![allow(unused_imports)]

use vstd::prelude::*;

use crate::model::{Duplicate, SameView, Plain, copy_plain_vec, same_plain_vec};
use crate::{ClaimId, ContentKey, ContentKeyView, QueueItemId, RunId, SkipReason};

verus! {

/// What a queue item asks for.
#[derive(Clone, Copy, Debug, PartialEq, Eq, Structural)]
pub enum Operation {
    Analyze,
    Convert,
}

impl View for Operation {
    type V = Operation;

    open spec fn view(&self) -> Operation {
        *self
    }
}

impl Duplicate for Operation {
    fn duplicate(&self) -> (copy: Self) {
        *self
    }
}

impl SameView for Operation {
    fn same_view(&self, other: &Self) -> (same: bool) {
        *self == *other
    }
}

impl Plain for Operation {
    proof fn lemma_view_is_self(&self) {
    }
}

/// Whether a claim may reuse a recorded search.
#[derive(Clone, Copy, Debug, PartialEq, Eq, Structural)]
pub enum AnalysisIntent {
    ReuseIfFresh,
    Refresh,
}

impl View for AnalysisIntent {
    type V = AnalysisIntent;

    open spec fn view(&self) -> AnalysisIntent {
        *self
    }
}

impl Duplicate for AnalysisIntent {
    fn duplicate(&self) -> (copy: Self) {
        *self
    }
}

impl SameView for AnalysisIntent {
    fn same_view(&self, other: &Self) -> (same: bool) {
        *self == *other
    }
}

impl Plain for AnalysisIntent {
    proof fn lemma_view_is_self(&self) {
    }
}

/// Per-item overwrite choice; `FollowSettings` defers to Settings.
#[derive(Clone, Copy, Debug, PartialEq, Eq, Structural)]
pub enum OverwriteDecision {
    FollowSettings,
    Allow,
    Deny,
}

impl View for OverwriteDecision {
    type V = OverwriteDecision;

    open spec fn view(&self) -> OverwriteDecision {
        *self
    }
}

impl Duplicate for OverwriteDecision {
    fn duplicate(&self) -> (copy: Self) {
        *self
    }
}

impl SameView for OverwriteDecision {
    fn same_view(&self, other: &Self) -> (same: bool) {
        *self == *other
    }
}

impl Plain for OverwriteDecision {
    proof fn lemma_view_is_self(&self) {
    }
}

/// A hardware decoder the tool probe can report.
#[derive(Clone, Copy, Debug, PartialEq, Eq, PartialOrd, Ord, Structural)]
pub enum HardwareDecoder {
    H264Cuvid,
    H264Qsv,
    HevcCuvid,
    HevcQsv,
    Vp9Cuvid,
    Vp9Qsv,
    Av1Cuvid,
    Av1Qsv,
}

impl View for HardwareDecoder {
    type V = HardwareDecoder;

    open spec fn view(&self) -> HardwareDecoder {
        *self
    }
}

impl Duplicate for HardwareDecoder {
    fn duplicate(&self) -> (copy: Self) {
        *self
    }
}

impl SameView for HardwareDecoder {
    fn same_view(&self, other: &Self) -> (same: bool) {
        *self == *other
    }
}

impl Plain for HardwareDecoder {
    proof fn lemma_view_is_self(&self) {
    }
}

/// How a run decodes its source.
#[derive(Clone, Copy, Debug, PartialEq, Eq, Structural)]
pub enum DecodeMode {
    Software,
    Hardware(HardwareDecoder),
}

impl View for DecodeMode {
    type V = DecodeMode;

    open spec fn view(&self) -> DecodeMode {
        *self
    }
}

impl Duplicate for DecodeMode {
    fn duplicate(&self) -> (copy: Self) {
        *self
    }
}

impl SameView for DecodeMode {
    fn same_view(&self, other: &Self) -> (same: bool) {
        *self == *other
    }
}

impl Plain for DecodeMode {
    proof fn lemma_view_is_self(&self) {
    }
}

/// Whether a claim may decode in hardware.
#[derive(Clone, Copy, Debug, PartialEq, Eq, Structural)]
pub enum DecodePreference {
    HardwarePreferred,
    SoftwareOnly,
}

impl View for DecodePreference {
    type V = DecodePreference;

    open spec fn view(&self) -> DecodePreference {
        *self
    }
}

impl Duplicate for DecodePreference {
    fn duplicate(&self) -> (copy: Self) {
        *self
    }
}

impl SameView for DecodePreference {
    fn same_view(&self, other: &Self) -> (same: bool) {
        *self == *other
    }
}

impl Plain for DecodePreference {
    proof fn lemma_view_is_self(&self) {
    }
}

/// Where a conversion's output lands.
#[derive(Clone, Debug, PartialEq, Eq)]
pub enum OutputTarget {
    Replace,
    Suffix { suffix: String },
    SeparateFolder { directory: String, source_root: Option<String> },
}

/// The mathematical value of a [`OutputTarget`].
pub enum OutputTargetView {
    Replace,
    Suffix { suffix: Seq<char> },
    SeparateFolder { directory: Seq<char>, source_root: Option<Seq<char>> },
}

impl View for OutputTarget {
    type V = OutputTargetView;

    open spec fn view(&self) -> OutputTargetView {
        match self {
            OutputTarget::Replace => OutputTargetView::Replace,
            OutputTarget::Suffix { suffix } => OutputTargetView::Suffix { suffix: suffix@ },
            OutputTarget::SeparateFolder { directory, source_root } => OutputTargetView::SeparateFolder { directory: directory@, source_root: match source_root { Some(x) => Some(x@), None => None } },
        }
    }
}

impl Duplicate for OutputTarget {
    fn duplicate(&self) -> (copy: Self) {
        match self {
            OutputTarget::Replace => OutputTarget::Replace,
            OutputTarget::Suffix { suffix } => OutputTarget::Suffix { suffix: (*suffix).clone() },
            OutputTarget::SeparateFolder { directory, source_root } => OutputTarget::SeparateFolder { directory: (*directory).clone(), source_root: match &(*source_root) { Some(x) => Some(x.clone()), None => None } },
        }
    }
}

impl SameView for OutputTarget {
    fn same_view(&self, other: &Self) -> (same: bool) {
        match (self, other) {
            (OutputTarget::Replace, OutputTarget::Replace) => true,
            (OutputTarget::Suffix { suffix: a_suffix }, OutputTarget::Suffix { suffix: b_suffix }) => ((*a_suffix).same_view(&(*b_suffix))),
            (OutputTarget::SeparateFolder { directory: a_directory, source_root: a_source_root }, OutputTarget::SeparateFolder { directory: b_directory, source_root: b_source_root }) => ((*a_directory).same_view(&(*b_directory))) && (match (&(*a_source_root), &(*b_source_root)) { (Some(x), Some(y)) => (*x).same_view(&(*y)), (None, None) => true, _ => false }),
            _ => false,
        }
    }
}

/// A requested VMAF quality target.
#[derive(Clone, Copy, Debug, PartialEq, Eq, PartialOrd, Ord, Structural)]
pub struct VmafTarget(pub u8);

impl View for VmafTarget {
    type V = VmafTarget;

    open spec fn view(&self) -> VmafTarget {
        *self
    }
}

impl Duplicate for VmafTarget {
    fn duplicate(&self) -> (copy: Self) {
        *self
    }
}

impl SameView for VmafTarget {
    fn same_view(&self, other: &Self) -> (same: bool) {
        *self == *other
    }
}

impl Plain for VmafTarget {
    proof fn lemma_view_is_self(&self) {
    }
}

/// A VMAF score in hundredths.
#[derive(Clone, Copy, Debug, PartialEq, Eq, Structural)]
pub struct VmafScore(pub u16);

impl View for VmafScore {
    type V = VmafScore;

    open spec fn view(&self) -> VmafScore {
        *self
    }
}

impl Duplicate for VmafScore {
    fn duplicate(&self) -> (copy: Self) {
        *self
    }
}

impl SameView for VmafScore {
    fn same_view(&self, other: &Self) -> (same: bool) {
        *self == *other
    }
}

impl Plain for VmafScore {
    proof fn lemma_view_is_self(&self) {
    }
}

/// A CRF value in thousandths.
#[derive(Clone, Copy, Debug, PartialEq, Eq, Structural)]
pub struct Crf(pub u32);

impl View for Crf {
    type V = Crf;

    open spec fn view(&self) -> Crf {
        *self
    }
}

impl Duplicate for Crf {
    fn duplicate(&self) -> (copy: Self) {
        *self
    }
}

impl SameView for Crf {
    fn same_view(&self, other: &Self) -> (same: bool) {
        *self == *other
    }
}

impl Plain for Crf {
    proof fn lemma_view_is_self(&self) {
    }
}

/// Everything a search result depends on besides the target.
#[derive(Clone, Debug, PartialEq, Eq)]
pub struct AnalysisProfile {
    pub preset: u8,
    pub max_encoded_percent_basis_points: u32,
    pub samples: Option<u64>,
    pub sample_duration_ms: u64,
    pub thorough: bool,
    pub decode_mode: DecodeMode,
    pub ab_av1_revision: String,
    pub ffmpeg_revision: String,
    pub encoder_revision: String,
}

/// The mathematical value of a [`AnalysisProfile`].
pub struct AnalysisProfileView {
    pub preset: u8,
    pub max_encoded_percent_basis_points: u32,
    pub samples: Option<u64>,
    pub sample_duration_ms: u64,
    pub thorough: bool,
    pub decode_mode: DecodeMode,
    pub ab_av1_revision: Seq<char>,
    pub ffmpeg_revision: Seq<char>,
    pub encoder_revision: Seq<char>,
}

impl View for AnalysisProfile {
    type V = AnalysisProfileView;

    open spec fn view(&self) -> AnalysisProfileView {
        AnalysisProfileView {
            preset: self.preset,
            max_encoded_percent_basis_points: self.max_encoded_percent_basis_points,
            samples: self.samples,
            sample_duration_ms: self.sample_duration_ms,
            thorough: self.thorough,
            decode_mode: self.decode_mode,
            ab_av1_revision: self.ab_av1_revision@,
            ffmpeg_revision: self.ffmpeg_revision@,
            encoder_revision: self.encoder_revision@,
        }
    }
}

impl Duplicate for AnalysisProfile {
    fn duplicate(&self) -> (copy: Self) {
        AnalysisProfile {
            preset: self.preset,
            max_encoded_percent_basis_points: self.max_encoded_percent_basis_points,
            samples: self.samples,
            sample_duration_ms: self.sample_duration_ms,
            thorough: self.thorough,
            decode_mode: self.decode_mode,
            ab_av1_revision: self.ab_av1_revision.clone(),
            ffmpeg_revision: self.ffmpeg_revision.clone(),
            encoder_revision: self.encoder_revision.clone(),
        }
    }
}

impl SameView for AnalysisProfile {
    fn same_view(&self, other: &Self) -> (same: bool) {
        (self.preset == other.preset)
            && (self.max_encoded_percent_basis_points == other.max_encoded_percent_basis_points)
            && (self.samples == other.samples)
            && (self.sample_duration_ms == other.sample_duration_ms)
            && (self.thorough == other.thorough)
            && (self.decode_mode == other.decode_mode)
            && (self.ab_av1_revision.same_view(&other.ab_av1_revision))
            && (self.ffmpeg_revision.same_view(&other.ffmpeg_revision))
            && (self.encoder_revision.same_view(&other.encoder_revision))
    }
}

/// Verified revisions of the external tools.
#[derive(Clone, Debug, PartialEq, Eq)]
pub struct ToolRevisions {
    pub ab_av1: String,
    pub ffmpeg: String,
    pub encoder: String,
}

/// The mathematical value of a [`ToolRevisions`].
pub struct ToolRevisionsView {
    pub ab_av1: Seq<char>,
    pub ffmpeg: Seq<char>,
    pub encoder: Seq<char>,
}

impl View for ToolRevisions {
    type V = ToolRevisionsView;

    open spec fn view(&self) -> ToolRevisionsView {
        ToolRevisionsView {
            ab_av1: self.ab_av1@,
            ffmpeg: self.ffmpeg@,
            encoder: self.encoder@,
        }
    }
}

impl Duplicate for ToolRevisions {
    fn duplicate(&self) -> (copy: Self) {
        ToolRevisions {
            ab_av1: self.ab_av1.clone(),
            ffmpeg: self.ffmpeg.clone(),
            encoder: self.encoder.clone(),
        }
    }
}

impl SameView for ToolRevisions {
    fn same_view(&self, other: &Self) -> (same: bool) {
        (self.ab_av1.same_view(&other.ab_av1))
            && (self.ffmpeg.same_view(&other.ffmpeg))
            && (self.encoder.same_view(&other.encoder))
    }
}

/// The execution a claim freezes into its job.
#[derive(Clone, Debug, PartialEq, Eq)]
pub struct ExecutionSettings {
    pub requested_target: VmafTarget,
    pub fallback_floor: VmafTarget,
    pub fallback_step: u8,
    pub overwrite_existing: bool,
    pub decode_preference: DecodePreference,
    pub profile: AnalysisProfile,
}

/// The mathematical value of a [`ExecutionSettings`].
pub struct ExecutionSettingsView {
    pub requested_target: VmafTarget,
    pub fallback_floor: VmafTarget,
    pub fallback_step: u8,
    pub overwrite_existing: bool,
    pub decode_preference: DecodePreference,
    pub profile: AnalysisProfileView,
}

impl View for ExecutionSettings {
    type V = ExecutionSettingsView;

    open spec fn view(&self) -> ExecutionSettingsView {
        ExecutionSettingsView {
            requested_target: self.requested_target,
            fallback_floor: self.fallback_floor,
            fallback_step: self.fallback_step,
            overwrite_existing: self.overwrite_existing,
            decode_preference: self.decode_preference,
            profile: self.profile@,
        }
    }
}

impl Duplicate for ExecutionSettings {
    fn duplicate(&self) -> (copy: Self) {
        ExecutionSettings {
            requested_target: self.requested_target,
            fallback_floor: self.fallback_floor,
            fallback_step: self.fallback_step,
            overwrite_existing: self.overwrite_existing,
            decode_preference: self.decode_preference,
            profile: self.profile.duplicate(),
        }
    }
}

impl SameView for ExecutionSettings {
    fn same_view(&self, other: &Self) -> (same: bool) {
        (self.requested_target == other.requested_target)
            && (self.fallback_floor == other.fallback_floor)
            && (self.fallback_step == other.fallback_step)
            && (self.overwrite_existing == other.overwrite_existing)
            && (self.decode_preference == other.decode_preference)
            && (self.profile.same_view(&other.profile))
    }
}

/// What a quality search found for one target.
#[derive(Clone, Copy, Debug, PartialEq, Eq, Structural)]
pub struct SearchMeasurement {
    pub crf: Crf,
    pub score: VmafScore,
    pub predicted_size: u64,
    pub predicted_percent_basis_points: u32,
    pub predicted_duration_ms: u64,
    pub from_cache: bool,
}

impl View for SearchMeasurement {
    type V = SearchMeasurement;

    open spec fn view(&self) -> SearchMeasurement {
        *self
    }
}

impl Duplicate for SearchMeasurement {
    fn duplicate(&self) -> (copy: Self) {
        *self
    }
}

impl SameView for SearchMeasurement {
    fn same_view(&self, other: &Self) -> (same: bool) {
        *self == *other
    }
}

impl Plain for SearchMeasurement {
    proof fn lemma_view_is_self(&self) {
    }
}

/// One failed target of a fallback search.
#[derive(Clone, Copy, Debug, PartialEq, Eq, Structural)]
pub struct AnalysisAttempt {
    pub target: VmafTarget,
    pub last_measurement: Option<SearchMeasurement>,
}

impl View for AnalysisAttempt {
    type V = AnalysisAttempt;

    open spec fn view(&self) -> AnalysisAttempt {
        *self
    }
}

impl Duplicate for AnalysisAttempt {
    fn duplicate(&self) -> (copy: Self) {
        *self
    }
}

impl SameView for AnalysisAttempt {
    fn same_view(&self, other: &Self) -> (same: bool) {
        *self == *other
    }
}

impl Plain for AnalysisAttempt {
    proof fn lemma_view_is_self(&self) {
    }
}

/// A completed quality search.
#[derive(Clone, Debug, PartialEq, Eq)]
pub struct AnalysisResult {
    pub requested_target: VmafTarget,
    pub successful_target: VmafTarget,
    pub fallback_floor: VmafTarget,
    pub fallback_step: u8,
    pub failed_attempts: Vec<AnalysisAttempt>,
    pub measurement: SearchMeasurement,
    pub profile: AnalysisProfile,
}

/// The mathematical value of a [`AnalysisResult`].
pub struct AnalysisResultView {
    pub requested_target: VmafTarget,
    pub successful_target: VmafTarget,
    pub fallback_floor: VmafTarget,
    pub fallback_step: u8,
    pub failed_attempts: Seq<AnalysisAttempt>,
    pub measurement: SearchMeasurement,
    pub profile: AnalysisProfileView,
}

impl View for AnalysisResult {
    type V = AnalysisResultView;

    open spec fn view(&self) -> AnalysisResultView {
        AnalysisResultView {
            requested_target: self.requested_target,
            successful_target: self.successful_target,
            fallback_floor: self.fallback_floor,
            fallback_step: self.fallback_step,
            failed_attempts: self.failed_attempts@,
            measurement: self.measurement,
            profile: self.profile@,
        }
    }
}

impl Duplicate for AnalysisResult {
    fn duplicate(&self) -> (copy: Self) {
        AnalysisResult {
            requested_target: self.requested_target,
            successful_target: self.successful_target,
            fallback_floor: self.fallback_floor,
            fallback_step: self.fallback_step,
            failed_attempts: copy_plain_vec(&self.failed_attempts),
            measurement: self.measurement,
            profile: self.profile.duplicate(),
        }
    }
}

impl SameView for AnalysisResult {
    fn same_view(&self, other: &Self) -> (same: bool) {
        (self.requested_target == other.requested_target)
            && (self.successful_target == other.successful_target)
            && (self.fallback_floor == other.fallback_floor)
            && (self.fallback_step == other.fallback_step)
            && (same_plain_vec(&self.failed_attempts, &other.failed_attempts))
            && (self.measurement == other.measurement)
            && (self.profile.same_view(&other.profile))
    }
}

/// What a prepared job will do.
#[derive(Clone, Debug, PartialEq, Eq)]
pub enum JobAction {
    Skip { reason: SkipReason },
    Remux,
    Analyze { selected_analysis: Option<Box<AnalysisResult>> },
    Encode { selected_analysis: Option<Box<AnalysisResult>> },
}

/// The mathematical value of a [`JobAction`].
pub enum JobActionView {
    Skip { reason: SkipReason },
    Remux,
    Analyze { selected_analysis: Option<AnalysisResultView> },
    Encode { selected_analysis: Option<AnalysisResultView> },
}

impl View for JobAction {
    type V = JobActionView;

    open spec fn view(&self) -> JobActionView {
        match self {
            JobAction::Skip { reason } => JobActionView::Skip { reason: *reason },
            JobAction::Remux => JobActionView::Remux,
            JobAction::Analyze { selected_analysis } => JobActionView::Analyze { selected_analysis: match selected_analysis { Some(x) => Some((*x)@), None => None } },
            JobAction::Encode { selected_analysis } => JobActionView::Encode { selected_analysis: match selected_analysis { Some(x) => Some((*x)@), None => None } },
        }
    }
}

impl Duplicate for JobAction {
    fn duplicate(&self) -> (copy: Self) {
        match self {
            JobAction::Skip { reason } => JobAction::Skip { reason: *reason },
            JobAction::Remux => JobAction::Remux,
            JobAction::Analyze { selected_analysis } => JobAction::Analyze { selected_analysis: match &(*selected_analysis) { Some(x) => Some(Box::new((*x).duplicate())), None => None } },
            JobAction::Encode { selected_analysis } => JobAction::Encode { selected_analysis: match &(*selected_analysis) { Some(x) => Some(Box::new((*x).duplicate())), None => None } },
        }
    }
}

impl SameView for JobAction {
    fn same_view(&self, other: &Self) -> (same: bool) {
        match (self, other) {
            (JobAction::Skip { reason: a_reason }, JobAction::Skip { reason: b_reason }) => (*a_reason == *b_reason),
            (JobAction::Remux, JobAction::Remux) => true,
            (JobAction::Analyze { selected_analysis: a_selected_analysis }, JobAction::Analyze { selected_analysis: b_selected_analysis }) => (match (&(*a_selected_analysis), &(*b_selected_analysis)) { (Some(x), Some(y)) => (*(*x)).same_view(&*(*y)), (None, None) => true, _ => false }),
            (JobAction::Encode { selected_analysis: a_selected_analysis }, JobAction::Encode { selected_analysis: b_selected_analysis }) => (match (&(*a_selected_analysis), &(*b_selected_analysis)) { (Some(x), Some(y)) => (*(*x)).same_view(&*(*y)), (None, None) => true, _ => false }),
            _ => false,
        }
    }
}

/// The frozen description of one prepared run.
#[derive(Clone, Debug, PartialEq, Eq)]
pub struct JobSpec {
    pub item_id: QueueItemId,
    pub claim_id: ClaimId,
    pub run_id: RunId,
    pub input: String,
    pub content_key: Option<ContentKey>,
    pub operation: Operation,
    pub intent: AnalysisIntent,
    pub output_target: OutputTarget,
    pub execution: ExecutionSettings,
    pub action: JobAction,
}

/// The mathematical value of a [`JobSpec`].
pub struct JobSpecView {
    pub item_id: QueueItemId,
    pub claim_id: ClaimId,
    pub run_id: RunId,
    pub input: Seq<char>,
    pub content_key: Option<ContentKeyView>,
    pub operation: Operation,
    pub intent: AnalysisIntent,
    pub output_target: OutputTargetView,
    pub execution: ExecutionSettingsView,
    pub action: JobActionView,
}

impl View for JobSpec {
    type V = JobSpecView;

    open spec fn view(&self) -> JobSpecView {
        JobSpecView {
            item_id: self.item_id,
            claim_id: self.claim_id,
            run_id: self.run_id,
            input: self.input@,
            content_key: match self.content_key { Some(x) => Some(x@), None => None },
            operation: self.operation,
            intent: self.intent,
            output_target: self.output_target@,
            execution: self.execution@,
            action: self.action@,
        }
    }
}

impl Duplicate for JobSpec {
    fn duplicate(&self) -> (copy: Self) {
        JobSpec {
            item_id: self.item_id,
            claim_id: self.claim_id,
            run_id: self.run_id,
            input: self.input.clone(),
            content_key: match &self.content_key { Some(x) => Some(x.duplicate()), None => None },
            operation: self.operation,
            intent: self.intent,
            output_target: self.output_target.duplicate(),
            execution: self.execution.duplicate(),
            action: self.action.duplicate(),
        }
    }
}

impl SameView for JobSpec {
    fn same_view(&self, other: &Self) -> (same: bool) {
        (self.item_id == other.item_id)
            && (self.claim_id == other.claim_id)
            && (self.run_id == other.run_id)
            && (self.input.same_view(&other.input))
            && (match (&self.content_key, &other.content_key) { (Some(x), Some(y)) => (*x).same_view(&(*y)), (None, None) => true, _ => false })
            && (self.operation == other.operation)
            && (self.intent == other.intent)
            && (self.output_target.same_view(&other.output_target))
            && (self.execution.same_view(&other.execution))
            && (self.action.same_view(&other.action))
    }
}

/// A queue item reserved for the worker, before its file is observed.
#[derive(Clone, Debug, PartialEq, Eq)]
pub struct ReservedJob {
    pub item_id: QueueItemId,
    pub claim_id: ClaimId,
    pub run_id: RunId,
    pub input: String,
    pub operation: Operation,
    pub intent: AnalysisIntent,
    pub output_target: OutputTarget,
}

/// The mathematical value of a [`ReservedJob`].
pub struct ReservedJobView {
    pub item_id: QueueItemId,
    pub claim_id: ClaimId,
    pub run_id: RunId,
    pub input: Seq<char>,
    pub operation: Operation,
    pub intent: AnalysisIntent,
    pub output_target: OutputTargetView,
}

impl View for ReservedJob {
    type V = ReservedJobView;

    open spec fn view(&self) -> ReservedJobView {
        ReservedJobView {
            item_id: self.item_id,
            claim_id: self.claim_id,
            run_id: self.run_id,
            input: self.input@,
            operation: self.operation,
            intent: self.intent,
            output_target: self.output_target@,
        }
    }
}

impl Duplicate for ReservedJob {
    fn duplicate(&self) -> (copy: Self) {
        ReservedJob {
            item_id: self.item_id,
            claim_id: self.claim_id,
            run_id: self.run_id,
            input: self.input.clone(),
            operation: self.operation,
            intent: self.intent,
            output_target: self.output_target.duplicate(),
        }
    }
}

impl SameView for ReservedJob {
    fn same_view(&self, other: &Self) -> (same: bool) {
        (self.item_id == other.item_id)
            && (self.claim_id == other.claim_id)
            && (self.run_id == other.run_id)
            && (self.input.same_view(&other.input))
            && (self.operation == other.operation)
            && (self.intent == other.intent)
            && (self.output_target.same_view(&other.output_target))
    }
}

/// A prepared job handed to the worker.
#[derive(Clone, Debug, PartialEq, Eq)]
pub struct ClaimedJob {
    pub spec: JobSpec,
}

/// The mathematical value of a [`ClaimedJob`].
pub struct ClaimedJobView {
    pub spec: JobSpecView,
}

impl View for ClaimedJob {
    type V = ClaimedJobView;

    open spec fn view(&self) -> ClaimedJobView {
        ClaimedJobView {
            spec: self.spec@,
        }
    }
}

impl Duplicate for ClaimedJob {
    fn duplicate(&self) -> (copy: Self) {
        ClaimedJob {
            spec: self.spec.duplicate(),
        }
    }
}

impl SameView for ClaimedJob {
    fn same_view(&self, other: &Self) -> (same: bool) {
        (self.spec.same_view(&other.spec))
    }
}

/// Phases of one run.
#[derive(Clone, Copy, Debug, PartialEq, Eq, Structural)]
pub enum JobPhase {
    Preparing,
    Analyzing,
    Encoding,
    Remuxing,
    Verifying,
    Finalizing,
}

impl View for JobPhase {
    type V = JobPhase;

    open spec fn view(&self) -> JobPhase {
        *self
    }
}

impl Duplicate for JobPhase {
    fn duplicate(&self) -> (copy: Self) {
        *self
    }
}

impl SameView for JobPhase {
    fn same_view(&self, other: &Self) -> (same: bool) {
        *self == *other
    }
}

impl Plain for JobPhase {
    proof fn lemma_view_is_self(&self) {
    }
}

} // verus!
