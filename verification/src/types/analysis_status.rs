//! Domain types and their mathematical views.
#![allow(unused_imports)]

use vstd::prelude::*;

use crate::model::{Duplicate, SameView, Plain};
use crate::{Crf, DurationMs, ExecutionUnavailable, RunId, SkipReason, UnixMillis, VmafScore, VmafTarget};

verus! {

/// Why a scanned row has no reusable analysis.
#[derive(Clone, Copy, Debug, PartialEq, Eq, Structural)]
pub enum ReuseStanding {
    Unanalyzed,
    Inapplicable,
    ToolchainUnverified { reason: ExecutionUnavailable },
}

impl View for ReuseStanding {
    type V = ReuseStanding;

    open spec fn view(&self) -> ReuseStanding {
        *self
    }
}

impl Duplicate for ReuseStanding {
    fn duplicate(&self) -> (copy: Self) {
        *self
    }
}

impl SameView for ReuseStanding {
    fn same_view(&self, other: &Self) -> (same: bool) {
        *self == *other
    }
}

impl Plain for ReuseStanding {
    proof fn lemma_view_is_self(&self) {
    }
}

/// The highest tier a content is known to have reached.
#[derive(Clone, Copy, Debug, PartialEq, Eq, PartialOrd, Ord, Structural)]
pub enum HistoricalLevel {
    Scanned,
    Analyzed,
    Converted,
}

impl View for HistoricalLevel {
    type V = HistoricalLevel;

    open spec fn view(&self) -> HistoricalLevel {
        *self
    }
}

impl Duplicate for HistoricalLevel {
    fn duplicate(&self) -> (copy: Self) {
        *self
    }
}

impl SameView for HistoricalLevel {
    fn same_view(&self, other: &Self) -> (same: bool) {
        *self == *other
    }
}

impl Plain for HistoricalLevel {
    proof fn lemma_view_is_self(&self) {
    }
}

/// The prediction of the search a claim would reuse.
#[derive(Clone, Copy, Debug, PartialEq, Eq, Structural)]
pub struct SearchPrediction {
    pub crf: Crf,
    pub score: VmafScore,
    pub predicted_size: u64,
    pub predicted_percent_basis_points: u32,
    pub predicted_duration_ms: u64,
    pub requested_target: VmafTarget,
    pub successful_target: VmafTarget,
}

impl View for SearchPrediction {
    type V = SearchPrediction;

    open spec fn view(&self) -> SearchPrediction {
        *self
    }
}

impl Duplicate for SearchPrediction {
    fn duplicate(&self) -> (copy: Self) {
        *self
    }
}

impl SameView for SearchPrediction {
    fn same_view(&self, other: &Self) -> (same: bool) {
        *self == *other
    }
}

impl Plain for SearchPrediction {
    proof fn lemma_view_is_self(&self) {
    }
}

/// The measured summary of the conversion that decided a content.
#[derive(Clone, Copy, Debug, PartialEq, Eq, Structural)]
pub enum ConversionSummary {
    Encoded { input_size: Option<u64>, output_size: Option<u64>, encoding_time: Option<DurationMs>, crf: Option<Crf>, vmaf: Option<VmafScore>, target: Option<VmafTarget>, decided_at: UnixMillis, source_run: Option<RunId> },
    Remuxed { input_size: Option<u64>, output_size: Option<u64>, decided_at: UnixMillis, source_run: Option<RunId> },
}

impl View for ConversionSummary {
    type V = ConversionSummary;

    open spec fn view(&self) -> ConversionSummary {
        *self
    }
}

impl Duplicate for ConversionSummary {
    fn duplicate(&self) -> (copy: Self) {
        *self
    }
}

impl SameView for ConversionSummary {
    fn same_view(&self, other: &Self) -> (same: bool) {
        *self == *other
    }
}

impl Plain for ConversionSummary {
    proof fn lemma_view_is_self(&self) {
    }
}

/// The highest tier a claim would reuse right now.
#[derive(Clone, Copy, Debug, PartialEq, Eq, Structural)]
pub enum ApplicableLevel {
    Scanned { reuse: ReuseStanding },
    Analyzed { prediction: SearchPrediction },
    Converted { summary: ConversionSummary },
}

impl View for ApplicableLevel {
    type V = ApplicableLevel;

    open spec fn view(&self) -> ApplicableLevel {
        *self
    }
}

impl Duplicate for ApplicableLevel {
    fn duplicate(&self) -> (copy: Self) {
        *self
    }
}

impl SameView for ApplicableLevel {
    fn same_view(&self, other: &Self) -> (same: bool) {
        *self == *other
    }
}

impl Plain for ApplicableLevel {
    proof fn lemma_view_is_self(&self) {
    }
}

/// What a claim for one operation would do with the file.
#[derive(Clone, Copy, Debug, PartialEq, Eq, Structural)]
pub enum RowEligibility {
    Eligible,
    Remux,
    Skip { reason: SkipReason },
}

impl View for RowEligibility {
    type V = RowEligibility;

    open spec fn view(&self) -> RowEligibility {
        *self
    }
}

impl Duplicate for RowEligibility {
    fn duplicate(&self) -> (copy: Self) {
        *self
    }
}

impl SameView for RowEligibility {
    fn same_view(&self, other: &Self) -> (same: bool) {
        *self == *other
    }
}

impl Plain for RowEligibility {
    proof fn lemma_view_is_self(&self) {
    }
}

/// What the current facts, tools, and settings let a claim do with a file.
#[derive(Clone, Copy, Debug, PartialEq, Eq, Structural)]
pub struct AnalysisRowStatus {
    pub applicable: ApplicableLevel,
    pub historical: HistoricalLevel,
    pub analyze: RowEligibility,
    pub convert: RowEligibility,
}

impl View for AnalysisRowStatus {
    type V = AnalysisRowStatus;

    open spec fn view(&self) -> AnalysisRowStatus {
        *self
    }
}

impl Duplicate for AnalysisRowStatus {
    fn duplicate(&self) -> (copy: Self) {
        *self
    }
}

impl SameView for AnalysisRowStatus {
    fn same_view(&self, other: &Self) -> (same: bool) {
        *self == *other
    }
}

impl Plain for AnalysisRowStatus {
    proof fn lemma_view_is_self(&self) {
    }
}

} // verus!
