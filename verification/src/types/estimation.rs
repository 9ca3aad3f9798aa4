//! Domain types and their mathematical views.
#![allow(unused_imports)]

use vstd::prelude::*;

use crate::model::{Duplicate, SameView, Plain};

verus! {

/// Resolution class by pixel count.
#[derive(Clone, Copy, Debug, PartialEq, Eq, PartialOrd, Ord, Structural)]
pub enum ResolutionBucket {
    Sd,
    Hd720,
    Hd1080,
    Qhd1440,
    Uhd4k,
}

impl View for ResolutionBucket {
    type V = ResolutionBucket;

    open spec fn view(&self) -> ResolutionBucket {
        *self
    }
}

impl Duplicate for ResolutionBucket {
    fn duplicate(&self) -> (copy: Self) {
        *self
    }
}

impl SameView for ResolutionBucket {
    fn same_view(&self, other: &Self) -> (same: bool) {
        *self == *other
    }
}

impl Plain for ResolutionBucket {
    proof fn lemma_view_is_self(&self) {
    }
}

/// Which ladder tier answered a historical estimate.
#[derive(Clone, Copy, Debug, PartialEq, Eq, Structural)]
pub enum HistoricalTier {
    CodecResolution,
    Codec,
    Global,
}

impl View for HistoricalTier {
    type V = HistoricalTier;

    open spec fn view(&self) -> HistoricalTier {
        *self
    }
}

impl Duplicate for HistoricalTier {
    fn duplicate(&self) -> (copy: Self) {
        *self
    }
}

impl SameView for HistoricalTier {
    fn same_view(&self, other: &Self) -> (same: bool) {
        *self == *other
    }
}

impl Plain for HistoricalTier {
    proof fn lemma_view_is_self(&self) {
    }
}

/// Where an estimate came from.
#[derive(Clone, Copy, Debug, PartialEq, Eq, Structural)]
pub enum EstimateBasis {
    AnalysisPrediction,
    Historical(HistoricalTier),
}

impl View for EstimateBasis {
    type V = EstimateBasis;

    open spec fn view(&self) -> EstimateBasis {
        *self
    }
}

impl Duplicate for EstimateBasis {
    fn duplicate(&self) -> (copy: Self) {
        *self
    }
}

impl SameView for EstimateBasis {
    fn same_view(&self, other: &Self) -> (same: bool) {
        *self == *other
    }
}

impl Plain for EstimateBasis {
    proof fn lemma_view_is_self(&self) {
    }
}

/// How an estimate is marked.
#[derive(Clone, Copy, Debug, PartialEq, Eq, Structural)]
pub enum EstimateConfidence {
    Precise,
    Estimated,
}

impl View for EstimateConfidence {
    type V = EstimateConfidence;

    open spec fn view(&self) -> EstimateConfidence {
        *self
    }
}

impl Duplicate for EstimateConfidence {
    fn duplicate(&self) -> (copy: Self) {
        *self
    }
}

impl SameView for EstimateConfidence {
    fn same_view(&self, other: &Self) -> (same: bool) {
        *self == *other
    }
}

impl Plain for EstimateConfidence {
    proof fn lemma_view_is_self(&self) {
    }
}

/// An estimated job duration.
#[derive(Clone, Copy, Debug, PartialEq, Eq, Structural)]
pub struct TimeEstimate {
    pub duration_ms: u64,
    pub basis: EstimateBasis,
}

impl View for TimeEstimate {
    type V = TimeEstimate;

    open spec fn view(&self) -> TimeEstimate {
        *self
    }
}

impl Duplicate for TimeEstimate {
    fn duplicate(&self) -> (copy: Self) {
        *self
    }
}

impl SameView for TimeEstimate {
    fn same_view(&self, other: &Self) -> (same: bool) {
        *self == *other
    }
}

impl Plain for TimeEstimate {
    proof fn lemma_view_is_self(&self) {
    }
}

} // verus!
