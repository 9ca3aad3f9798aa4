//! Domain types and their mathematical views.
#![allow(unused_imports)]

use vstd::prelude::*;

use crate::model::{Duplicate, SameView, Plain};
use crate::{RunId, Verdict, VerdictView};

verus! {

/// Why a file is not worked on.
#[derive(Clone, Copy, Debug, PartialEq, Eq, Structural)]
pub enum SkipReason {
    LowResolution { pixels: u64, minimum: u64 },
    AlreadyAv1Matroska,
    OutputExists,
    NotWorthwhile { source_run: Option<RunId> },
    AlreadyConverted { source_run: Option<RunId> },
    ProbableDuplicate { source_run: Option<RunId> },
    AlreadyQueued,
}

impl View for SkipReason {
    type V = SkipReason;

    open spec fn view(&self) -> SkipReason {
        *self
    }
}

impl Duplicate for SkipReason {
    fn duplicate(&self) -> (copy: Self) {
        *self
    }
}

impl SameView for SkipReason {
    fn same_view(&self, other: &Self) -> (same: bool) {
        *self == *other
    }
}

impl Plain for SkipReason {
    proof fn lemma_view_is_self(&self) {
    }
}

/// What eligibility policy allows for a file.
#[derive(Clone, Copy, Debug, PartialEq, Eq, Structural)]
pub enum Eligibility {
    Process,
    Remux,
    Skip(SkipReason),
}

impl View for Eligibility {
    type V = Eligibility;

    open spec fn view(&self) -> Eligibility {
        *self
    }
}

impl Duplicate for Eligibility {
    fn duplicate(&self) -> (copy: Self) {
        *self
    }
}

impl SameView for Eligibility {
    fn same_view(&self, other: &Self) -> (same: bool) {
        *self == *other
    }
}

impl Plain for Eligibility {
    proof fn lemma_view_is_self(&self) {
    }
}

/// What becomes of a parked import record once its file is observed.
#[derive(Clone, Debug, PartialEq, Eq)]
pub enum ParkedResolution {
    /// The record describes this content; `verdict` is `None` for records
    /// that decided nothing.
    Adopt { verdict: Option<Verdict> },
    /// The record no longer describes the file at its path.
    Retire,
}

/// The mathematical value of a [`ParkedResolution`].
pub enum ParkedResolutionView {
    Adopt { verdict: Option<VerdictView> },
    Retire,
}

impl View for ParkedResolution {
    type V = ParkedResolutionView;

    open spec fn view(&self) -> ParkedResolutionView {
        match self {
            ParkedResolution::Adopt { verdict } => ParkedResolutionView::Adopt { verdict: match verdict { Some(x) => Some(x@), None => None } },
            ParkedResolution::Retire => ParkedResolutionView::Retire,
        }
    }
}

impl Duplicate for ParkedResolution {
    fn duplicate(&self) -> (copy: Self) {
        match self {
            ParkedResolution::Adopt { verdict } => ParkedResolution::Adopt { verdict: match &(*verdict) { Some(x) => Some(x.duplicate()), None => None } },
            ParkedResolution::Retire => ParkedResolution::Retire,
        }
    }
}

impl SameView for ParkedResolution {
    fn same_view(&self, other: &Self) -> (same: bool) {
        match (self, other) {
            (ParkedResolution::Adopt { verdict: a_verdict }, ParkedResolution::Adopt { verdict: b_verdict }) => (match (&(*a_verdict), &(*b_verdict)) { (Some(x), Some(y)) => (*x).same_view(&(*y)), (None, None) => true, _ => false }),
            (ParkedResolution::Retire, ParkedResolution::Retire) => true,
            _ => false,
        }
    }
}

} // verus!
