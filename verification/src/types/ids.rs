//! Domain types and their mathematical views.
#![allow(unused_imports)]

use vstd::prelude::*;

use crate::model::{Duplicate, SameView, Plain};

verus! {

/// Identity of a queue item, allocated by the caller.
#[derive(Clone, Copy, Debug, PartialEq, Eq, PartialOrd, Ord, Hash, Structural)]
pub struct QueueItemId(pub u64);

impl View for QueueItemId {
    type V = QueueItemId;

    open spec fn view(&self) -> QueueItemId {
        *self
    }
}

impl Duplicate for QueueItemId {
    fn duplicate(&self) -> (copy: Self) {
        *self
    }
}

impl SameView for QueueItemId {
    fn same_view(&self, other: &Self) -> (same: bool) {
        *self == *other
    }
}

impl Plain for QueueItemId {
    proof fn lemma_view_is_self(&self) {
    }
}

/// Identity of one reservation of a queue item.
#[derive(Clone, Copy, Debug, PartialEq, Eq, PartialOrd, Ord, Hash, Structural)]
pub struct ClaimId(pub u64);

impl View for ClaimId {
    type V = ClaimId;

    open spec fn view(&self) -> ClaimId {
        *self
    }
}

impl Duplicate for ClaimId {
    fn duplicate(&self) -> (copy: Self) {
        *self
    }
}

impl SameView for ClaimId {
    fn same_view(&self, other: &Self) -> (same: bool) {
        *self == *other
    }
}

impl Plain for ClaimId {
    proof fn lemma_view_is_self(&self) {
    }
}

/// Identity of one run of a queue item; monotonic across runs.
#[derive(Clone, Copy, Debug, PartialEq, Eq, PartialOrd, Ord, Hash, Structural)]
pub struct RunId(pub u64);

impl View for RunId {
    type V = RunId;

    open spec fn view(&self) -> RunId {
        *self
    }
}

impl Duplicate for RunId {
    fn duplicate(&self) -> (copy: Self) {
        *self
    }
}

impl SameView for RunId {
    fn same_view(&self, other: &Self) -> (same: bool) {
        *self == *other
    }
}

impl Plain for RunId {
    proof fn lemma_view_is_self(&self) {
    }
}

/// Position of one record in the durable journal.
#[derive(Clone, Copy, Debug, PartialEq, Eq, PartialOrd, Ord, Hash, Structural)]
pub struct JournalSequence(pub u64);

impl View for JournalSequence {
    type V = JournalSequence;

    open spec fn view(&self) -> JournalSequence {
        *self
    }
}

impl Duplicate for JournalSequence {
    fn duplicate(&self) -> (copy: Self) {
        *self
    }
}

impl SameView for JournalSequence {
    fn same_view(&self, other: &Self) -> (same: bool) {
        *self == *other
    }
}

impl Plain for JournalSequence {
    proof fn lemma_view_is_self(&self) {
    }
}

/// Identity of one Analysis generation, allocated by the reducer.
#[derive(Clone, Copy, Debug, PartialEq, Eq, PartialOrd, Ord, Hash, Structural)]
pub struct AnalysisGenerationId(pub u64);

impl View for AnalysisGenerationId {
    type V = AnalysisGenerationId;

    open spec fn view(&self) -> AnalysisGenerationId {
        *self
    }
}

impl Duplicate for AnalysisGenerationId {
    fn duplicate(&self) -> (copy: Self) {
        *self
    }
}

impl SameView for AnalysisGenerationId {
    fn same_view(&self, other: &Self) -> (same: bool) {
        *self == *other
    }
}

impl Plain for AnalysisGenerationId {
    proof fn lemma_view_is_self(&self) {
    }
}

/// Identity of one row within an Analysis generation.
#[derive(Clone, Copy, Debug, PartialEq, Eq, PartialOrd, Ord, Hash, Structural)]
pub struct AnalysisRowId(pub u64);

impl View for AnalysisRowId {
    type V = AnalysisRowId;

    open spec fn view(&self) -> AnalysisRowId {
        *self
    }
}

impl Duplicate for AnalysisRowId {
    fn duplicate(&self) -> (copy: Self) {
        *self
    }
}

impl SameView for AnalysisRowId {
    fn same_view(&self, other: &Self) -> (same: bool) {
        *self == *other
    }
}

impl Plain for AnalysisRowId {
    proof fn lemma_view_is_self(&self) {
    }
}

} // verus!
