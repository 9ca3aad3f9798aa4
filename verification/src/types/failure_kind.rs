//! Domain types and their mathematical views.
#![allow(unused_imports)]

use vstd::prelude::*;

use crate::model::{Duplicate, SameView, Plain};

verus! {

/// Which class of work failed.
#[derive(Clone, Copy, Debug, PartialEq, Eq, Structural)]
pub enum FailureKind {
    SearchStart,
    SearchRun,
    EncodeStart,
    EncodeRun,
    RemuxStart,
    RemuxRun,
    AdapterPanicked { cleanup_failed: bool },
    OutputPrepare,
    OutputPromote,
    OutputConflict,
    Internal,
}

impl View for FailureKind {
    type V = FailureKind;

    open spec fn view(&self) -> FailureKind {
        *self
    }
}

impl Duplicate for FailureKind {
    fn duplicate(&self) -> (copy: Self) {
        *self
    }
}

impl SameView for FailureKind {
    fn same_view(&self, other: &Self) -> (same: bool) {
        *self == *other
    }
}

impl Plain for FailureKind {
    proof fn lemma_view_is_self(&self) {
    }
}

} // verus!
