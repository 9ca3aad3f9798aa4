//! Domain types and their mathematical views.
#![allow(unused_imports)]

use vstd::prelude::*;

use crate::model::{Duplicate, SameView};
use crate::{DiagnosticTail, FailureKind};

verus! {

/// The durable description of a failed run.
#[derive(Clone, Debug, PartialEq, Eq)]
pub struct FailureFacts {
    pub kind: FailureKind,
    pub message: String,
    pub diagnostic: DiagnosticTail,
}

/// The mathematical value of a [`FailureFacts`].
pub struct FailureFactsView {
    pub kind: FailureKind,
    pub message: Seq<char>,
    pub diagnostic: Seq<char>,
}

impl View for FailureFacts {
    type V = FailureFactsView;

    open spec fn view(&self) -> FailureFactsView {
        FailureFactsView {
            kind: self.kind,
            message: self.message@,
            diagnostic: self.diagnostic@,
        }
    }
}

impl Duplicate for FailureFacts {
    fn duplicate(&self) -> (copy: Self) {
        FailureFacts {
            kind: self.kind,
            message: self.message.clone(),
            diagnostic: self.diagnostic.duplicate(),
        }
    }
}

impl SameView for FailureFacts {
    fn same_view(&self, other: &Self) -> (same: bool) {
        (self.kind == other.kind)
            && (self.message.same_view(&other.message))
            && (self.diagnostic.same_view(&other.diagnostic))
    }
}

} // verus!
