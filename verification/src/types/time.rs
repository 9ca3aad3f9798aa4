//! Domain types and their mathematical views.
#![allow(unused_imports)]

use vstd::prelude::*;

use crate::model::{Duplicate, SameView, Plain};

verus! {

/// A wall-clock instant in milliseconds since the Unix epoch. Stamped by the
/// engine and delivered inside command payloads; the library has no clock.
#[derive(Clone, Copy, Debug, PartialEq, Eq, PartialOrd, Ord, Hash, Structural)]
pub struct UnixMillis(pub u64);

impl View for UnixMillis {
    type V = UnixMillis;

    open spec fn view(&self) -> UnixMillis {
        *self
    }
}

impl Duplicate for UnixMillis {
    fn duplicate(&self) -> (copy: Self) {
        *self
    }
}

impl SameView for UnixMillis {
    fn same_view(&self, other: &Self) -> (same: bool) {
        *self == *other
    }
}

impl Plain for UnixMillis {
    proof fn lemma_view_is_self(&self) {
    }
}

/// A duration in milliseconds, measured engine-side with a monotonic clock.
#[derive(Clone, Copy, Debug, PartialEq, Eq, PartialOrd, Ord, Hash, Structural)]
pub struct DurationMs(pub u64);

impl View for DurationMs {
    type V = DurationMs;

    open spec fn view(&self) -> DurationMs {
        *self
    }
}

impl Duplicate for DurationMs {
    fn duplicate(&self) -> (copy: Self) {
        *self
    }
}

impl SameView for DurationMs {
    fn same_view(&self, other: &Self) -> (same: bool) {
        *self == *other
    }
}

impl Plain for DurationMs {
    proof fn lemma_view_is_self(&self) {
    }
}

/// A filesystem modification time in nanoseconds since the Unix epoch.
#[derive(Clone, Copy, Debug, PartialEq, Eq, PartialOrd, Ord, Hash, Structural)]
pub struct FileTimeNs(pub u64);

impl View for FileTimeNs {
    type V = FileTimeNs;

    open spec fn view(&self) -> FileTimeNs {
        *self
    }
}

impl Duplicate for FileTimeNs {
    fn duplicate(&self) -> (copy: Self) {
        *self
    }
}

impl SameView for FileTimeNs {
    fn same_view(&self, other: &Self) -> (same: bool) {
        *self == *other
    }
}

impl Plain for FileTimeNs {
    proof fn lemma_view_is_self(&self) {
    }
}

} // verus!
