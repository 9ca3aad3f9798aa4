//! Domain types and their mathematical views.
#![allow(unused_imports)]

use vstd::prelude::*;

use crate::model::{Duplicate, SameView, duplicate_vec, same_view_vec};
use crate::{DurableDelta, DurableDeltaView, DurableState, DurableStateView, JournalSequence};

verus! {

/// One journal record: a sequenced batch of durable deltas.
#[derive(Clone, Debug, PartialEq, Eq)]
pub struct JournalEnvelope {
    pub schema_version: u32,
    pub sequence: JournalSequence,
    pub deltas: Vec<DurableDelta>,
}

/// The mathematical value of a [`JournalEnvelope`].
pub struct JournalEnvelopeView {
    pub schema_version: u32,
    pub sequence: JournalSequence,
    pub deltas: Seq<DurableDeltaView>,
}

impl View for JournalEnvelope {
    type V = JournalEnvelopeView;

    open spec fn view(&self) -> JournalEnvelopeView {
        JournalEnvelopeView {
            schema_version: self.schema_version,
            sequence: self.sequence,
            deltas: self.deltas@.map_values(|x: DurableDelta| x@),
        }
    }
}

impl Duplicate for JournalEnvelope {
    fn duplicate(&self) -> (copy: Self) {
        JournalEnvelope {
            schema_version: self.schema_version,
            sequence: self.sequence,
            deltas: duplicate_vec(&self.deltas),
        }
    }
}

impl SameView for JournalEnvelope {
    fn same_view(&self, other: &Self) -> (same: bool) {
        (self.schema_version == other.schema_version)
            && (self.sequence == other.sequence)
            && (same_view_vec(&self.deltas, &other.deltas))
    }
}

/// Where replay stopped trusting the journal, and why.
#[derive(Clone, Debug, PartialEq, Eq)]
pub struct JournalCorruption {
    pub offset: u64,
    pub reason: String,
}

/// The mathematical value of a [`JournalCorruption`].
pub struct JournalCorruptionView {
    pub offset: u64,
    pub reason: Seq<char>,
}

impl View for JournalCorruption {
    type V = JournalCorruptionView;

    open spec fn view(&self) -> JournalCorruptionView {
        JournalCorruptionView {
            offset: self.offset,
            reason: self.reason@,
        }
    }
}

impl Duplicate for JournalCorruption {
    fn duplicate(&self) -> (copy: Self) {
        JournalCorruption {
            offset: self.offset,
            reason: self.reason.clone(),
        }
    }
}

impl SameView for JournalCorruption {
    fn same_view(&self, other: &Self) -> (same: bool) {
        (self.offset == other.offset)
            && (self.reason.same_view(&other.reason))
    }
}

/// The state rebuilt from a journal.
#[derive(Clone, Debug, PartialEq, Eq)]
pub struct JournalReplay {
    pub state: DurableState,
    pub next_sequence: JournalSequence,
    pub corruption: Option<JournalCorruption>,
    pub ignored_torn_tail: bool,
}

/// The mathematical value of a [`JournalReplay`].
pub struct JournalReplayView {
    pub state: DurableStateView,
    pub next_sequence: JournalSequence,
    pub corruption: Option<JournalCorruptionView>,
    pub ignored_torn_tail: bool,
}

impl View for JournalReplay {
    type V = JournalReplayView;

    open spec fn view(&self) -> JournalReplayView {
        JournalReplayView {
            state: self.state@,
            next_sequence: self.next_sequence,
            corruption: match self.corruption { Some(x) => Some(x@), None => None },
            ignored_torn_tail: self.ignored_torn_tail,
        }
    }
}

impl Duplicate for JournalReplay {
    fn duplicate(&self) -> (copy: Self) {
        JournalReplay {
            state: self.state.duplicate(),
            next_sequence: self.next_sequence,
            corruption: match &self.corruption { Some(x) => Some(x.duplicate()), None => None },
            ignored_torn_tail: self.ignored_torn_tail,
        }
    }
}

impl SameView for JournalReplay {
    fn same_view(&self, other: &Self) -> (same: bool) {
        (self.state.same_view(&other.state))
            && (self.next_sequence == other.next_sequence)
            && (match (&self.corruption, &other.corruption) { (Some(x), Some(y)) => (*x).same_view(&(*y)), (None, None) => true, _ => false })
            && (self.ignored_torn_tail == other.ignored_torn_tail)
    }
}

} // verus!
