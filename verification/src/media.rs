//! Media facts, content records, and imported provenance.

use vstd::prelude::*;

use crate::lookup::{first_index, lemma_first_index, lemma_first_index_is, lemma_first_index_none, upsert};
use crate::model::{Duplicate, SameView};
use crate::text::{
    lemma_text_less_asymmetric, lemma_text_less_irreflexive, lemma_text_less_total, lemma_text_less_transitive, text_less,
    text_precedes,
};
use crate::{
    AnalysisResult, AnalysisResultView, FileRecord, FileRecordView, ImportedProvenance,
    ImportedProvenanceView, ParkedStatus, VideoMeta, VideoMetaView,
};

verus! {

impl VideoMetaView {
    /// Whether the rotation is a quarter turn, which swaps width and height.
    pub open spec fn quarter_turned(self) -> bool {
        (self.rotation_degrees as int) % 180 == 90
    }

    /// Width and height as displayed, after rotation.
    pub open spec fn displayed_dimensions(self) -> (u32, u32) {
        if self.quarter_turned() {
            (self.height, self.width)
        } else {
            (self.width, self.height)
        }
    }

    /// Pixel count as displayed.
    pub open spec fn displayed_pixels(self) -> nat {
        (self.width as nat) * (self.height as nat)
    }
}

impl VideoMeta {
    /// Width and height after applying the rotation: a quarter turn in
    /// either direction swaps them.
    pub fn post_rotation_dimensions(&self) -> (dimensions: (u32, u32))
        ensures
            dimensions == self@.displayed_dimensions(),
    {
        let shifted: i32 = self.rotation_degrees as i32 + 32_940;
        let remainder = (shifted as u32) % 180;
        assert(remainder == (self.rotation_degrees as int) % 180) by (nonlinear_arith)
            requires
                shifted == self.rotation_degrees as int + 32_940,
                shifted >= 0,
                remainder == (shifted as u32) % 180,
        {
        }
        if remainder == 90 {
            (self.height, self.width)
        } else {
            (self.width, self.height)
        }
    }

    /// Pixel count after rotation; rotation never changes it.
    pub fn post_rotation_pixels(&self) -> (pixels: u64)
        ensures
            pixels == self@.displayed_pixels(),
    {
        let (width, height) = self.post_rotation_dimensions();
        assert((width as u64) * (height as u64) <= u64::MAX) by (nonlinear_arith)
            requires
                width <= u32::MAX,
                height <= u32::MAX,
        {
        }
        assert((width as nat) * (height as nat) == (self.width as nat) * (self.height as nat)) by (nonlinear_arith)
            requires
                (width == self.width && height == self.height) || (width == self.height && height == self.width),
        {
        }
        (width as u64) * (height as u64)
    }
}

/// Whether two search results answer the same (profile, target) slot.
pub open spec fn same_slot(a: AnalysisResultView, b: AnalysisResultView) -> bool {
    a.profile == b.profile && a.successful_target == b.successful_target
}

/// Whether a stored search occupies the slot of `result`.
pub open spec fn slot_of(result: AnalysisResultView) -> spec_fn(AnalysisResultView) -> bool {
    |stored: AnalysisResultView| same_slot(stored, result)
}

impl FileRecord {
    /// A record with media facts only: no searches, no verdict, no import.
    pub fn new(metadata: VideoMeta) -> (record: Self)
        ensures
            record@ == (FileRecordView {
                metadata: metadata@,
                analyses: Seq::empty(),
                verdict: None,
                imported: None,
            }),
    {
        let analyses: Vec<AnalysisResult> = Vec::new();
        assert(analyses@.map_values(|x: AnalysisResult| x@) =~= Seq::<AnalysisResultView>::empty());
        FileRecord { metadata, analyses, verdict: None, imported: None }
    }

    /// Record a search, replacing an earlier search of the same profile
    /// that reached the same target.
    #[verifier::loop_isolation(false)]
    pub fn record_analysis(&mut self, result: AnalysisResult)
        ensures
            final(self)@ == (FileRecordView {
                analyses: upsert(old(self)@.analyses, slot_of(result@), result@),
                ..old(self)@
            }),
    {
        let ghost before = old(self)@.analyses;
        let ghost slot = slot_of(result@);
        let mut index: usize = 0;
        while index < self.analyses.len()
            invariant
                index <= self.analyses.len(),
                self@ == old(self)@,
                forall|k: int| 0 <= k < index ==> !slot(#[trigger] before[k]),
            decreases self.analyses.len() - index,
        {
            if self.analyses[index].profile.same_view(&result.profile)
                && self.analyses[index].successful_target.0 == result.successful_target.0
            {
                proof {
                    lemma_first_index_is(before, slot, index as int);
                }
                self.analyses.set(index, result);
                assert(self@.analyses =~= before.update(index as int, result@));
                return;
            }
            index += 1;
        }
        proof {
            lemma_first_index_none(before, slot);
        }
        self.analyses.push(result);
        assert(self@.analyses =~= before.push(result@));
    }
}

/// Decisive rank of an imported status: a converted record says the most.
pub open spec fn status_rank(status: ParkedStatus) -> u8 {
    match status {
        ParkedStatus::Scanned => 0,
        ParkedStatus::Analyzed => 1,
        ParkedStatus::NotWorthwhile => 2,
        ParkedStatus::Converted => 3,
    }
}

fn rank(status: ParkedStatus) -> (rank: u8)
    ensures
        rank == status_rank(status),
{
    match status {
        ParkedStatus::Scanned => 0,
        ParkedStatus::Analyzed => 1,
        ParkedStatus::NotWorthwhile => 2,
        ParkedStatus::Converted => 3,
    }
}

impl ImportedProvenanceView {
    /// The later decision wins; at the same instant the more decisive status
    /// wins; between equally ranked records the smaller import path wins, so
    /// that the order is total.
    pub open spec fn outranks(self, other: ImportedProvenanceView) -> bool {
        ||| self.record.decided_at.0 > other.record.decided_at.0
        ||| (self.record.decided_at.0 == other.record.decided_at.0 && status_rank(self.record.status) > status_rank(
            other.record.status,
        ))
        ||| (self.record.decided_at.0 == other.record.decided_at.0 && status_rank(self.record.status) == status_rank(
            other.record.status,
        ) && text_less(self.import_path.0, other.import_path.0))
    }
}

impl ImportedProvenance {
    /// Whether this adoption replaces `other` as a content's imported
    /// summary: the later decision wins, at the same instant the more
    /// decisive status wins, and between equals the smaller import path.
    pub fn outranks(&self, other: &ImportedProvenance) -> (wins: bool)
        ensures
            wins == self@.outranks(other@),
    {
        let mine = self.record.decided_at.0;
        let theirs = other.record.decided_at.0;
        if mine != theirs {
            return mine > theirs;
        }
        let my_rank = rank(self.record.status);
        let their_rank = rank(other.record.status);
        if my_rank != their_rank {
            return my_rank > their_rank;
        }
        text_precedes(&self.import_path.0, &other.import_path.0)
    }
}


/// Imported provenance is ranked by a strict total order: nothing outranks
/// itself, of two adoptions from different import paths exactly one
/// outranks the other, and the ranking is transitive. Which adoption a
/// content keeps therefore never depends on the order they are considered.
pub proof fn lemma_provenance_order_is_total(a: ImportedProvenanceView, b: ImportedProvenanceView, c: ImportedProvenanceView)
    ensures
        !a.outranks(a),
        a.import_path != b.import_path ==> (a.outranks(b) || b.outranks(a)),
        a.outranks(b) ==> !b.outranks(a),
        a.outranks(b) && b.outranks(c) ==> a.outranks(c),
{
    lemma_text_less_irreflexive(a.import_path.0);
    if a.import_path != b.import_path {
        assert(a.import_path.0 != b.import_path.0);
        lemma_text_less_total(a.import_path.0, b.import_path.0);
    }
    if text_less(a.import_path.0, b.import_path.0) {
        lemma_text_less_asymmetric(a.import_path.0, b.import_path.0);
    }
    if text_less(a.import_path.0, b.import_path.0) && text_less(b.import_path.0, c.import_path.0) {
        lemma_text_less_transitive(a.import_path.0, b.import_path.0, c.import_path.0);
    }
}

/// A rotation by an odd number of quarter turns, in either direction (…,
/// -270, -90, 90, 270, …), shows the frame with width and height swapped.
pub proof fn lemma_odd_quarter_turns_swap_dimensions(meta: VideoMetaView, turns: int)
    requires
        meta.rotation_degrees == 90 + 180 * turns,
    ensures
        meta.displayed_dimensions() == (meta.height, meta.width),
{
    let r = meta.rotation_degrees as int;
    vstd::arithmetic::div_mod::lemma_fundamental_div_mod_converse(r, 180, turns, 90);
}

/// A rotation strictly within a quarter turn of a multiple of a half turn
/// (every other rotation) shows the frame as stored.
pub proof fn lemma_other_rotations_keep_dimensions(meta: VideoMetaView, half_turns: int)
    requires
        180 * half_turns - 90 < meta.rotation_degrees < 180 * half_turns + 90,
    ensures
        meta.displayed_dimensions() == (meta.width, meta.height),
{
    let r = meta.rotation_degrees as int;
    if r >= 180 * half_turns {
        vstd::arithmetic::div_mod::lemma_fundamental_div_mod_converse(r, 180, half_turns, r - 180 * half_turns);
    } else {
        vstd::arithmetic::div_mod::lemma_fundamental_div_mod_converse(r, 180, half_turns - 1, r - 180 * (half_turns - 1));
    }
}

} // verus!
