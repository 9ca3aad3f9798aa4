//! Visiting keyed collections in ascending key order: content records by
//! content key, parked imports by import path, runs by run id. The order is
//! that of a stable insertion sort by key, so equal keys keep their stored
//! order.

use vstd::prelude::*;

use crate::lookup::{entry_views, first_index, lemma_first_index_is, lemma_first_index_none};
use crate::model::views;
use crate::text::{text_less, text_precedes};
use crate::{
    ContentKey, ContentKeyView, ConversionRun, ConversionRunView, FileRecord, FileRecordView, ImportPath, ImportPathView,
    ParkedRecord, ParkedRecordView,
};

verus! {

/// Where position `p` goes in `order`: before the first position whose key
/// sorts after its key.
pub open spec fn slot(order: Seq<usize>, p: usize, less: spec_fn(usize, usize) -> bool) -> int {
    first_index(order, |e: usize| less(p, e))
}

/// `order` with position `p` placed after every position whose key does
/// not sort after its key.
pub open spec fn with_position(order: Seq<usize>, p: usize, less: spec_fn(usize, usize) -> bool) -> Seq<usize> {
    let at = slot(order, p, less);
    if at >= 0 {
        order.insert(at, p)
    } else {
        order.push(p)
    }
}

/// The positions `0..count` in ascending key order, stably.
pub open spec fn sorted_positions(count: nat, less: spec_fn(usize, usize) -> bool) -> Seq<usize>
    decreases count,
{
    if count == 0 {
        Seq::empty()
    } else {
        with_position(sorted_positions((count - 1) as nat, less), (count - 1) as usize, less)
    }
}

/// The items at the given positions, in that order.
pub open spec fn at_positions<T>(items: Seq<T>, order: Seq<usize>) -> Seq<T> {
    order.map_values(|p: usize| items[p as int])
}

/// Whether record `i`'s content key sorts before record `j`'s.
pub open spec fn content_key_less(records: Seq<(ContentKeyView, FileRecordView)>) -> spec_fn(usize, usize) -> bool {
    |i: usize, j: usize| text_less(records[i as int].0.0, records[j as int].0.0)
}

/// Whether parked entry `i`'s import path sorts before entry `j`'s.
pub open spec fn import_path_less(parked: Seq<(ImportPathView, ParkedRecordView)>) -> spec_fn(usize, usize) -> bool {
    |i: usize, j: usize| text_less(parked[i as int].0.0, parked[j as int].0.0)
}

/// Whether run `i`'s id is below run `j`'s.
pub open spec fn run_id_less(runs: Seq<ConversionRunView>) -> spec_fn(usize, usize) -> bool {
    |i: usize, j: usize| runs[i as int].spec.run_id.0 < runs[j as int].spec.run_id.0
}

/// Content records in ascending content-key order.
pub open spec fn records_by_key(records: Seq<(ContentKeyView, FileRecordView)>) -> Seq<(ContentKeyView, FileRecordView)> {
    at_positions(records, sorted_positions(records.len(), content_key_less(records)))
}

/// Parked imports in ascending import-path order.
pub open spec fn parked_by_path(parked: Seq<(ImportPathView, ParkedRecordView)>) -> Seq<(ImportPathView, ParkedRecordView)> {
    at_positions(parked, sorted_positions(parked.len(), import_path_less(parked)))
}

/// Runs in ascending run-id order.
pub open spec fn runs_by_id(runs: Seq<ConversionRunView>) -> Seq<ConversionRunView> {
    at_positions(runs, sorted_positions(runs.len(), run_id_less(runs)))
}

/// Placing one more position: the result of a forward scan for the slot.
proof fn lemma_placed(order: Seq<usize>, p: usize, less: spec_fn(usize, usize) -> bool, at: int)
    requires
        0 <= at <= order.len(),
        forall|k: int| 0 <= k < at ==> !less(p, #[trigger] order[k]),
        at < order.len() ==> less(p, order[at]),
    ensures
        with_position(order, p, less) == order.insert(at, p),
{
    let after = |e: usize| less(p, e);
    if at < order.len() {
        lemma_first_index_is(order, after, at);
    } else {
        lemma_first_index_none(order, after);
        assert(order.insert(at, p) =~= order.push(p));
    }
}


/// Positions of the content records in ascending content-key order.
#[verifier::loop_isolation(false)]
pub fn records_in_key_order(items: &Vec<(ContentKey, FileRecord)>) -> (order: Vec<usize>)
    ensures
        order@ == sorted_positions(items.len() as nat, content_key_less(entry_views(items@))),
        forall|k: int| 0 <= k < order.len() ==> order[k] < items.len(),
{
    let ghost less = content_key_less(entry_views(items@));
    let mut order: Vec<usize> = Vec::new();
    let mut p: usize = 0;
    while p < items.len()
        invariant
            p <= items.len(),
            less == content_key_less(entry_views(items@)),
            order@ == sorted_positions(p as nat, less),
            order.len() == p,
            forall|k: int| 0 <= k < order.len() ==> order[k] < p,
        decreases items.len() - p,
    {
        let mut at: usize = 0;
        while at < order.len()
            invariant
                at <= order.len(),
                forall|k: int| 0 <= k < at ==> !less(p, #[trigger] order@[k]),
            decreases order.len() - at,
        {
            let other = order[at];
            let goes_before = text_precedes(&items[p].0.0, &items[other].0.0);
            assert(goes_before == less(p, order@[at as int]));
            if goes_before {
                break;
            }
            at += 1;
        }
        proof {
            lemma_placed(order@, p, less, at as int);
        }
        order.insert(at, p);
        p += 1;
    }
    order
}

/// Positions of the parked imports in ascending import-path order.
#[verifier::loop_isolation(false)]
pub fn parked_in_path_order(items: &Vec<(ImportPath, ParkedRecord)>) -> (order: Vec<usize>)
    ensures
        order@ == sorted_positions(items.len() as nat, import_path_less(entry_views(items@))),
        forall|k: int| 0 <= k < order.len() ==> order[k] < items.len(),
{
    let ghost less = import_path_less(entry_views(items@));
    let mut order: Vec<usize> = Vec::new();
    let mut p: usize = 0;
    while p < items.len()
        invariant
            p <= items.len(),
            less == import_path_less(entry_views(items@)),
            order@ == sorted_positions(p as nat, less),
            order.len() == p,
            forall|k: int| 0 <= k < order.len() ==> order[k] < p,
        decreases items.len() - p,
    {
        let mut at: usize = 0;
        while at < order.len()
            invariant
                at <= order.len(),
                forall|k: int| 0 <= k < at ==> !less(p, #[trigger] order@[k]),
            decreases order.len() - at,
        {
            let other = order[at];
            let goes_before = text_precedes(&items[p].0.0, &items[other].0.0);
            assert(goes_before == less(p, order@[at as int]));
            if goes_before {
                break;
            }
            at += 1;
        }
        proof {
            lemma_placed(order@, p, less, at as int);
        }
        order.insert(at, p);
        p += 1;
    }
    order
}

/// Positions of the runs in ascending run-id order.
#[verifier::loop_isolation(false)]
pub fn runs_in_id_order(items: &Vec<ConversionRun>) -> (order: Vec<usize>)
    ensures
        order@ == sorted_positions(items.len() as nat, run_id_less(views(items@))),
        forall|k: int| 0 <= k < order.len() ==> order[k] < items.len(),
{
    let ghost less = run_id_less(views(items@));
    let mut order: Vec<usize> = Vec::new();
    let mut p: usize = 0;
    while p < items.len()
        invariant
            p <= items.len(),
            less == run_id_less(views(items@)),
            order@ == sorted_positions(p as nat, less),
            order.len() == p,
            forall|k: int| 0 <= k < order.len() ==> order[k] < p,
        decreases items.len() - p,
    {
        let mut at: usize = 0;
        while at < order.len()
            invariant
                at <= order.len(),
                forall|k: int| 0 <= k < at ==> !less(p, #[trigger] order@[k]),
            decreases order.len() - at,
        {
            let other = order[at];
            let goes_before = items[p].spec.run_id.0 < items[other].spec.run_id.0;
            assert(goes_before == less(p, order@[at as int]));
            if goes_before {
                break;
            }
            at += 1;
        }
        proof {
            lemma_placed(order@, p, less, at as int);
        }
        order.insert(at, p);
        p += 1;
    }
    order
}


/// Whether `less` orders positions strictly: transitive and asymmetric.
pub open spec fn strict_order(less: spec_fn(usize, usize) -> bool) -> bool {
    &&& forall|a: usize, b: usize, c: usize| #[trigger] less(a, b) && #[trigger] less(b, c) ==> less(a, c)
    &&& forall|a: usize, b: usize| #[trigger] less(a, b) ==> !less(b, a)
}

/// Sorting positions under a strict order leaves no position after one
/// whose key sorts after its own.
pub proof fn lemma_sorted_positions_ascending(count: nat, less: spec_fn(usize, usize) -> bool)
    requires
        strict_order(less),
    ensures
        forall|i: int, j: int|
            #![trigger sorted_positions(count, less)[i], sorted_positions(count, less)[j]]
            0 <= i < j < sorted_positions(count, less).len() ==> !less(sorted_positions(count, less)[j], sorted_positions(count, less)[i]),
        sorted_positions(count, less).len() == count,
    decreases count,
{
    if count > 0 {
        let before = sorted_positions((count - 1) as nat, less);
        lemma_sorted_positions_ascending((count - 1) as nat, less);
        let p = (count - 1) as usize;
        let after = |e: usize| less(p, e);
        crate::lookup::lemma_first_index(before, after);
        let at = slot(before, p, less);
        let placed = sorted_positions(count, less);
        let spot = if at >= 0 { at } else { before.len() as int };
        assert(placed == before.insert(spot, p));
        assert forall|i: int, j: int| #![trigger placed[i], placed[j]] 0 <= i < j < placed.len() implies !less(placed[j], placed[i]) by {
            if i == spot {
                assert(placed[j] == before[j - 1]);
                if less(before[j - 1], p) {
                    assert(less(p, before[spot]));
                    if j - 1 > spot {
                        assert(!less(before[j - 1], before[spot]));
                    }
                }
            } else if j == spot {
                assert(placed[i] == before[i]);
                assert(!after(before[i]));
            } else {
                let a = if i < spot { i } else { i - 1 };
                let b = if j < spot { j } else { j - 1 };
                assert(placed[i] == before[a] && placed[j] == before[b]);
            }
        }
    }
}

/// Content records come out in ascending content-key order.
pub proof fn lemma_records_by_key_ascending(records: Seq<(ContentKeyView, FileRecordView)>)
    ensures
        forall|i: int, j: int|
            #![trigger records_by_key(records)[i], records_by_key(records)[j]]
            0 <= i < j < records_by_key(records).len() ==> !text_less(records_by_key(records)[j].0.0, records_by_key(records)[i].0.0),
{
    let less = content_key_less(records);
    assert forall|a: usize, b: usize, c: usize| #[trigger] less(a, b) && #[trigger] less(b, c) implies less(a, c) by {
        crate::text::lemma_text_less_transitive(records[a as int].0.0, records[b as int].0.0, records[c as int].0.0);
    }
    assert forall|a: usize, b: usize| #[trigger] less(a, b) implies !less(b, a) by {
        crate::text::lemma_text_less_asymmetric(records[a as int].0.0, records[b as int].0.0);
    }
    lemma_sorted_positions_ascending(records.len(), less);
}

/// Parked imports come out in ascending import-path order.
pub proof fn lemma_parked_by_path_ascending(parked: Seq<(ImportPathView, ParkedRecordView)>)
    ensures
        forall|i: int, j: int|
            #![trigger parked_by_path(parked)[i], parked_by_path(parked)[j]]
            0 <= i < j < parked_by_path(parked).len() ==> !text_less(parked_by_path(parked)[j].0.0, parked_by_path(parked)[i].0.0),
{
    let less = import_path_less(parked);
    assert forall|a: usize, b: usize, c: usize| #[trigger] less(a, b) && #[trigger] less(b, c) implies less(a, c) by {
        crate::text::lemma_text_less_transitive(parked[a as int].0.0, parked[b as int].0.0, parked[c as int].0.0);
    }
    assert forall|a: usize, b: usize| #[trigger] less(a, b) implies !less(b, a) by {
        crate::text::lemma_text_less_asymmetric(parked[a as int].0.0, parked[b as int].0.0);
    }
    lemma_sorted_positions_ascending(parked.len(), less);
}

/// Runs come out in ascending run-id order.
pub proof fn lemma_runs_by_id_ascending(runs: Seq<ConversionRunView>)
    ensures
        forall|i: int, j: int|
            #![trigger runs_by_id(runs)[i], runs_by_id(runs)[j]]
            0 <= i < j < runs_by_id(runs).len() ==> runs_by_id(runs)[i].spec.run_id.0 <= runs_by_id(runs)[j].spec.run_id.0,
{
    lemma_sorted_positions_ascending(runs.len(), run_id_less(runs));
}

/// The sorted positions are the positions `0..count`, each once at least.
pub proof fn lemma_sorted_positions_cover(count: nat, less: spec_fn(usize, usize) -> bool)
    ensures
        sorted_positions(count, less).len() == count,
        forall|p: usize| p < count ==> #[trigger] sorted_positions(count, less).contains(p),
    decreases count,
{
    if count > 0 {
        let shorter = (count - 1) as nat;
        lemma_sorted_positions_cover(shorter, less);
        let order = sorted_positions(shorter, less);
        let p = (count - 1) as usize;
        crate::lookup::lemma_first_index(order, |e: usize| less(p, e));
        let at = slot(order, p, less);
        let after = sorted_positions(count, less);
        assert forall|q: usize| q < count implies #[trigger] after.contains(q) by {
            if q == count - 1 {
                if at >= 0 {
                    assert(after[at] == p);
                } else {
                    assert(after[order.len() as int] == p);
                }
            } else {
                assert(order.contains(q));
                let k = choose|k: int| 0 <= k < order.len() && order[k] == q;
                if at >= 0 {
                    if k < at {
                        assert(after[k] == order[k]);
                    } else {
                        assert(after[k + 1] == order[k]);
                    }
                } else {
                    assert(after[k] == order[k]);
                }
            }
        }
    }
}

/// Every content record is visited in key order.
pub proof fn lemma_records_by_key_cover(records: Seq<(ContentKeyView, FileRecordView)>, index: int)
    requires
        0 <= index < records.len(),
        records.len() <= usize::MAX,
    ensures
        records_by_key(records).contains(records[index]),
{
    let order = sorted_positions(records.len(), content_key_less(records));
    lemma_sorted_positions_cover(records.len(), content_key_less(records));
    assert(order.contains(index as usize));
    let k = choose|k: int| 0 <= k < order.len() && order[k] == index as usize;
    assert(at_positions(records, order)[k] == records[order[k] as int]);
    assert(records_by_key(records)[k] == records[index]);
}

} // verus!
