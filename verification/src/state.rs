//! The durable state and its fold: every journaled delta, applied in
//! order, rebuilds the queue, the path bindings and content records, the
//! output ledger, the run lineage and the import inbox.

use vstd::prelude::*;

use crate::lookup::{
    entry_views, find_key, first_index, first_match, keyed, lemma_first_index, lemma_first_index_is,
    lemma_first_index_none, put_key, remove_key, upsert, without_key,
};
use crate::media::slot_of;
use crate::model::{views, Duplicate, SameView};
use crate::output::{fold_output, transaction_of, find_output};
use crate::{
    AnalysisIntent, AnalysisResult, AnalysisResultView, ClaimId, CompletionEvidence, ContentKey,
    ContentKeyView, ConversionRun, ConversionRunView, DurableDelta, DurableDeltaView, DurableState,
    DurableStateView, DurationMs, FileRecord, FileRecordView, ImportPath, ImportPathView,
    ImportedProvenance, ImportedProvenanceView, ItemOutcome, ItemOutcomeView, JobPhase, JobSpec,
    JobSpecView, MediaObservation, MediaObservationView, Operation, OutputState, OutputStateView,
    OutputTarget, OutputTargetView, OverwriteDecision, ParkedRecord, ParkedRecordView, PhaseSpan,
    QueueItem, QueueItemId, QueueItemState, QueueItemStateView, QueueItemView, RunId,
    SessionAggregates, UnixMillis, Verdict, VerdictKind, VerdictKindView, VerdictView,
    ConfigDelta, ConfigDeltaView, Settings, SettingsView,
};

verus! {

/// Whether a queue item has id `id`.
pub open spec fn has_id(id: QueueItemId) -> spec_fn(QueueItemView) -> bool {
    |item: QueueItemView| item.id == id
}

/// Whether a queue item is pending: queued and not yet reserved.
pub open spec fn is_pending(item: QueueItemView) -> bool {
    item.state is Queued
}

/// Position of the item with id `id`.
pub fn find_item(queue: &Vec<QueueItem>, id: QueueItemId) -> (found: Option<usize>)
    ensures
        match found {
            Some(index) => index < queue.len() && index as int == first_index(views(queue@), has_id(id)),
            None => first_index(views(queue@), has_id(id)) == -1,
        },
{
    let ghost entries = views(queue@);
    let mut index: usize = 0;
    while index < queue.len()
        invariant
            index <= queue.len(),
            entries == views(queue@),
            forall|k: int| 0 <= k < index ==> !has_id(id)(#[trigger] entries[k]),
        decreases queue.len() - index,
    {
        if queue[index].id.0 == id.0 {
            proof {
                lemma_first_index_is(entries, has_id(id), index as int);
            }
            return Some(index);
        }
        index += 1;
    }
    proof {
        lemma_first_index_none(entries, has_id(id));
    }
    None
}

/// The queue with the item `id` moved to `state`.
pub open spec fn with_item_state(queue: Seq<QueueItemView>, id: QueueItemId, state: QueueItemStateView) -> Seq<QueueItemView> {
    let index = first_index(queue, has_id(id));
    if index >= 0 {
        queue.update(index, QueueItemView { state, ..queue[index] })
    } else {
        queue
    }
}

/// Move the item `id` to `state`, if it is in the queue.
pub fn set_item_state(queue: &mut Vec<QueueItem>, id: QueueItemId, state: QueueItemState)
    ensures
        views(final(queue)@) == with_item_state(views(old(queue)@), id, state@),
{
    let ghost before = views(queue@);
    if let Some(index) = find_item(queue, id) {
        let mut item = queue[index].duplicate();
        item.state = state;
        queue.set(index, item);
        assert(views(queue@) =~= with_item_state(before, id, state@));
    }
}

/// Whether a queue item is not item `id`.
pub open spec fn other_than(id: QueueItemId) -> spec_fn(QueueItemView) -> bool {
    |item: QueueItemView| item.id != id
}

/// The queue without any item `id`.
pub open spec fn without_item(queue: Seq<QueueItemView>, id: QueueItemId) -> Seq<QueueItemView> {
    queue.filter(other_than(id))
}

/// Filtering one more element of a prefix.
pub proof fn lemma_filter_prefix_step<A>(items: Seq<A>, keep: spec_fn(A) -> bool, end: int)
    requires
        0 <= end < items.len(),
    ensures
        items.subrange(0, end + 1).filter(keep) == if keep(items[end]) {
            items.subrange(0, end).filter(keep).push(items[end])
        } else {
            items.subrange(0, end).filter(keep)
        },
{
    reveal(Seq::filter);
    assert(items.subrange(0, end + 1).drop_last() =~= items.subrange(0, end));
}

/// Remove every item `id`.
#[verifier::loop_isolation(false)]
pub fn remove_item(queue: &mut Vec<QueueItem>, id: QueueItemId)
    ensures
        views(final(queue)@) == without_item(views(old(queue)@), id),
{
    let ghost before = views(queue@);
    let mut kept: Vec<QueueItem> = Vec::new();
    let mut index: usize = 0;
    while index < queue.len()
        invariant
            index <= queue.len(),
            before == views(queue@),
            views(kept@) == before.subrange(0, index as int).filter(other_than(id)),
        decreases queue.len() - index,
    {
        proof {
            lemma_filter_prefix_step(before, other_than(id), index as int);
        }
        assert(before[index as int] == queue@[index as int]@);
        if queue[index].id.0 != id.0 {
            assert(other_than(id)(before[index as int]));
            let copy = queue[index].duplicate();
            kept.push(copy);
            assert(views(kept@) =~= before.subrange(0, index as int + 1).filter(other_than(id)));
        } else {
            assert(!other_than(id)(before[index as int]));
        }
        index += 1;
    }
    assert(before.subrange(0, before.len() as int) =~= before);
    *queue = kept;
}

/// The queue with item `id` taken out and put back before `before`, or at
/// the end when `before` is absent or unknown.
pub open spec fn moved_item(queue: Seq<QueueItemView>, id: QueueItemId, before: Option<QueueItemId>) -> Seq<QueueItemView> {
    let source = first_index(queue, has_id(id));
    if source < 0 {
        queue
    } else {
        let rest = queue.remove(source);
        let found = match before {
            Some(before_id) => first_index(rest, has_id(before_id)),
            None => -1,
        };
        let destination = if found >= 0 {
            found
        } else {
            rest.len() as int
        };
        rest.insert(destination, queue[source])
    }
}

/// Move item `id` before item `before`, or to the end.
pub fn move_item(queue: &mut Vec<QueueItem>, id: QueueItemId, before: Option<QueueItemId>)
    ensures
        views(final(queue)@) == moved_item(views(old(queue)@), id, before),
{
    let ghost original = views(queue@);
    let source = match find_item(queue, id) {
        Some(source) => source,
        None => {
            return;
        },
    };
    let item = queue.remove(source);
    assert(views(queue@) =~= original.remove(source as int));
    let destination = match before {
        Some(before_id) => match find_item(queue, before_id) {
            Some(found) => found,
            None => queue.len(),
        },
        None => queue.len(),
    };
    queue.insert(destination, item);
    assert(views(queue@) =~= moved_item(original, id, before));
}

/// The queue with finished item `id` queued again at the end.
pub open spec fn requeued_item(queue: Seq<QueueItemView>, id: QueueItemId) -> Seq<QueueItemView> {
    let source = first_index(queue, has_id(id));
    if source < 0 {
        queue
    } else {
        queue.remove(source).push(QueueItemView { state: QueueItemStateView::Queued, ..queue[source] })
    }
}

/// Queue item `id` again at the end.
pub fn requeue_item(queue: &mut Vec<QueueItem>, id: QueueItemId)
    ensures
        views(final(queue)@) == requeued_item(views(old(queue)@), id),
{
    let ghost original = views(queue@);
    if let Some(source) = find_item(queue, id) {
        let mut item = queue.remove(source);
        item.state = QueueItemState::Queued;
        queue.push(item);
        assert(views(queue@) =~= requeued_item(original, id));
    }
}

/// The reserved, active and finished items of a queue, in queue order.
pub open spec fn frozen_items(queue: Seq<QueueItemView>) -> Seq<QueueItemView> {
    queue.filter(frozen_filter())
}

/// Whether a queue item is reserved, active or finished.
pub open spec fn frozen_filter() -> spec_fn(QueueItemView) -> bool {
    |item: QueueItemView| !is_pending(item)
}

/// Whether a queue item is pending.
pub open spec fn pending_filter() -> spec_fn(QueueItemView) -> bool {
    |item: QueueItemView| is_pending(item)
}

/// The pending items of a queue, in queue order.
pub open spec fn pending_items(queue: Seq<QueueItemView>) -> Seq<QueueItemView> {
    queue.filter(pending_filter())
}

/// The pending items taken in the submitted order (each id taking the first
/// remaining item with it), and the pending items left over.
pub open spec fn picked(pending: Seq<QueueItemView>, order: Seq<QueueItemId>) -> (Seq<QueueItemView>, Seq<QueueItemView>)
    decreases order.len(),
{
    if order.len() == 0 {
        (Seq::empty(), pending)
    } else {
        let (taken, left) = picked(pending, order.drop_last());
        let index = first_index(left, has_id(order.last()));
        if index >= 0 {
            (taken.push(left[index]), left.remove(index))
        } else {
            (taken, left)
        }
    }
}

/// The queue with its frozen prefix kept in place and its pending items in
/// the submitted order, any pending item the order omits last.
pub open spec fn reordered(queue: Seq<QueueItemView>, order: Seq<QueueItemId>) -> Seq<QueueItemView> {
    let (taken, left) = picked(pending_items(queue), order);
    frozen_items(queue) + taken + left
}

/// Replace the order of the pending tail.
#[verifier::loop_isolation(false)]
pub fn reorder_pending(queue: &mut Vec<QueueItem>, order: &Vec<QueueItemId>)
    ensures
        views(final(queue)@) == reordered(views(old(queue)@), order@),
{
    let ghost original = views(queue@);
    let mut frozen: Vec<QueueItem> = Vec::new();
    let mut pending: Vec<QueueItem> = Vec::new();
    let mut index: usize = 0;
    while index < queue.len()
        invariant
            index <= queue.len(),
            original == views(queue@),
            views(frozen@) == original.subrange(0, index as int).filter(frozen_filter()),
            views(pending@) == original.subrange(0, index as int).filter(pending_filter()),
        decreases queue.len() - index,
    {
        proof {
            lemma_filter_prefix_step(original, frozen_filter(), index as int);
            lemma_filter_prefix_step(original, pending_filter(), index as int);
        }
        assert(original[index as int] == queue@[index as int]@);
        let queued = match queue[index].state {
            QueueItemState::Queued => true,
            _ => false,
        };
        let copy = queue[index].duplicate();
        if queued {
            assert(pending_filter()(original[index as int]) && !frozen_filter()(original[index as int]));
            pending.push(copy);
        } else {
            assert(!pending_filter()(original[index as int]) && frozen_filter()(original[index as int]));
            frozen.push(copy);
        }
        assert(views(frozen@) =~= original.subrange(0, index as int + 1).filter(frozen_filter()));
        assert(views(pending@) =~= original.subrange(0, index as int + 1).filter(pending_filter()));
        index += 1;
    }
    assert(original.subrange(0, original.len() as int) =~= original);
    let ghost frozen_part = views(frozen@);
    let ghost pending_part = views(pending@);
    assert(frozen_part == frozen_items(original));
    assert(pending_part == pending_items(original));
    let mut position: usize = 0;
    while position < order.len()
        invariant
            position <= order.len(),
            views(frozen@) == frozen_part + picked(pending_part, order@.subrange(0, position as int)).0,
            views(pending@) == picked(pending_part, order@.subrange(0, position as int)).1,
        decreases order.len() - position,
    {
        let ghost before_taken = picked(pending_part, order@.subrange(0, position as int)).0;
        assert(order@.subrange(0, position as int + 1).drop_last() =~= order@.subrange(0, position as int));
        assert(order@.subrange(0, position as int + 1).last() == order@[position as int]);
        if let Some(source) = find_item(&pending, order[position]) {
            let ghost left = views(pending@);
            let item = pending.remove(source);
            assert(item@ == left[source as int]);
            let ghost prior = views(frozen@);
            frozen.push(item);
            assert(views(frozen@) =~= prior.push(left[source as int]));
            assert(views(pending@) =~= left.remove(source as int));
            assert(views(frozen@) =~= frozen_part + before_taken.push(left[source as int]));
        }
        position += 1;
    }
    assert(order@.subrange(0, order@.len() as int) =~= order@);
    let ghost taken = views(frozen@);
    let mut rest: usize = 0;
    let ghost leftover = views(pending@);
    while rest < pending.len()
        invariant
            rest <= pending.len(),
            leftover == views(pending@),
            views(frozen@) == taken + leftover.subrange(0, rest as int),
        decreases pending.len() - rest,
    {
        assert(leftover[rest as int] == pending@[rest as int]@);
        let copy = pending[rest].duplicate();
        let ghost prior = views(frozen@);
        frozen.push(copy);
        assert(views(frozen@) =~= prior.push(leftover[rest as int]));
        assert(views(frozen@) =~= taken + views(pending@).subrange(0, rest as int + 1));
        rest += 1;
    }
    assert(views(pending@).subrange(0, pending.len() as int) =~= views(pending@));
    *queue = frozen;
}

/// The queue with item `id` carrying new job parameters.
pub open spec fn edited_item(
    queue: Seq<QueueItemView>,
    id: QueueItemId,
    operation: Operation,
    intent: AnalysisIntent,
    output_target: OutputTargetView,
    overwrite: OverwriteDecision,
) -> Seq<QueueItemView> {
    let index = first_index(queue, has_id(id));
    if index >= 0 {
        queue.update(index, QueueItemView { operation, intent, output_target, overwrite, ..queue[index] })
    } else {
        queue
    }
}

fn edit_item(
    queue: &mut Vec<QueueItem>,
    id: QueueItemId,
    operation: Operation,
    intent: AnalysisIntent,
    output_target: &OutputTarget,
    overwrite: OverwriteDecision,
)
    ensures
        views(final(queue)@) == edited_item(views(old(queue)@), id, operation, intent, output_target@, overwrite),
{
    let ghost before = views(queue@);
    if let Some(index) = find_item(queue, id) {
        let mut item = queue[index].duplicate();
        item.operation = operation;
        item.intent = intent;
        item.output_target = output_target.duplicate();
        item.overwrite = overwrite;
        queue.set(index, item);
        assert(views(queue@) =~= edited_item(before, id, operation, intent, output_target@, overwrite));
    }
}

/// Whether a pending order is a permutation of the queue's pending items:
/// no id twice, every id a pending item, and none left out.
pub open spec fn pending_order_validation(queue: Seq<QueueItemView>, order: Seq<QueueItemId>) -> Result<(), &'static str> {
    let unavailable = |id: QueueItemId| match first_match(queue, has_id(id)) {
        Some(item) => !is_pending(item),
        None => true,
    };
    let first_bad = first_index(order, unavailable);
    if !order.no_duplicates() {
        Err("pending order contains duplicate item ids")
    } else if first_bad >= 0 {
        if first_match(queue, has_id(order[first_bad])) is None {
            Err("pending order contains an unknown item")
        } else {
            Err("pending order contains a non-pending item")
        }
    } else if order.len() != pending_items(queue).len() {
        Err("pending order omits a queued item")
    } else {
        Ok(())
    }
}

/// Check that a submitted pending order is a permutation of the pending
/// items of the queue.
#[verifier::loop_isolation(false)]
pub fn validate_pending_order(queue: &Vec<QueueItem>, order: &Vec<QueueItemId>) -> (result: Result<(), &'static str>)
    ensures
        result == pending_order_validation(views(queue@), order@),
{
    let ghost items = views(queue@);
    let ghost unavailable = |id: QueueItemId| match first_match(items, has_id(id)) {
        Some(item) => !is_pending(item),
        None => true,
    };
    let mut i: usize = 0;
    while i < order.len()
        invariant
            i <= order.len(),
            forall|a: int, b: int| 0 <= a < b < i ==> order@[a] != order@[b],
        decreases order.len() - i,
    {
        let mut j: usize = 0;
        while j < i
            invariant
                j <= i < order.len(),
                forall|a: int, b: int| 0 <= a < b < i ==> order@[a] != order@[b],
                forall|a: int| 0 <= a < j ==> order@[a] != order@[i as int],
            decreases i - j,
        {
            if order[j].0 == order[i].0 {
                assert(!order@.no_duplicates());
                return Err("pending order contains duplicate item ids");
            }
            j += 1;
        }
        i += 1;
    }
    assert(order@.no_duplicates());
    let mut k: usize = 0;
    while k < order.len()
        invariant
            k <= order.len(),
            forall|a: int| 0 <= a < k ==> !unavailable(#[trigger] order@[a]),
        decreases order.len() - k,
    {
        proof {
            lemma_first_index(items, has_id(order@[k as int]));
        }
        match find_item(queue, order[k]) {
            None => {
                assert(unavailable(order@[k as int]));
                proof {
                    lemma_first_index_is(order@, unavailable, k as int);
                }
                return Err("pending order contains an unknown item");
            },
            Some(index) => {
                assert(items[index as int] == queue@[index as int]@);
                let queued = match queue[index].state {
                    QueueItemState::Queued => true,
                    _ => false,
                };
                if !queued {
                    assert(unavailable(order@[k as int]));
                    proof {
                        lemma_first_index_is(order@, unavailable, k as int);
                    }
                    return Err("pending order contains a non-pending item");
                }
            },
        }
        k += 1;
    }
    proof {
        lemma_first_index_none(order@, unavailable);
    }
    let mut count: usize = 0;
    let mut index: usize = 0;
    while index < queue.len()
        invariant
            index <= queue.len(),
            count == items.subrange(0, index as int).filter(pending_filter()).len(),
            count <= index,
        decreases queue.len() - index,
    {
        proof {
            lemma_filter_prefix_step(items, pending_filter(), index as int);
        }
        assert(items[index as int] == queue@[index as int]@);
        if let QueueItemState::Queued = queue[index].state {
            count += 1;
        }
        index += 1;
    }
    assert(items.subrange(0, items.len() as int) =~= items);
    if order.len() != count {
        return Err("pending order omits a queued item");
    }
    Ok(())
}

/// A counter bumped by one, saturating at its maximum.
pub open spec fn bumped(counter: u32) -> u32 {
    if counter == u32::MAX {
        counter
    } else {
        (counter + 1) as u32
    }
}

/// A byte or time total grown by `amount`, saturating at its maximum.
pub open spec fn grown(total: u64, amount: u64) -> u64 {
    if total + amount > u64::MAX {
        u64::MAX
    } else {
        (total + amount) as u64
    }
}

/// `base` plus the durations of the encoding spans, saturating.
pub open spec fn encoding_total(base: u64, spans: Seq<PhaseSpan>) -> u64
    decreases spans.len(),
{
    if spans.len() == 0 {
        base
    } else {
        let earlier = encoding_total(base, spans.drop_last());
        if spans.last().phase == JobPhase::Encoding {
            grown(earlier, spans.last().duration.0)
        } else {
            earlier
        }
    }
}

/// The byte sizes live evidence measured; a recovered success measured
/// none.
pub open spec fn live_sizes(evidence: CompletionEvidence) -> Option<(u64, u64)> {
    match evidence {
        CompletionEvidence::LiveEncode { input_size, output_size, .. } => Some((input_size, output_size)),
        CompletionEvidence::LiveRemux { input_size, output_size } => Some((input_size, output_size)),
        CompletionEvidence::RecoveredAtStartup => None,
    }
}

/// The evidence of a successful outcome.
pub open spec fn outcome_evidence(outcome: ItemOutcomeView) -> Option<CompletionEvidence> {
    match outcome {
        ItemOutcomeView::Converted(evidence) => Some(evidence),
        ItemOutcomeView::Remuxed(evidence) => Some(evidence),
        _ => None,
    }
}

/// The aggregates after one finished item: its outcome's counter bumps,
/// live evidence adds its byte sizes, and encoding spans add their time.
pub open spec fn absorbed(aggregates: SessionAggregates, outcome: ItemOutcomeView, spans: Seq<PhaseSpan>) -> SessionAggregates {
    let counted = match outcome {
        ItemOutcomeView::Analyzed => SessionAggregates { analyzed: bumped(aggregates.analyzed), ..aggregates },
        ItemOutcomeView::Converted(_) => SessionAggregates { completed: bumped(aggregates.completed), ..aggregates },
        ItemOutcomeView::Remuxed(_) => SessionAggregates { remuxed: bumped(aggregates.remuxed), ..aggregates },
        ItemOutcomeView::NotWorthwhile { .. } => SessionAggregates {
            not_worthwhile: bumped(aggregates.not_worthwhile),
            ..aggregates
        },
        ItemOutcomeView::Stopped => SessionAggregates { stopped: bumped(aggregates.stopped), ..aggregates },
        ItemOutcomeView::Skipped { .. } => SessionAggregates { skipped: bumped(aggregates.skipped), ..aggregates },
        ItemOutcomeView::Failed(_) => SessionAggregates { failed: bumped(aggregates.failed), ..aggregates },
    };
    let sized = match outcome_evidence(outcome) {
        Some(evidence) => match live_sizes(evidence) {
            Some((input, output)) => SessionAggregates {
                input_bytes: grown(counted.input_bytes, input),
                output_bytes: grown(counted.output_bytes, output),
                ..counted
            },
            None => counted,
        },
        None => counted,
    };
    SessionAggregates { encode_duration_ms: encoding_total(sized.encode_duration_ms, spans), ..sized }
}

fn add_encoding_time(base: u64, spans: &Vec<PhaseSpan>) -> (total: u64)
    ensures
        total == encoding_total(base, spans@),
{
    let mut total = base;
    let mut index: usize = 0;
    while index < spans.len()
        invariant
            index <= spans.len(),
            total == encoding_total(base, spans@.subrange(0, index as int)),
        decreases spans.len() - index,
    {
        assert(spans@.subrange(0, index as int + 1).drop_last() =~= spans@.subrange(0, index as int));
        if let JobPhase::Encoding = spans[index].phase {
            total = total.saturating_add(spans[index].duration.0);
        }
        index += 1;
    }
    assert(spans@.subrange(0, spans.len() as int) =~= spans@);
    total
}

impl SessionAggregates {
    /// Fold one finished item into the session counters and totals.
    pub fn absorb(&mut self, outcome: &ItemOutcome, phase_spans: &Vec<PhaseSpan>)
        ensures
            *final(self) == absorbed(*old(self), outcome@, phase_spans@),
    {
        match outcome {
            ItemOutcome::Analyzed => self.analyzed = self.analyzed.saturating_add(1),
            ItemOutcome::Converted(_) => self.completed = self.completed.saturating_add(1),
            ItemOutcome::Remuxed(_) => self.remuxed = self.remuxed.saturating_add(1),
            ItemOutcome::NotWorthwhile { .. } => self.not_worthwhile = self.not_worthwhile.saturating_add(1),
            ItemOutcome::Stopped => self.stopped = self.stopped.saturating_add(1),
            ItemOutcome::Skipped { .. } => self.skipped = self.skipped.saturating_add(1),
            ItemOutcome::Failed(_) => self.failed = self.failed.saturating_add(1),
        }
        let evidence = match outcome {
            ItemOutcome::Converted(evidence) | ItemOutcome::Remuxed(evidence) => Some(*evidence),
            _ => None,
        };
        if let Some(evidence) = evidence {
            match evidence {
                CompletionEvidence::LiveEncode { input_size, output_size, .. }
                | CompletionEvidence::LiveRemux { input_size, output_size } => {
                    self.input_bytes = self.input_bytes.saturating_add(input_size);
                    self.output_bytes = self.output_bytes.saturating_add(output_size);
                },
                CompletionEvidence::RecoveredAtStartup => {},
            }
        }
        self.encode_duration_ms = add_encoding_time(self.encode_duration_ms, phase_spans);
    }
}

/// Measured byte sizes from live evidence, none for a recovered success.
fn evidence_sizes(evidence: &CompletionEvidence) -> (sizes: (Option<u64>, Option<u64>))
    ensures
        sizes == match live_sizes(*evidence) {
            Some((input, output)) => (Some(input), Some(output)),
            None => (None, None),
        },
{
    match evidence {
        CompletionEvidence::LiveEncode { input_size, output_size, .. }
        | CompletionEvidence::LiveRemux { input_size, output_size } => (Some(*input_size), Some(*output_size)),
        CompletionEvidence::RecoveredAtStartup => (None, None),
    }
}

/// Whether any span measured the encoding phase.
pub open spec fn measured_encoding(spans: Seq<PhaseSpan>) -> bool {
    exists|k: int| 0 <= k < spans.len() && #[trigger] spans[k].phase == JobPhase::Encoding
}

/// Total measured encoding time, when any encoding span was measured.
pub open spec fn encoding_time(spans: Seq<PhaseSpan>) -> Option<DurationMs> {
    if measured_encoding(spans) {
        Some(DurationMs(encoding_total(0, spans)))
    } else {
        None
    }
}

fn encoding_duration(spans: &Vec<PhaseSpan>) -> (duration: Option<DurationMs>)
    ensures
        duration == encoding_time(spans@),
{
    let mut measured = false;
    let mut index: usize = 0;
    while index < spans.len()
        invariant
            index <= spans.len(),
            measured == exists|k: int| 0 <= k < index && #[trigger] spans@[k].phase == JobPhase::Encoding,
        decreases spans.len() - index,
    {
        if let JobPhase::Encoding = spans[index].phase {
            measured = true;
        }
        index += 1;
    }
    if measured {
        Some(DurationMs(add_encoding_time(0, spans)))
    } else {
        None
    }
}

/// Whether a run record belongs to `run_id`.
pub open spec fn run_record(run_id: RunId) -> spec_fn(ConversionRunView) -> bool {
    |run: ConversionRunView| run.spec.run_id == run_id
}

/// The run record of `run_id`.
pub open spec fn run_of(runs: Seq<ConversionRunView>, run_id: RunId) -> Option<ConversionRunView> {
    first_match(runs, run_record(run_id))
}

/// Position of the run record of `run_id`.
pub fn find_run(runs: &Vec<ConversionRun>, run_id: RunId) -> (found: Option<usize>)
    ensures
        match found {
            Some(index) => index < runs.len() && index as int == first_index(views(runs@), run_record(run_id)),
            None => first_index(views(runs@), run_record(run_id)) == -1,
        },
{
    let ghost entries = views(runs@);
    let mut index: usize = 0;
    while index < runs.len()
        invariant
            index <= runs.len(),
            entries == views(runs@),
            forall|k: int| 0 <= k < index ==> !run_record(run_id)(#[trigger] entries[k]),
        decreases runs.len() - index,
    {
        if runs[index].spec.run_id.0 == run_id.0 {
            proof {
                lemma_first_index_is(entries, run_record(run_id), index as int);
            }
            return Some(index);
        }
        index += 1;
    }
    proof {
        lemma_first_index_none(entries, run_record(run_id));
    }
    None
}

/// The views of the durable collections are the views of their elements.
pub proof fn lemma_durable_views(state: DurableState)
    ensures
        state@.queue == views(state.queue@),
        state@.paths == entry_views(state.paths@),
        state@.records == entry_views(state.records@),
        state@.outputs == views(state.outputs@),
        state@.conversion_runs == views(state.conversion_runs@),
        state@.parked == entry_views(state.parked@),
        state@.adopted_imports == views(state.adopted_imports@),
{
    assert(state@.queue =~= views(state.queue@));
    assert(state@.paths =~= entry_views(state.paths@));
    assert(state@.records =~= entry_views(state.records@));
    assert(state@.outputs =~= views(state.outputs@));
    assert(state@.conversion_runs =~= views(state.conversion_runs@));
    assert(state@.parked =~= entry_views(state.parked@));
    assert(state@.adopted_imports =~= views(state.adopted_imports@));
}

/// A content record with media facts only.
pub open spec fn fresh_record(metadata: crate::VideoMetaView) -> FileRecordView {
    FileRecordView { metadata, analyses: Seq::empty(), verdict: None, imported: None }
}

/// The state after observing a file: the path is bound to the observed
/// content, whose record takes the new media facts or is created.
pub open spec fn observed(state: DurableStateView, observation: MediaObservationView) -> DurableStateView {
    let key = observation.binding.content_key;
    let index = first_index(state.records, keyed(key));
    DurableStateView {
        paths: upsert(state.paths, keyed(observation.path_hash), (observation.path_hash, observation.binding)),
        records: if index >= 0 {
            state.records.update(
                index,
                (state.records[index].0, FileRecordView { metadata: observation.metadata, ..state.records[index].1 }),
            )
        } else {
            state.records.push((key, fresh_record(observation.metadata)))
        },
        ..state
    }
}

fn observe_media(state: &mut DurableState, observation: &MediaObservation)
    ensures
        final(state)@ == observed(old(state)@, observation@),
{
    proof {
        lemma_durable_views(*state);
    }
    let ghost before = state@;
    put_key(&mut state.paths, observation.path_hash.duplicate(), observation.binding.duplicate());
    match find_key(&state.records, &observation.binding.content_key) {
        Some(index) => {
            let (key, mut record) = state.records[index].duplicate();
            record.metadata = observation.metadata.duplicate();
            state.records.set(index, (key, record));
            assert(entry_views(state.records@) =~= observed(before, observation@).records);
        },
        None => {
            let record = FileRecord::new(observation.metadata.duplicate());
            state.records.push((observation.binding.content_key.duplicate(), record));
            assert(entry_views(state.records@) =~= observed(before, observation@).records);
        },
    }
    proof {
        lemma_durable_views(*state);
    }
}

/// The run record a prepared job starts with: its spec, and the search it
/// reuses.
pub open spec fn started_run(spec: JobSpecView) -> ConversionRunView {
    ConversionRunView {
        spec,
        analysis: spec.action.selected(),
        output_content_key: None,
        outcome: None,
        started_at: None,
        finished_at: None,
        phase_spans: Seq::empty(),
    }
}

/// The state after a job is prepared: its item is claimed and its run
/// recorded.
pub open spec fn prepared(state: DurableStateView, spec: JobSpecView) -> DurableStateView {
    DurableStateView {
        queue: with_item_state(
            state.queue,
            spec.item_id,
            QueueItemStateView::Claimed { claim_id: spec.claim_id, run_id: spec.run_id },
        ),
        conversion_runs: upsert(state.conversion_runs, run_record(spec.run_id), started_run(spec)),
        ..state
    }
}

fn prepare_item(state: &mut DurableState, spec: &JobSpec)
    ensures
        final(state)@ == prepared(old(state)@, spec@),
{
    proof {
        lemma_durable_views(*state);
    }
    let ghost before = state@;
    set_item_state(&mut state.queue, spec.item_id, QueueItemState::Claimed { claim_id: spec.claim_id, run_id: spec.run_id });
    let analysis = match spec.action.selected_analysis() {
        Some(result) => Some(result.duplicate()),
        None => None,
    };
    let run = ConversionRun {
        spec: spec.duplicate(),
        analysis,
        output_content_key: None,
        outcome: None,
        started_at: None,
        finished_at: None,
        phase_spans: Vec::new(),
    };
    assert(run@ =~= started_run(spec@));
    match find_run(&state.conversion_runs, spec.run_id) {
        Some(index) => {
            state.conversion_runs.set(index, run);
        },
        None => {
            state.conversion_runs.push(run);
        },
    }
    assert(views(state.conversion_runs@) =~= prepared(before, spec@).conversion_runs);
    proof {
        lemma_durable_views(*state);
    }
}

/// The state after a claimed job starts running.
pub open spec fn running(state: DurableStateView, item_id: QueueItemId, claim_id: ClaimId, run_id: RunId, at: UnixMillis) -> DurableStateView {
    let index = first_index(state.conversion_runs, run_record(run_id));
    DurableStateView {
        queue: with_item_state(state.queue, item_id, QueueItemStateView::Running { claim_id, run_id }),
        conversion_runs: if index >= 0 {
            state.conversion_runs.update(index, ConversionRunView { started_at: Some(at), ..state.conversion_runs[index] })
        } else {
            state.conversion_runs
        },
        ..state
    }
}

fn start_running(state: &mut DurableState, item_id: QueueItemId, claim_id: ClaimId, run_id: RunId, at: UnixMillis)
    ensures
        final(state)@ == running(old(state)@, item_id, claim_id, run_id, at),
{
    proof {
        lemma_durable_views(*state);
    }
    let ghost before = state@;
    set_item_state(&mut state.queue, item_id, QueueItemState::Running { claim_id, run_id });
    if let Some(index) = find_run(&state.conversion_runs, run_id) {
        let mut run = state.conversion_runs[index].duplicate();
        run.started_at = Some(at);
        state.conversion_runs.set(index, run);
    }
    assert(views(state.conversion_runs@) =~= running(before, item_id, claim_id, run_id, at).conversion_runs);
    proof {
        lemma_durable_views(*state);
    }
}

/// The state after a search is recorded for a run: the run keeps it, and
/// the run's content record stores it in its (profile, target) slot.
pub open spec fn analysis_recorded(state: DurableStateView, run_id: RunId, result: AnalysisResultView) -> DurableStateView {
    let index = first_index(state.conversion_runs, run_record(run_id));
    if index < 0 {
        state
    } else {
        let run = state.conversion_runs[index];
        let records = match run.spec.content_key {
            Some(key) => {
                let position = first_index(state.records, keyed(key));
                if position >= 0 {
                    state.records.update(
                        position,
                        (
                            state.records[position].0,
                            FileRecordView {
                                analyses: upsert(state.records[position].1.analyses, slot_of(result), result),
                                ..state.records[position].1
                            },
                        ),
                    )
                } else {
                    state.records
                }
            },
            None => state.records,
        };
        DurableStateView {
            conversion_runs: state.conversion_runs.update(index, ConversionRunView { analysis: Some(result), ..run }),
            records,
            ..state
        }
    }
}

fn record_run_analysis(state: &mut DurableState, run_id: RunId, result: &AnalysisResult)
    ensures
        final(state)@ == analysis_recorded(old(state)@, run_id, result@),
{
    proof {
        lemma_durable_views(*state);
    }
    let ghost before = state@;
    let index = match find_run(&state.conversion_runs, run_id) {
        Some(index) => index,
        None => {
            return;
        },
    };
    let mut run = state.conversion_runs[index].duplicate();
    run.analysis = Some(result.duplicate());
    let content_key = match &run.spec.content_key {
        Some(key) => Some(key.duplicate()),
        None => None,
    };
    state.conversion_runs.set(index, run);
    assert(views(state.conversion_runs@) =~= analysis_recorded(before, run_id, result@).conversion_runs);
    if let Some(key) = content_key {
        if let Some(position) = find_key(&state.records, &key) {
            let (stored_key, mut record) = state.records[position].duplicate();
            record.record_analysis(result.duplicate());
            state.records.set(position, (stored_key, record));
        }
    }
    assert(entry_views(state.records@) =~= analysis_recorded(before, run_id, result@).records);
    proof {
        lemma_durable_views(*state);
    }
}

/// The content key a settled transaction left at its final path.
pub open spec fn settled_key(state: OutputStateView) -> Option<ContentKeyView> {
    match state {
        OutputStateView::Committed { final_identity } => Some(final_identity.content_key),
        OutputStateView::Retired { final_identity } => Some(final_identity.content_key),
        _ => None,
    }
}

/// A run record after its terminal: a success names the output its settled
/// transaction left, and the outcome, finish time and phase spans are kept.
pub open spec fn finished_run(
    run: ConversionRunView,
    outputs: Seq<crate::OutputTransactionView>,
    run_id: RunId,
    outcome: ItemOutcomeView,
    at: UnixMillis,
    spans: Seq<PhaseSpan>,
) -> ConversionRunView {
    let transaction = transaction_of(outputs, run_id);
    let output_content_key = if outcome_evidence(outcome) is Some && transaction is Some {
        settled_key(transaction->0.state)
    } else {
        run.output_content_key
    };
    ConversionRunView { output_content_key, outcome: Some(outcome), finished_at: Some(at), phase_spans: spans, ..run }
}

/// The byte sizes a verdict records from the evidence of a success.
pub open spec fn verdict_sizes(evidence: CompletionEvidence) -> (Option<u64>, Option<u64>) {
    match live_sizes(evidence) {
        Some((input, output)) => (Some(input), Some(output)),
        None => (None, None),
    }
}

/// The verdict a finished run decides: a success names its output (none
/// when the output cannot be named), a not-worthwhile search records the
/// ladder it tried, and other outcomes decide nothing.
pub open spec fn decided_kind(run: ConversionRunView, outcome: ItemOutcomeView, spans: Seq<PhaseSpan>) -> Option<VerdictKindView> {
    match outcome {
        ItemOutcomeView::Converted(evidence) => match run.output_content_key {
            Some(key) => Some(
                VerdictKindView::Converted {
                    output_content_key: Some(key),
                    input_size: verdict_sizes(evidence).0,
                    output_size: verdict_sizes(evidence).1,
                    encoding_time: encoding_time(spans),
                    crf: match run.analysis {
                        Some(found) => Some(found.measurement.crf),
                        None => None,
                    },
                    vmaf: match run.analysis {
                        Some(found) => Some(found.measurement.score),
                        None => None,
                    },
                    target: match run.analysis {
                        Some(found) => Some(found.successful_target),
                        None => None,
                    },
                },
            ),
            None => None,
        },
        ItemOutcomeView::Remuxed(evidence) => match run.output_content_key {
            Some(key) => Some(
                VerdictKindView::Remuxed {
                    output_content_key: key,
                    input_size: verdict_sizes(evidence).0,
                    output_size: verdict_sizes(evidence).1,
                },
            ),
            None => None,
        },
        ItemOutcomeView::NotWorthwhile { .. } => Some(
            VerdictKindView::NotWorthwhile {
                requested: run.spec.execution.requested_target,
                floor: run.spec.execution.fallback_floor,
            },
        ),
        _ => None,
    }
}

/// The state after a terminal: the item finishes, its run is closed, and a
/// decisive outcome replaces the verdict of the run's content.
pub open spec fn finished(
    state: DurableStateView,
    item_id: QueueItemId,
    run_id: RunId,
    outcome: ItemOutcomeView,
    at: UnixMillis,
    spans: Seq<PhaseSpan>,
) -> DurableStateView {
    let queue = with_item_state(state.queue, item_id, QueueItemStateView::Finished(outcome));
    let index = first_index(state.conversion_runs, run_record(run_id));
    if index < 0 {
        DurableStateView { queue, ..state }
    } else {
        let run = finished_run(state.conversion_runs[index], state.outputs, run_id, outcome, at, spans);
        let records = match (decided_kind(run, outcome, spans), run.spec.content_key) {
            (Some(kind), Some(key)) => {
                let position = first_index(state.records, keyed(key));
                if position >= 0 {
                    state.records.update(
                        position,
                        (
                            state.records[position].0,
                            FileRecordView {
                                verdict: Some(VerdictView { kind, source_run: Some(run_id), decided_at: at }),
                                ..state.records[position].1
                            },
                        ),
                    )
                } else {
                    state.records
                }
            },
            _ => state.records,
        };
        DurableStateView { queue, conversion_runs: state.conversion_runs.update(index, run), records, ..state }
    }
}

fn decide_kind(run: &ConversionRun, outcome: &ItemOutcome, spans: &Vec<PhaseSpan>) -> (kind: Option<VerdictKind>)
    ensures
        match kind {
            Some(found) => decided_kind(run@, outcome@, spans@) == Some(found@),
            None => decided_kind(run@, outcome@, spans@) is None,
        },
{
    match outcome {
        ItemOutcome::Converted(evidence) => match &run.output_content_key {
            Some(key) => {
                let (input_size, output_size) = evidence_sizes(evidence);
                let (crf, vmaf, target) = match &run.analysis {
                    Some(found) => (Some(found.measurement.crf), Some(found.measurement.score), Some(found.successful_target)),
                    None => (None, None, None),
                };
                Some(
                    VerdictKind::Converted {
                        output_content_key: Some(key.duplicate()),
                        input_size,
                        output_size,
                        encoding_time: encoding_duration(spans),
                        crf,
                        vmaf,
                        target,
                    },
                )
            },
            None => None,
        },
        ItemOutcome::Remuxed(evidence) => match &run.output_content_key {
            Some(key) => {
                let (input_size, output_size) = evidence_sizes(evidence);
                Some(VerdictKind::Remuxed { output_content_key: key.duplicate(), input_size, output_size })
            },
            None => None,
        },
        ItemOutcome::NotWorthwhile { .. } => Some(
            VerdictKind::NotWorthwhile {
                requested: run.spec.execution.requested_target,
                floor: run.spec.execution.fallback_floor,
            },
        ),
        _ => None,
    }
}

fn finish_item(
    state: &mut DurableState,
    item_id: QueueItemId,
    run_id: RunId,
    outcome: &ItemOutcome,
    at: UnixMillis,
    spans: &Vec<PhaseSpan>,
)
    ensures
        final(state)@ == finished(old(state)@, item_id, run_id, outcome@, at, spans@),
{
    proof {
        lemma_durable_views(*state);
    }
    let ghost before = state@;
    set_item_state(&mut state.queue, item_id, QueueItemState::Finished(outcome.duplicate()));
    let index = match find_run(&state.conversion_runs, run_id) {
        Some(index) => index,
        None => {
            proof {
                lemma_durable_views(*state);
            }
            return;
        },
    };
    let mut run = state.conversion_runs[index].duplicate();
    let success = match outcome {
        ItemOutcome::Converted(_) | ItemOutcome::Remuxed(_) => true,
        _ => false,
    };
    if success {
        if let Some(position) = find_output(&state.outputs, run_id) {
            run.output_content_key = match &state.outputs[position].state {
                OutputState::Committed { final_identity } | OutputState::Retired { final_identity } => {
                    Some(final_identity.content_key.duplicate())
                },
                _ => None,
            };
        }
    }
    run.outcome = Some(outcome.duplicate());
    run.finished_at = Some(at);
    run.phase_spans = crate::model::copy_plain_vec(spans);
    let ghost closed = finished_run(before.conversion_runs[index as int], before.outputs, run_id, outcome@, at, spans@);
    assert(run@ =~= closed);
    let kind = decide_kind(&run, outcome, spans);
    let content_key = match &run.spec.content_key {
        Some(key) => Some(key.duplicate()),
        None => None,
    };
    state.conversion_runs.set(index, run);
    if let (Some(kind), Some(key)) = (kind, content_key) {
        if let Some(position) = find_key(&state.records, &key) {
            let (stored_key, mut record) = state.records[position].duplicate();
            record.verdict = Some(Verdict { kind, source_run: Some(run_id), decided_at: at });
            state.records.set(position, (stored_key, record));
        }
    }
    assert(views(state.conversion_runs@) =~= finished(before, item_id, run_id, outcome@, at, spans@).conversion_runs);
    assert(entry_views(state.records@) =~= finished(before, item_id, run_id, outcome@, at, spans@).records);
    proof {
        lemma_durable_views(*state);
    }
}

/// The inbox after an import batch: each record is parked under its path,
/// a later record for the same path replacing an earlier one.
pub open spec fn imported_into(
    parked: Seq<(ImportPathView, ParkedRecordView)>,
    records: Seq<(ImportPathView, ParkedRecordView)>,
) -> Seq<(ImportPathView, ParkedRecordView)>
    decreases records.len(),
{
    if records.len() == 0 {
        parked
    } else {
        upsert(imported_into(parked, records.drop_last()), keyed(records.last().0), records.last())
    }
}

fn park_imports(parked: &mut Vec<(ImportPath, ParkedRecord)>, records: &Vec<(ImportPath, ParkedRecord)>)
    ensures
        entry_views(final(parked)@) == imported_into(entry_views(old(parked)@), entry_views(records@)),
{
    let ghost start = entry_views(parked@);
    let ghost incoming = entry_views(records@);
    let mut index: usize = 0;
    while index < records.len()
        invariant
            index <= records.len(),
            incoming == entry_views(records@),
            entry_views(parked@) == imported_into(start, incoming.subrange(0, index as int)),
        decreases records.len() - index,
    {
        assert(incoming.subrange(0, index as int + 1).drop_last() =~= incoming.subrange(0, index as int));
        assert(incoming[index as int] == records@[index as int]@);
        let (path, record) = records[index].duplicate();
        put_key(parked, path, record);
        index += 1;
    }
    assert(incoming.subrange(0, records.len() as int) =~= incoming);
}

/// The state after a parked record is adopted: it leaves the inbox, its
/// path joins the re-import guard, and the content record gains the import
/// provenance (when it outranks the current one) and any adopted verdict.
pub open spec fn adopted(
    state: DurableStateView,
    import_path: ImportPathView,
    content_key: ContentKeyView,
    imported: ParkedRecordView,
    verdict: Option<VerdictView>,
) -> DurableStateView {
    let position = first_index(state.records, keyed(content_key));
    let candidate = ImportedProvenanceView { import_path, record: imported };
    DurableStateView {
        parked: without_key(state.parked, import_path),
        adopted_imports: if state.adopted_imports.contains(import_path) {
            state.adopted_imports
        } else {
            state.adopted_imports.push(import_path)
        },
        records: if position >= 0 {
            let record = state.records[position].1;
            let provenance = match record.imported {
                Some(current) => if candidate.outranks(current) {
                    Some(candidate)
                } else {
                    record.imported
                },
                None => Some(candidate),
            };
            let decided = match verdict {
                Some(adopted_verdict) => Some(adopted_verdict),
                None => record.verdict,
            };
            state.records.update(
                position,
                (state.records[position].0, FileRecordView { imported: provenance, verdict: decided, ..record }),
            )
        } else {
            state.records
        },
        ..state
    }
}

pub fn contains_path(paths: &Vec<ImportPath>, path: &ImportPath) -> (found: bool)
    ensures
        found == views(paths@).contains(path@),
{
    let mut index: usize = 0;
    while index < paths.len()
        invariant
            index <= paths.len(),
            forall|k: int| 0 <= k < index ==> paths@[k]@ != path@,
        decreases paths.len() - index,
    {
        if paths[index].same_view(path) {
            assert(views(paths@)[index as int] == path@);
            return true;
        }
        index += 1;
    }
    assert(!views(paths@).contains(path@)) by {
        if views(paths@).contains(path@) {
            let k = choose|k: int| 0 <= k < views(paths@).len() && views(paths@)[k] == path@;
            assert(paths@[k]@ == path@);
        }
    }
    false
}

fn adopt_parked(
    state: &mut DurableState,
    import_path: &ImportPath,
    content_key: &ContentKey,
    imported: &ParkedRecord,
    verdict: &Option<Verdict>,
)
    ensures
        final(state)@ == adopted(
            old(state)@,
            import_path@,
            content_key@,
            imported@,
            match verdict { Some(v) => Some(v@), None => None },
        ),
{
    proof {
        lemma_durable_views(*state);
    }
    let ghost before = state@;
    let ghost goal = adopted(before, import_path@, content_key@, imported@, match verdict { Some(v) => Some(v@), None => None });
    remove_key(&mut state.parked, import_path);
    if !contains_path(&state.adopted_imports, import_path) {
        state.adopted_imports.push(import_path.duplicate());
    }
    assert(views(state.adopted_imports@) =~= goal.adopted_imports);
    if let Some(position) = find_key(&state.records, content_key) {
        let (stored_key, mut record) = state.records[position].duplicate();
        let candidate = ImportedProvenance { import_path: import_path.duplicate(), record: imported.duplicate() };
        let replace = match &record.imported {
            Some(current) => candidate.outranks(current),
            None => true,
        };
        if replace {
            record.imported = Some(candidate);
        }
        if let Some(adopted_verdict) = verdict {
            record.verdict = Some(adopted_verdict.duplicate());
        }
        state.records.set(position, (stored_key, record));
    }
    assert(entry_views(state.records@) =~= goal.records);
    proof {
        lemma_durable_views(*state);
    }
}

/// The durable state after one delta.
pub open spec fn folded(state: DurableStateView, delta: DurableDeltaView) -> DurableStateView {
    match delta {
        DurableDeltaView::QueueAdded { item } => DurableStateView { queue: state.queue.push(item), ..state },
        DurableDeltaView::QueueRemoved { item_id } => DurableStateView { queue: without_item(state.queue, item_id), ..state },
        DurableDeltaView::QueueMoved { item_id, before } => DurableStateView {
            queue: moved_item(state.queue, item_id, before),
            ..state
        },
        DurableDeltaView::QueueReordered { pending_order } => DurableStateView {
            queue: reordered(state.queue, pending_order),
            ..state
        },
        DurableDeltaView::QueueRequeued { item_id } => DurableStateView { queue: requeued_item(state.queue, item_id), ..state },
        DurableDeltaView::QueueEdited { item_id, operation, intent, output_target, overwrite } => DurableStateView {
            queue: edited_item(state.queue, item_id, operation, intent, output_target, overwrite),
            ..state
        },
        DurableDeltaView::ItemReserved { job } => DurableStateView {
            queue: with_item_state(
                state.queue,
                job.item_id,
                QueueItemStateView::Reserved { claim_id: job.claim_id, run_id: job.run_id },
            ),
            ..state
        },
        DurableDeltaView::MediaObserved { observation } => observed(state, observation),
        DurableDeltaView::ItemPrepared { spec } => prepared(state, spec),
        DurableDeltaView::ItemRunning { item_id, claim_id, run_id, at } => running(state, item_id, claim_id, run_id, at),
        DurableDeltaView::AnalysisRecorded { run_id, result } => analysis_recorded(state, run_id, result),
        DurableDeltaView::ItemFinished { item_id, run_id, outcome, at, phase_spans, .. } => finished(
            state,
            item_id,
            run_id,
            outcome,
            at,
            phase_spans,
        ),
        DurableDeltaView::Output(output) => DurableStateView { outputs: fold_output(state.outputs, output), ..state },
        DurableDeltaView::HistoryImported { records } => DurableStateView {
            parked: imported_into(state.parked, records),
            ..state
        },
        DurableDeltaView::ParkedAdopted { import_path, content_key, imported, verdict } => adopted(
            state,
            import_path,
            content_key,
            imported,
            verdict,
        ),
        DurableDeltaView::ParkedRetired { import_path } => DurableStateView {
            parked: without_key(state.parked, import_path),
            ..state
        },
    }
}

/// Apply one journaled delta to the durable state.
pub fn fold(state: &mut DurableState, delta: &DurableDelta)
    ensures
        final(state)@ == folded(old(state)@, delta@),
{
    proof {
        lemma_durable_views(*state);
    }
    let ghost before = state@;
    match delta {
        DurableDelta::QueueAdded { item } => {
            state.queue.push(item.duplicate());
            assert(views(state.queue@) =~= before.queue.push(item@));
        },
        DurableDelta::QueueRemoved { item_id } => remove_item(&mut state.queue, *item_id),
        DurableDelta::QueueMoved { item_id, before } => move_item(&mut state.queue, *item_id, *before),
        DurableDelta::QueueReordered { pending_order } => reorder_pending(&mut state.queue, pending_order),
        DurableDelta::QueueRequeued { item_id } => requeue_item(&mut state.queue, *item_id),
        DurableDelta::QueueEdited { item_id, operation, intent, output_target, overwrite } => {
            edit_item(&mut state.queue, *item_id, *operation, *intent, output_target, *overwrite)
        },
        DurableDelta::ItemReserved { job } => set_item_state(
            &mut state.queue,
            job.item_id,
            QueueItemState::Reserved { claim_id: job.claim_id, run_id: job.run_id },
        ),
        DurableDelta::MediaObserved { observation } => observe_media(state, observation),
        DurableDelta::ItemPrepared { spec } => prepare_item(state, spec),
        DurableDelta::ItemRunning { item_id, claim_id, run_id, at } => start_running(state, *item_id, *claim_id, *run_id, *at),
        DurableDelta::AnalysisRecorded { run_id, result } => record_run_analysis(state, *run_id, result),
        DurableDelta::ItemFinished { item_id, run_id, outcome, at, phase_spans, .. } => {
            finish_item(state, *item_id, *run_id, outcome, *at, phase_spans)
        },
        DurableDelta::Output(output) => output.fold_into(&mut state.outputs),
        DurableDelta::HistoryImported { records } => park_imports(&mut state.parked, records),
        DurableDelta::ParkedAdopted { import_path, content_key, imported, verdict } => {
            adopt_parked(state, import_path, content_key, imported, verdict)
        },
        DurableDelta::ParkedRetired { import_path } => remove_key(&mut state.parked, import_path),
    }
    proof {
        lemma_durable_views(*state);
    }
}

/// The settings that a configuration delta leaves: the changed settings.
pub open spec fn configured(delta: ConfigDeltaView) -> SettingsView {
    match delta {
        ConfigDeltaView::SettingsChanged { settings } => settings,
    }
}

/// Apply one configuration delta to the settings.
pub fn fold_config(state: &mut Settings, delta: &ConfigDelta)
    ensures
        final(state)@ == configured(delta@),
{
    match delta {
        ConfigDelta::SettingsChanged { settings } => {
            *state = settings.duplicate();
        },
    }
}

} // verus!
