//! The shape of the queue: finished items first, then at most one active
//! item, then the pending items. Every command keeps it.

use vstd::prelude::*;

use crate::durability::{accepted_items, lemma_accepted_items_are_fresh, lemma_ephemeral_keeps_durable};
use crate::lookup::{first_index, first_match, lemma_first_index};
use crate::queue_commands::{add_batch, additions, queue_outcome, removals};
use crate::reducer::{active_run_of, after_applied, command_outcome, durable_after, is_active, settings_after};
use crate::state::{folded, frozen_items, has_id, is_pending, pending_items, picked, with_item_state};
use crate::worker_commands::worker_outcome;
use crate::{
    AppStateView, CommandView, DurableDeltaView, DurableStateView, QueueCommandView, QueueItemId, QueueItemStateView,
    QueueItemView, WorkerCommandView,
};

verus! {

/// Where an item stands in the queue's order: finished, active, or pending.
pub open spec fn stage(item: QueueItemView) -> int {
    if item.state is Finished {
        0
    } else if item.state is Queued {
        2
    } else {
        1
    }
}

/// Whether `first` may stand before `second`: no later stage, and not both
/// active.
pub open spec fn in_order(first: QueueItemView, second: QueueItemView) -> bool {
    stage(first) <= stage(second) && !(is_active(first) && is_active(second))
}

/// Every finished item precedes the active item, which precedes every
/// pending item, and no two items are active.
pub open spec fn queue_shaped(queue: Seq<QueueItemView>) -> bool {
    forall|i: int, j: int| #![trigger queue[i], queue[j]] 0 <= i < j < queue.len() ==> in_order(queue[i], queue[j])
}

/// Whether every item of `items` is pending.
pub open spec fn all_pending(items: Seq<QueueItemView>) -> bool {
    forall|k: int| 0 <= k < items.len() ==> stage(#[trigger] items[k]) == 2
}

/// An item may follow a shaped queue when every item may precede it.
pub proof fn lemma_shaped_push(queue: Seq<QueueItemView>, item: QueueItemView)
    requires
        queue_shaped(queue),
        forall|k: int| 0 <= k < queue.len() ==> in_order(#[trigger] queue[k], item),
    ensures
        queue_shaped(queue.push(item)),
{
    let longer = queue.push(item);
    assert forall|i: int, j: int| #![trigger longer[i], longer[j]] 0 <= i < j < longer.len() implies in_order(
        longer[i],
        longer[j],
    ) by {
        assert(longer[i] == queue[i]);
        if j < queue.len() {
            assert(longer[j] == queue[j]);
        } else {
            assert(longer[j] == item);
        }
    }
}

/// A prefix of a shaped queue is shaped.
proof fn lemma_shaped_drop_last(queue: Seq<QueueItemView>)
    requires
        queue_shaped(queue),
        queue.len() > 0,
    ensures
        queue_shaped(queue.drop_last()),
{
    let shorter = queue.drop_last();
    assert forall|i: int, j: int| #![trigger shorter[i], shorter[j]] 0 <= i < j < shorter.len() implies in_order(
        shorter[i],
        shorter[j],
    ) by {
        assert(shorter[i] == queue[i] && shorter[j] == queue[j]);
    }
}

/// Keeping some items of a shaped queue, in order, leaves it shaped.
pub proof fn lemma_shaped_filter(queue: Seq<QueueItemView>, keep: spec_fn(QueueItemView) -> bool)
    requires
        queue_shaped(queue),
    ensures
        queue_shaped(queue.filter(keep)),
    decreases queue.len(),
{
    reveal(Seq::filter);
    if queue.len() > 0 {
        let shorter = queue.drop_last();
        let last = queue.last();
        lemma_shaped_drop_last(queue);
        lemma_shaped_filter(shorter, keep);
        assert(shorter.push(last) =~= queue);
        shorter.lemma_filter_push(last, keep);
        if keep(last) {
            let kept = shorter.filter(keep);
            assert forall|k: int| 0 <= k < kept.len() implies in_order(#[trigger] kept[k], last) by {
                assert(kept.contains(kept[k]));
                shorter.lemma_filter_contains_rev(keep, kept[k]);
                let m = choose|m: int| 0 <= m < shorter.len() && shorter[m] == kept[k];
                assert(shorter[m] == queue[m]);
                assert(last == queue[queue.len() - 1]);
            }
            lemma_shaped_push(kept, last);
        }
    }
}

/// Replacing an item by one of the same stage keeps a queue shaped.
pub proof fn lemma_shaped_same_stage(queue: Seq<QueueItemView>, index: int, item: QueueItemView)
    requires
        queue_shaped(queue),
        0 <= index < queue.len(),
        stage(item) == stage(queue[index]),
    ensures
        queue_shaped(queue.update(index, item)),
{
    let updated = queue.update(index, item);
    assert forall|i: int, j: int| #![trigger updated[i], updated[j]] 0 <= i < j < updated.len() implies in_order(
        updated[i],
        updated[j],
    ) by {
        assert(queue[i] == queue[i] && queue[j] == queue[j]);
    }
}

/// Finishing the active item keeps a queue shaped.
pub proof fn lemma_shaped_finish(queue: Seq<QueueItemView>, index: int, item: QueueItemView)
    requires
        queue_shaped(queue),
        0 <= index < queue.len(),
        is_active(queue[index]),
        stage(item) == 0,
    ensures
        queue_shaped(queue.update(index, item)),
{
    let updated = queue.update(index, item);
    assert forall|i: int, j: int| #![trigger updated[i], updated[j]] 0 <= i < j < updated.len() implies in_order(
        updated[i],
        updated[j],
    ) by {
        if i == index {
            assert(in_order(queue[i], queue[j]));
        } else if j == index {
            assert(in_order(queue[i], queue[j]));
        } else {
            assert(in_order(queue[i], queue[j]));
        }
    }
}

/// Reserving the first pending item of a queue with no active item keeps
/// it shaped.
pub proof fn lemma_shaped_reserve(queue: Seq<QueueItemView>, index: int, item: QueueItemView)
    requires
        queue_shaped(queue),
        0 <= index < queue.len(),
        is_pending(queue[index]),
        forall|k: int| 0 <= k < index ==> !is_pending(#[trigger] queue[k]),
        forall|k: int| 0 <= k < queue.len() ==> !is_active(#[trigger] queue[k]),
        is_active(item),
    ensures
        queue_shaped(queue.update(index, item)),
{
    let updated = queue.update(index, item);
    assert forall|i: int, j: int| #![trigger updated[i], updated[j]] 0 <= i < j < updated.len() implies in_order(
        updated[i],
        updated[j],
    ) by {
        assert(in_order(queue[i], queue[j]));
        if j == index {
            assert(!is_pending(queue[i]) && !is_active(queue[i]));
        } else if i == index {
            assert(in_order(queue[index], queue[j]));
            assert(!is_active(queue[j]));
        }
    }
}

/// Removing an item keeps a queue shaped.
pub proof fn lemma_shaped_remove(queue: Seq<QueueItemView>, index: int)
    requires
        queue_shaped(queue),
        0 <= index < queue.len(),
    ensures
        queue_shaped(queue.remove(index)),
{
    let shorter = queue.remove(index);
    assert forall|i: int, j: int| #![trigger shorter[i], shorter[j]] 0 <= i < j < shorter.len() implies in_order(
        shorter[i],
        shorter[j],
    ) by {
        let a = if i < index { i } else { i + 1 };
        let b = if j < index { j } else { j + 1 };
        assert(shorter[i] == queue[a] && shorter[j] == queue[b]);
        assert(in_order(queue[a], queue[b]));
    }
}

/// Inserting a pending item at the end, or before a pending item, keeps a
/// queue shaped.
pub proof fn lemma_shaped_insert_pending(queue: Seq<QueueItemView>, at: int, item: QueueItemView)
    requires
        queue_shaped(queue),
        0 <= at <= queue.len(),
        at < queue.len() ==> stage(queue[at]) == 2,
        stage(item) == 2,
    ensures
        queue_shaped(queue.insert(at, item)),
{
    let longer = queue.insert(at, item);
    assert forall|i: int, j: int| #![trigger longer[i], longer[j]] 0 <= i < j < longer.len() implies in_order(
        longer[i],
        longer[j],
    ) by {
        if i == at {
            assert(longer[j] == queue[j - 1]);
            if j - 1 > at {
                assert(in_order(queue[at], queue[j - 1]));
            }
        } else if j == at {
            assert(longer[i] == queue[i]);
        } else {
            let a = if i < at { i } else { i - 1 };
            let b = if j < at { j } else { j - 1 };
            assert(longer[i] == queue[a] && longer[j] == queue[b]);
            assert(in_order(queue[a], queue[b]));
        }
    }
}

/// Pending items may follow a shaped queue.
pub proof fn lemma_shaped_then_pending(queue: Seq<QueueItemView>, pending: Seq<QueueItemView>)
    requires
        queue_shaped(queue),
        all_pending(pending),
    ensures
        queue_shaped(queue + pending),
{
    let joined = queue + pending;
    assert forall|i: int, j: int| #![trigger joined[i], joined[j]] 0 <= i < j < joined.len() implies in_order(
        joined[i],
        joined[j],
    ) by {
        if j < queue.len() {
            assert(joined[i] == queue[i] && joined[j] == queue[j]);
        } else if i < queue.len() {
            assert(joined[i] == queue[i]);
            assert(joined[j] == pending[j - queue.len()]);
        } else {
            assert(joined[i] == pending[i - queue.len()]);
            assert(joined[j] == pending[j - queue.len()]);
        }
    }
}


/// No two items of the queue share an id.
pub open spec fn ids_distinct(queue: Seq<QueueItemView>) -> bool {
    forall|i: int, j: int| #![trigger queue[i], queue[j]] 0 <= i < j < queue.len() ==> queue[i].id != queue[j].id
}

/// Whether a delta can change the queue.
pub open spec fn touches_queue(delta: DurableDeltaView) -> bool {
    match delta {
        DurableDeltaView::QueueAdded { .. } => true,
        DurableDeltaView::QueueRemoved { .. } => true,
        DurableDeltaView::QueueMoved { .. } => true,
        DurableDeltaView::QueueReordered { .. } => true,
        DurableDeltaView::QueueRequeued { .. } => true,
        DurableDeltaView::QueueEdited { .. } => true,
        DurableDeltaView::ItemReserved { .. } => true,
        DurableDeltaView::ItemPrepared { .. } => true,
        DurableDeltaView::ItemRunning { .. } => true,
        DurableDeltaView::ItemFinished { .. } => true,
        _ => false,
    }
}

/// Deltas that cannot change the queue leave it as it is.
proof fn lemma_quiet_deltas(durable: DurableStateView, deltas: Seq<DurableDeltaView>)
    requires
        forall|k: int| 0 <= k < deltas.len() ==> !touches_queue(#[trigger] deltas[k]),
    ensures
        durable_after(durable, deltas).queue == durable.queue,
    decreases deltas.len(),
{
    if deltas.len() > 0 {
        let earlier = deltas.drop_last();
        assert forall|k: int| 0 <= k < earlier.len() implies !touches_queue(#[trigger] earlier[k]) by {
            assert(earlier[k] == deltas[k]);
        }
        lemma_quiet_deltas(durable, earlier);
        assert(!touches_queue(deltas[deltas.len() - 1]));
    }
}

/// The queue with a new state for the item `id`, when that item is active:
/// still shaped as long as the new state is not pending.
proof fn lemma_restate_active(queue: Seq<QueueItemView>, id: QueueItemId, state: QueueItemStateView)
    requires
        queue_shaped(queue),
        first_match(queue, has_id(id)) is Some,
        is_active(first_match(queue, has_id(id))->0),
        !(state is Queued),
    ensures
        queue_shaped(with_item_state(queue, id, state)),
{
    lemma_first_index(queue, has_id(id));
    let index = first_index(queue, has_id(id));
    let item = QueueItemView { state, ..queue[index] };
    if state is Finished {
        lemma_shaped_finish(queue, index, item);
    } else {
        lemma_shaped_same_stage(queue, index, item);
    }
}

/// Removing the given items one by one keeps a queue shaped.
proof fn lemma_removals_keep_shape(durable: DurableStateView, items: Seq<QueueItemView>)
    requires
        queue_shaped(durable.queue),
    ensures
        queue_shaped(durable_after(durable, removals(items)).queue),
    decreases items.len(),
{
    if items.len() > 0 {
        lemma_removals_keep_shape(durable, items.drop_last());
        assert(removals(items).drop_last() =~= removals(items.drop_last()));
        let before = durable_after(durable, removals(items.drop_last()));
        lemma_shaped_filter(before.queue, crate::state::other_than(items.last().id));
    }
}

/// Adding items folds them onto the end of the queue.
proof fn lemma_additions_fold(durable: DurableStateView, items: Seq<QueueItemView>)
    ensures
        durable_after(durable, additions(items)).queue == durable.queue + items,
    decreases items.len(),
{
    if items.len() == 0 {
        assert(durable.queue + items =~= durable.queue);
    } else {
        lemma_additions_fold(durable, items.drop_last());
        assert(additions(items).drop_last() =~= additions(items.drop_last()));
        assert((durable.queue + items.drop_last()).push(items.last()) =~= durable.queue + items);
    }
}

/// Taking pending items in a submitted order leaves pending items on both
/// sides.
pub proof fn lemma_picked_pending(pending: Seq<QueueItemView>, order: Seq<QueueItemId>)
    requires
        all_pending(pending),
    ensures
        all_pending(picked(pending, order).0),
        all_pending(picked(pending, order).1),
    decreases order.len(),
{
    if order.len() > 0 {
        lemma_picked_pending(pending, order.drop_last());
        let (taken, left) = picked(pending, order.drop_last());
        let index = first_index(left, has_id(order.last()));
        lemma_first_index(left, has_id(order.last()));
        if index >= 0 {
            let more = taken.push(left[index]);
            assert forall|k: int| 0 <= k < more.len() implies stage(#[trigger] more[k]) == 2 by {
                if k < taken.len() {
                    assert(more[k] == taken[k]);
                }
            }
            let fewer = left.remove(index);
            assert forall|k: int| 0 <= k < fewer.len() implies stage(#[trigger] fewer[k]) == 2 by {
                if k < index {
                    assert(fewer[k] == left[k]);
                } else {
                    assert(fewer[k] == left[k + 1]);
                }
            }
        }
    }
}

/// The pending items of a queue are pending.
pub proof fn lemma_pending_items_pending(queue: Seq<QueueItemView>)
    ensures
        all_pending(pending_items(queue)),
{
    let pending = pending_items(queue);
    assert forall|k: int| 0 <= k < pending.len() implies stage(#[trigger] pending[k]) == 2 by {
        queue.lemma_filter_pred(crate::state::pending_filter(), k);
    }
}


/// Moving a pending item before another pending item, or to the end, keeps
/// a queue whose ids are distinct shaped.
proof fn lemma_move_keeps_shape(queue: Seq<QueueItemView>, item_id: QueueItemId, before: Option<QueueItemId>)
    requires
        queue_shaped(queue),
        ids_distinct(queue),
        first_index(queue, has_id(item_id)) >= 0,
        is_pending(queue[first_index(queue, has_id(item_id))]),
        before != Some(item_id),
        before matches Some(target) ==> exists|p: int| 0 <= p < queue.len() && #[trigger] queue[p].id == target && is_pending(queue[p]),
    ensures
        queue_shaped(crate::state::moved_item(queue, item_id, before)),
{
    lemma_first_index(queue, has_id(item_id));
    let source = first_index(queue, has_id(item_id));
    let rest = queue.remove(source);
    lemma_shaped_remove(queue, source);
    let moving = queue[source];
    if let Some(target) = before {
        lemma_first_index(rest, has_id(target));
        let p = choose|p: int| 0 <= p < queue.len() && #[trigger] queue[p].id == target && is_pending(queue[p]);
        assert(p != source);
        let at = if p < source { p } else { p - 1 };
        assert(rest[at] == queue[p]);
        let found = first_index(rest, has_id(target));
        assert(found >= 0);
        let m = if found < source { found } else { found + 1 };
        assert(rest[found] == queue[m]);
        assert(queue[m].id == target);
        if m != p {
            if m < p {
                assert(queue[m].id != queue[p].id);
            } else {
                assert(queue[p].id != queue[m].id);
            }
        }
        lemma_shaped_insert_pending(rest, found, moving);
    } else {
        lemma_shaped_insert_pending(rest, rest.len() as int, moving);
    }
}

/// Every queue command keeps a queue whose ids are distinct shaped.
pub proof fn lemma_queue_commands_keep_shape(state: AppStateView, command: QueueCommandView)
    requires
        queue_shaped(state.durable.queue),
        ids_distinct(state.durable.queue),
    ensures
        queue_shaped(durable_after(state.durable, queue_outcome(state, command).durable).queue),
{
    let queue = state.durable.queue;
    let outcome = queue_outcome(state, command);
    if outcome.durable.len() == 1 {
        assert(outcome.durable.drop_last() =~= Seq::<DurableDeltaView>::empty());
        assert(durable_after(state.durable, outcome.durable.drop_last()) == state.durable);
        assert(durable_after(state.durable, outcome.durable) == folded(state.durable, outcome.durable[0]));
    }
    match command {
        QueueCommandView::AddMany { requests } => {
            if let Some((accepted, _)) = add_batch(state.durable, requests) {
                lemma_accepted_items_are_fresh(state.durable, requests);
                assert(accepted_items(state.durable, requests) == accepted);
                assert forall|k: int| 0 <= k < accepted.len() implies stage(#[trigger] accepted[k]) == 2 by {
                    assert(accepted_items(state.durable, requests)[k] == accepted[k]);
                }
                lemma_additions_fold(state.durable, accepted);
                lemma_shaped_then_pending(queue, accepted);
                assert(outcome.durable == additions(accepted));
                assert(durable_after(state.durable, outcome.durable).queue == queue + accepted);
                assert(queue_shaped(durable_after(state.durable, outcome.durable).queue));
            } else {
                assert(outcome.durable.len() == 0);
                assert(durable_after(state.durable, outcome.durable) == state.durable);
            }
            assert(queue_shaped(durable_after(state.durable, outcome.durable).queue));
        },
        QueueCommandView::Remove { item_id } => {
            lemma_shaped_filter(queue, crate::state::other_than(item_id));

            assert(queue_shaped(durable_after(state.durable, outcome.durable).queue));
        },
        QueueCommandView::Move { item_id, before } => {
            lemma_first_index(queue, has_id(item_id));
            lemma_first_index(queue, pending_entry_of());
            if let Some(target) = before {
                lemma_first_index(queue, has_id(target));
            }
            if outcome.durable.len() > 0 {
                if let DurableDeltaView::QueueMoved { before: resolved, .. } = outcome.durable[0] {
                    if let Some(chosen) = resolved {
                        let explicit = match before {
                            Some(target) => first_index(queue, has_id(target)),
                            None => -1,
                        };
                        let fallback = first_index(queue, pending_entry_of());
                        if explicit >= 0 && queue[explicit].id == chosen && is_pending(queue[explicit]) {
                            assert(queue[explicit].id == chosen);
                        } else {
                            assert(queue[fallback].id == chosen);
                        }
                    }
                    lemma_move_keeps_shape(queue, item_id, resolved);
                }
            }
            assert(queue_shaped(durable_after(state.durable, outcome.durable).queue));
        },
        QueueCommandView::ReorderPending { pending_order } => {
            if outcome.durable.len() > 0 {
                let frozen = frozen_items(queue);
                lemma_shaped_filter(queue, crate::state::frozen_filter());
                lemma_pending_items_pending(queue);
                lemma_picked_pending(pending_items(queue), pending_order);
                let (taken, left) = picked(pending_items(queue), pending_order);
                assert forall|k: int| 0 <= k < (taken + left).len() implies stage(#[trigger] (taken + left)[k]) == 2 by {
                    if k < taken.len() {
                        assert((taken + left)[k] == taken[k]);
                    } else {
                        assert((taken + left)[k] == left[k - taken.len()]);
                    }
                }
                lemma_shaped_then_pending(frozen, taken + left);
                assert(frozen + taken + left =~= frozen + (taken + left));
            }
            assert(queue_shaped(durable_after(state.durable, outcome.durable).queue));
        },
        QueueCommandView::Clear => {
            lemma_removals_keep_shape(state.durable, queue.filter(crate::queue_commands::clear_filter()));
            assert(queue_shaped(durable_after(state.durable, outcome.durable).queue));
        },
        QueueCommandView::ClearCompleted => {
            lemma_removals_keep_shape(state.durable, queue.filter(crate::queue_commands::completed_filter()));
            assert(queue_shaped(durable_after(state.durable, outcome.durable).queue));
        },
        QueueCommandView::Retry { item_id } => {
            if outcome.durable.len() > 0 {
                lemma_first_index(queue, has_id(item_id));
                let source = first_index(queue, has_id(item_id));
                let rest = queue.remove(source);
                lemma_shaped_remove(queue, source);
                let again = QueueItemView { state: QueueItemStateView::Queued, ..queue[source] };
                assert forall|k: int| 0 <= k < rest.len() implies in_order(#[trigger] rest[k], again) by {}
                lemma_shaped_push(rest, again);
            }
            assert(queue_shaped(durable_after(state.durable, outcome.durable).queue));
        },
        QueueCommandView::Edit { item_id, .. } => {
            if outcome.durable.len() > 0 {
                lemma_first_index(queue, has_id(item_id));
                if let DurableDeltaView::QueueEdited { operation, intent, output_target, overwrite, .. } = outcome.durable[0] {
                    let index = first_index(queue, has_id(item_id));
                    lemma_shaped_same_stage(
                        queue,
                        index,
                        QueueItemView { operation, intent, output_target, overwrite, ..queue[index] },
                    );
                }
            }
            assert(queue_shaped(durable_after(state.durable, outcome.durable).queue));
        },
    }
    assert(queue_shaped(durable_after(state.durable, outcome.durable).queue));
}

/// The predicate that finds the first pending item.
pub open spec fn pending_entry_of() -> spec_fn(QueueItemView) -> bool {
    crate::queue_commands::pending_entry()
}


/// The deltas of a prepared claim: everything but the last leaves the queue
/// alone, and the last claims the item.
proof fn lemma_preparation_deltas(
    state: AppStateView,
    observation: Option<crate::MediaObservationView>,
    import_paths: Seq<crate::ImportPathView>,
    spec: crate::JobSpecView,
)
    ensures
        crate::worker_commands::preparation_deltas(state, observation, import_paths, spec).len() > 0,
        crate::worker_commands::preparation_deltas(state, observation, import_paths, spec).last()
            == (DurableDeltaView::ItemPrepared { spec }),
        forall|k: int|
            0 <= k < crate::worker_commands::preparation_deltas(state, observation, import_paths, spec).len() - 1
                ==> !touches_queue(#[trigger] crate::worker_commands::preparation_deltas(state, observation, import_paths, spec)[k]),
{
    let deltas = crate::worker_commands::preparation_deltas(state, observation, import_paths, spec);
    let observed = match observation {
        Some(seen) => if crate::worker_commands::observation_changes(state.durable, seen) {
            seq![DurableDeltaView::MediaObserved { observation: seen }]
        } else {
            Seq::empty()
        },
        None => Seq::empty(),
    };
    let adoptions = crate::worker_commands::claim_adoptions(state, observation, import_paths).deltas;
    assert(deltas == observed + adoptions + seq![DurableDeltaView::ItemPrepared { spec }]);
    assert forall|k: int| 0 <= k < deltas.len() - 1 implies !touches_queue(#[trigger] deltas[k]) by {
        if k < observed.len() {
            assert(deltas[k] == observed[k]);
        } else {
            assert(deltas[k] == adoptions[k - observed.len()]);
        }
    }
}

/// Applying one delta is folding it.
proof fn lemma_single_delta(durable: DurableStateView, deltas: Seq<DurableDeltaView>)
    requires
        deltas.len() == 1,
    ensures
        durable_after(durable, deltas) == folded(durable, deltas[0]),
{
    assert(deltas.drop_last() =~= Seq::<DurableDeltaView>::empty());
    assert(durable_after(durable, deltas.drop_last()) == durable);
}

/// Applying deltas is applying all but the last, then folding the last.
proof fn lemma_last_delta(durable: DurableStateView, deltas: Seq<DurableDeltaView>)
    requires
        deltas.len() > 0,
    ensures
        durable_after(durable, deltas) == folded(durable_after(durable, deltas.drop_last()), deltas.last()),
{
}

/// No item is active when the queue has no active run.
proof fn lemma_no_active_run(queue: Seq<QueueItemView>)
    requires
        active_run_of(queue) is None,
    ensures
        forall|k: int| 0 <= k < queue.len() ==> !is_active(#[trigger] queue[k]),
{
    let active = |item: QueueItemView| is_active(item);
    lemma_first_index(queue, active);
    let index = first_index(queue, active);
    if index >= 0 {
        assert(is_active(queue[index]));
    }
}

/// In a queue with distinct ids, the first item with an item's id is that
/// item.
proof fn lemma_distinct_first(queue: Seq<QueueItemView>, index: int)
    requires
        ids_distinct(queue),
        0 <= index < queue.len(),
    ensures
        first_index(queue, has_id(queue[index].id)) == index,
{
    lemma_first_index(queue, has_id(queue[index].id));
    let found = first_index(queue, has_id(queue[index].id));
    if found != index {
        assert(found < index);
        assert(queue[found].id == queue[index].id);
    }
}

/// Every worker command keeps a queue whose ids are distinct shaped.
pub proof fn lemma_worker_commands_keep_shape(state: AppStateView, command: WorkerCommandView)
    requires
        queue_shaped(state.durable.queue),
        ids_distinct(state.durable.queue),
    ensures
        queue_shaped(durable_after(state.durable, worker_outcome(state, command).durable).queue),
{
    let queue = state.durable.queue;
    let outcome = worker_outcome(state, command);
    if outcome.durable.len() == 1 {
        lemma_single_delta(state.durable, outcome.durable);
    }
    match command {
        WorkerCommandView::ReserveNext { claim_id, run_id } => {
            if outcome.durable.len() > 0 {
                lemma_no_active_run(queue);
                lemma_first_index(queue, pending_entry_of());
                let index = first_index(queue, pending_entry_of());
                lemma_distinct_first(queue, index);
                lemma_shaped_reserve(
                    queue,
                    index,
                    QueueItemView { state: QueueItemStateView::Reserved { claim_id, run_id }, ..queue[index] },
                );
            }
        },
        WorkerCommandView::PrepareReserved { item_id, claim_id, run_id, observation, import_paths, execution } => {
            if outcome.durable.len() > 0 {
                let item = first_match(queue, has_id(item_id))->0;
                let settled = crate::worker_commands::claim_execution(execution, item.overwrite, state.settings);
                let action = crate::worker_commands::claim_action(state, observation, import_paths, item, settled);
                let spec = crate::JobSpecView {
                    item_id,
                    claim_id,
                    run_id,
                    input: item.input,
                    content_key: crate::worker_commands::observed_key(observation),
                    operation: item.operation,
                    intent: item.intent,
                    output_target: item.output_target,
                    execution: settled,
                    action,
                };
                assert(outcome.durable == crate::worker_commands::preparation_deltas(state, observation, import_paths, spec));
                lemma_preparation_deltas(state, observation, import_paths, spec);
                let before = outcome.durable.drop_last();
                assert forall|k: int| 0 <= k < before.len() implies !touches_queue(#[trigger] before[k]) by {
                    assert(before[k] == outcome.durable[k]);
                }
                lemma_quiet_deltas(state.durable, before);
                lemma_last_delta(state.durable, outcome.durable);
                lemma_restate_active(queue, item_id, QueueItemStateView::Claimed { claim_id, run_id });
            }
        },
        WorkerCommandView::AbandonReservation { item_id, .. } => {
            if outcome.durable.len() > 0 {
                lemma_restate_active(queue, item_id, QueueItemStateView::Finished(crate::ItemOutcomeView::Stopped));
            }
        },
        WorkerCommandView::Started { item_id, claim_id, run_id, .. } => {
            if outcome.durable.len() > 0 {
                lemma_restate_active(queue, item_id, QueueItemStateView::Running { claim_id, run_id });
            }
        },
        WorkerCommandView::Terminal { item_id, outcome: finished_with, .. } => {
            if outcome.durable.len() > 0 {
                lemma_restate_active(queue, item_id, QueueItemStateView::Finished(finished_with));
            }
        },
        _ => {},
    }
}


/// Every command keeps the queue's shape: finished items, then at most one
/// active item, then the pending items. Item ids are distinct in every
/// queue the reducer builds (an add naming a taken id is refused, and
/// replay refuses one too).
pub proof fn lemma_commands_keep_queue_shape(state: AppStateView, command: CommandView)
    requires
        queue_shaped(state.durable.queue),
        ids_distinct(state.durable.queue),
    ensures
        queue_shaped(after_applied(state, command_outcome(state, command)).durable.queue),
{
    let outcome = command_outcome(state, command);
    lemma_ephemeral_keeps_durable(
        AppStateView {
            durable: durable_after(state.durable, outcome.durable),
            settings: settings_after(state.settings, outcome.config),
            ..state
        },
        outcome.ephemeral,
    );
    match command {
        CommandView::Queue(queue_command) => lemma_queue_commands_keep_shape(state, queue_command),
        CommandView::Worker(worker_command) => lemma_worker_commands_keep_shape(state, worker_command),
        _ => {
            if outcome.durable.len() > 0 {
                assert(outcome.durable.len() == 1);
                lemma_single_delta(state.durable, outcome.durable);
            }
        },
    }
}


/// An item whose id no item of a queue carries may follow it.
proof fn lemma_distinct_push(queue: Seq<QueueItemView>, item: QueueItemView)
    requires
        ids_distinct(queue),
        forall|k: int| 0 <= k < queue.len() ==> (#[trigger] queue[k]).id != item.id,
    ensures
        ids_distinct(queue.push(item)),
{
    let longer = queue.push(item);
    assert forall|i: int, j: int| #![trigger longer[i], longer[j]] 0 <= i < j < longer.len() implies longer[i].id != longer[j].id by {
        assert(longer[i] == queue[i]);
        if j < queue.len() {
            assert(longer[j] == queue[j]);
        }
    }
}

/// Keeping some items of a queue with distinct ids keeps them distinct.
pub proof fn lemma_distinct_filter(queue: Seq<QueueItemView>, keep: spec_fn(QueueItemView) -> bool)
    requires
        ids_distinct(queue),
    ensures
        ids_distinct(queue.filter(keep)),
    decreases queue.len(),
{
    reveal(Seq::filter);
    if queue.len() > 0 {
        let shorter = queue.drop_last();
        let last = queue.last();
        assert forall|i: int, j: int| #![trigger shorter[i], shorter[j]] 0 <= i < j < shorter.len() implies shorter[i].id
            != shorter[j].id by {
            assert(shorter[i] == queue[i] && shorter[j] == queue[j]);
        }
        lemma_distinct_filter(shorter, keep);
        assert(shorter.push(last) =~= queue);
        shorter.lemma_filter_push(last, keep);
        if keep(last) {
            let kept = shorter.filter(keep);
            assert forall|k: int| 0 <= k < kept.len() implies (#[trigger] kept[k]).id != last.id by {
                assert(kept.contains(kept[k]));
                shorter.lemma_filter_contains_rev(keep, kept[k]);
                let m = choose|m: int| 0 <= m < shorter.len() && shorter[m] == kept[k];
                assert(shorter[m] == queue[m]);
                assert(last == queue[queue.len() - 1]);
            }
            lemma_distinct_push(kept, last);
        }
    }
}

/// Replacing an item by one with the same id keeps ids distinct.
proof fn lemma_distinct_same_id(queue: Seq<QueueItemView>, index: int, item: QueueItemView)
    requires
        ids_distinct(queue),
        0 <= index < queue.len(),
        item.id == queue[index].id,
    ensures
        ids_distinct(queue.update(index, item)),
{
    let updated = queue.update(index, item);
    assert forall|i: int, j: int| #![trigger updated[i], updated[j]] 0 <= i < j < updated.len() implies updated[i].id
        != updated[j].id by {
        assert(queue[i].id != queue[j].id);
    }
}

/// Removing an item keeps ids distinct, and its id no longer occurs.
proof fn lemma_distinct_remove(queue: Seq<QueueItemView>, index: int)
    requires
        ids_distinct(queue),
        0 <= index < queue.len(),
    ensures
        ids_distinct(queue.remove(index)),
        forall|k: int| 0 <= k < queue.remove(index).len() ==> (#[trigger] queue.remove(index)[k]).id != queue[index].id,
{
    let shorter = queue.remove(index);
    assert forall|i: int, j: int| #![trigger shorter[i], shorter[j]] 0 <= i < j < shorter.len() implies shorter[i].id
        != shorter[j].id by {
        let a = if i < index { i } else { i + 1 };
        let b = if j < index { j } else { j + 1 };
        assert(shorter[i] == queue[a] && shorter[j] == queue[b]);
        assert(queue[a].id != queue[b].id);
    }
    assert forall|k: int| 0 <= k < shorter.len() implies (#[trigger] shorter[k]).id != queue[index].id by {
        if k < index {
            assert(shorter[k] == queue[k]);
            assert(queue[k].id != queue[index].id);
        } else {
            assert(shorter[k] == queue[k + 1]);
            assert(queue[index].id != queue[k + 1].id);
        }
    }
}

/// Inserting an item whose id does not occur keeps ids distinct.
proof fn lemma_distinct_insert(queue: Seq<QueueItemView>, at: int, item: QueueItemView)
    requires
        ids_distinct(queue),
        0 <= at <= queue.len(),
        forall|k: int| 0 <= k < queue.len() ==> (#[trigger] queue[k]).id != item.id,
    ensures
        ids_distinct(queue.insert(at, item)),
{
    let longer = queue.insert(at, item);
    assert forall|i: int, j: int| #![trigger longer[i], longer[j]] 0 <= i < j < longer.len() implies longer[i].id
        != longer[j].id by {
        if i == at {
            assert(longer[j] == queue[j - 1]);
        } else if j == at {
            assert(longer[i] == queue[i]);
        } else {
            let a = if i < at { i } else { i - 1 };
            let b = if j < at { j } else { j - 1 };
            assert(longer[i] == queue[a] && longer[j] == queue[b]);
        }
    }
}

/// The queue with a new state for the item `id` keeps ids distinct.
proof fn lemma_distinct_restate(queue: Seq<QueueItemView>, id: QueueItemId, state: QueueItemStateView)
    requires
        ids_distinct(queue),
    ensures
        ids_distinct(with_item_state(queue, id, state)),
{
    lemma_first_index(queue, has_id(id));
    let index = first_index(queue, has_id(id));
    if index >= 0 {
        lemma_distinct_same_id(queue, index, QueueItemView { state, ..queue[index] });
    }
}


/// Taking pending items in a submitted order keeps their ids distinct, and
/// takes and leaves only pending items.
proof fn lemma_picked_distinct(pending: Seq<QueueItemView>, order: Seq<QueueItemId>)
    requires
        ids_distinct(pending),
    ensures
        ids_distinct(picked(pending, order).0 + picked(pending, order).1),
        forall|k: int|
            0 <= k < (picked(pending, order).0 + picked(pending, order).1).len() ==> pending.contains(
                #[trigger] (picked(pending, order).0 + picked(pending, order).1)[k],
            ),
    decreases order.len(),
{
    if order.len() == 0 {
        assert(Seq::<QueueItemView>::empty() + pending =~= pending);
        assert forall|k: int| 0 <= k < pending.len() implies pending.contains(#[trigger] pending[k]) by {}
    } else {
        lemma_picked_distinct(pending, order.drop_last());
        let (taken, left) = picked(pending, order.drop_last());
        let index = first_index(left, has_id(order.last()));
        lemma_first_index(left, has_id(order.last()));
        if index >= 0 {
            let both = taken + left;
            let at = taken.len() + index;
            assert(both[at] == left[index]);
            let rearranged = both.remove(at).insert(taken.len() as int, both[at]);
            assert(taken.push(left[index]) + left.remove(index) =~= rearranged);
            lemma_distinct_remove(both, at);
            lemma_distinct_insert(both.remove(at), taken.len() as int, both[at]);
            assert forall|k: int| 0 <= k < rearranged.len() implies pending.contains(#[trigger] rearranged[k]) by {
                if k == taken.len() {
                    assert(rearranged[k] == both[at]);
                } else if k < taken.len() {
                    assert(rearranged[k] == both[k]);
                } else if k <= at {
                    assert(rearranged[k] == both[k - 1]);
                } else {
                    assert(rearranged[k] == both[k]);
                }
            }
        }
    }
}

/// Every queue command keeps the ids of a queue distinct.
pub proof fn lemma_queue_commands_keep_ids_distinct(state: AppStateView, command: QueueCommandView)
    requires
        ids_distinct(state.durable.queue),
    ensures
        ids_distinct(durable_after(state.durable, queue_outcome(state, command).durable).queue),
{
    let queue = state.durable.queue;
    let outcome = queue_outcome(state, command);
    if outcome.durable.len() == 1 {
        lemma_single_delta(state.durable, outcome.durable);
    }
    match command {
        QueueCommandView::AddMany { requests } => {
            if let Some((accepted, _)) = add_batch(state.durable, requests) {
                lemma_accepted_items_are_fresh(state.durable, requests);
                assert(accepted_items(state.durable, requests) == accepted);
                lemma_additions_fold(state.durable, accepted);
                let joined = queue + accepted;
                assert forall|i: int, j: int| #![trigger joined[i], joined[j]] 0 <= i < j < joined.len() implies joined[i].id
                    != joined[j].id by {
                    if j < queue.len() {
                        assert(joined[i] == queue[i] && joined[j] == queue[j]);
                    } else {
                        let b = j - queue.len();
                        assert(joined[j] == accepted[b]);
                        assert(!crate::queue_commands::id_taken(queue, accepted.take(b), accepted[b].id));
                        if i < queue.len() {
                            assert(joined[i] == queue[i]);
                        } else {
                            assert(joined[i] == accepted[i - queue.len()]);
                            assert(accepted.take(b)[i - queue.len()] == accepted[i - queue.len()]);
                        }
                    }
                }
                assert(outcome.durable == additions(accepted));
            } else {
                assert(outcome.durable.len() == 0);
            }
        },
        QueueCommandView::Remove { item_id } => {
            lemma_distinct_filter(queue, crate::state::other_than(item_id));
        },
        QueueCommandView::Move { item_id, before } => {
            if outcome.durable.len() > 0 {
                if let DurableDeltaView::QueueMoved { before: resolved, .. } = outcome.durable[0] {
                    lemma_first_index(queue, has_id(item_id));
                    let source = first_index(queue, has_id(item_id));
                    let rest = queue.remove(source);
                    lemma_distinct_remove(queue, source);
                    let found = match resolved {
                        Some(target) => first_index(rest, has_id(target)),
                        None => -1,
                    };
                    crate::lookup::lemma_first_index(rest, has_id(match resolved { Some(target) => target, None => item_id }));
                    let destination = if found >= 0 { found } else { rest.len() as int };
                    lemma_distinct_insert(rest, destination, queue[source]);
                }
            }
        },
        QueueCommandView::ReorderPending { pending_order } => {
            if outcome.durable.len() > 0 {
                let frozen = frozen_items(queue);
                let pending = pending_items(queue);
                lemma_distinct_filter(queue, crate::state::frozen_filter());
                lemma_distinct_filter(queue, crate::state::pending_filter());
                lemma_picked_distinct(pending, pending_order);
                lemma_pending_items_pending(queue);
                lemma_picked_pending(pending, pending_order);
                let (taken, left) = picked(pending, pending_order);
                let tail = taken + left;
                let joined = frozen + tail;
                assert forall|i: int, j: int| #![trigger joined[i], joined[j]] 0 <= i < j < joined.len() implies joined[i].id
                    != joined[j].id by {
                    if j < frozen.len() {
                        assert(joined[i] == frozen[i] && joined[j] == frozen[j]);
                    } else if i >= frozen.len() {
                        assert(joined[i] == tail[i - frozen.len()] && joined[j] == tail[j - frozen.len()]);
                    } else {
                        let f = frozen[i];
                        let t = tail[j - frozen.len()];
                        assert(joined[i] == f && joined[j] == t);
                        assert(frozen.contains(f));
                        queue.lemma_filter_contains_rev(crate::state::frozen_filter(), f);
                        queue.lemma_filter_pred(crate::state::frozen_filter(), i);
                        assert(pending.contains(t));
                        queue.lemma_filter_contains_rev(crate::state::pending_filter(), t);
                        let a = choose|a: int| 0 <= a < queue.len() && queue[a] == f;
                        let b = choose|b: int| 0 <= b < queue.len() && queue[b] == t;
                        if t.state is Queued {
                            assert(!is_pending(f));
                            assert(a != b);
                            if a < b {
                                assert(queue[a].id != queue[b].id);
                            } else {
                                assert(queue[b].id != queue[a].id);
                            }
                        }
                        assert(stage(tail[j - frozen.len()]) == 2);
                    }
                }
                assert(frozen + taken + left =~= joined);
            }
        },
        QueueCommandView::Clear => {
            lemma_removals_keep_distinct(state.durable, queue.filter(crate::queue_commands::clear_filter()));
        },
        QueueCommandView::ClearCompleted => {
            lemma_removals_keep_distinct(state.durable, queue.filter(crate::queue_commands::completed_filter()));
        },
        QueueCommandView::Retry { item_id } => {
            if outcome.durable.len() > 0 {
                lemma_first_index(queue, has_id(item_id));
                let source = first_index(queue, has_id(item_id));
                lemma_distinct_remove(queue, source);
                lemma_distinct_push(queue.remove(source), QueueItemView { state: QueueItemStateView::Queued, ..queue[source] });
            }
        },
        QueueCommandView::Edit { item_id, .. } => {
            if outcome.durable.len() > 0 {
                lemma_first_index(queue, has_id(item_id));
                if let DurableDeltaView::QueueEdited { operation, intent, output_target, overwrite, .. } = outcome.durable[0] {
                    let index = first_index(queue, has_id(item_id));
                    lemma_distinct_same_id(
                        queue,
                        index,
                        QueueItemView { operation, intent, output_target, overwrite, ..queue[index] },
                    );
                }
            }
        },
    }
}

/// Removing the given items one by one keeps ids distinct.
proof fn lemma_removals_keep_distinct(durable: DurableStateView, items: Seq<QueueItemView>)
    requires
        ids_distinct(durable.queue),
    ensures
        ids_distinct(durable_after(durable, removals(items)).queue),
    decreases items.len(),
{
    if items.len() > 0 {
        lemma_removals_keep_distinct(durable, items.drop_last());
        assert(removals(items).drop_last() =~= removals(items.drop_last()));
        let before = durable_after(durable, removals(items.drop_last()));
        lemma_distinct_filter(before.queue, crate::state::other_than(items.last().id));
    }
}


/// Every worker command keeps the ids of a queue distinct.
pub proof fn lemma_worker_commands_keep_ids_distinct(state: AppStateView, command: WorkerCommandView)
    requires
        ids_distinct(state.durable.queue),
    ensures
        ids_distinct(durable_after(state.durable, worker_outcome(state, command).durable).queue),
{
    let queue = state.durable.queue;
    let outcome = worker_outcome(state, command);
    if outcome.durable.len() == 1 {
        lemma_single_delta(state.durable, outcome.durable);
    }
    match command {
        WorkerCommandView::ReserveNext { claim_id, run_id } => {
            if outcome.durable.len() > 0 {
                let item = first_match(queue, pending_entry_of())->0;
                lemma_distinct_restate(queue, item.id, QueueItemStateView::Reserved { claim_id, run_id });
            }
        },
        WorkerCommandView::PrepareReserved { item_id, claim_id, run_id, observation, import_paths, execution } => {
            if outcome.durable.len() > 0 {
                let item = first_match(queue, has_id(item_id))->0;
                let settled = crate::worker_commands::claim_execution(execution, item.overwrite, state.settings);
                let action = crate::worker_commands::claim_action(state, observation, import_paths, item, settled);
                let spec = crate::JobSpecView {
                    item_id,
                    claim_id,
                    run_id,
                    input: item.input,
                    content_key: crate::worker_commands::observed_key(observation),
                    operation: item.operation,
                    intent: item.intent,
                    output_target: item.output_target,
                    execution: settled,
                    action,
                };
                assert(outcome.durable == crate::worker_commands::preparation_deltas(state, observation, import_paths, spec));
                lemma_preparation_deltas(state, observation, import_paths, spec);
                let before = outcome.durable.drop_last();
                assert forall|k: int| 0 <= k < before.len() implies !touches_queue(#[trigger] before[k]) by {
                    assert(before[k] == outcome.durable[k]);
                }
                lemma_quiet_deltas(state.durable, before);
                lemma_last_delta(state.durable, outcome.durable);
                lemma_distinct_restate(queue, item_id, QueueItemStateView::Claimed { claim_id, run_id });
            }
        },
        WorkerCommandView::AbandonReservation { item_id, .. } => {
            lemma_distinct_restate(queue, item_id, QueueItemStateView::Finished(crate::ItemOutcomeView::Stopped));
        },
        WorkerCommandView::Started { item_id, claim_id, run_id, .. } => {
            lemma_distinct_restate(queue, item_id, QueueItemStateView::Running { claim_id, run_id });
        },
        WorkerCommandView::Terminal { item_id, outcome: finished_with, .. } => {
            lemma_distinct_restate(queue, item_id, QueueItemStateView::Finished(finished_with));
        },
        _ => {},
    }
}

/// The queue invariant: it is shaped, and no two of its items share an id.
pub open spec fn queue_invariant(queue: Seq<QueueItemView>) -> bool {
    queue_shaped(queue) && ids_distinct(queue)
}

/// Every command keeps the queue invariant: finished items, then at most
/// one active item, then the pending items, with no id twice. The empty
/// queue of a fresh engine holds it, so every queue the reducer builds does.
pub proof fn lemma_commands_keep_queue_invariant(state: AppStateView, command: CommandView)
    requires
        queue_invariant(state.durable.queue),
    ensures
        queue_invariant(after_applied(state, command_outcome(state, command)).durable.queue),
{
    lemma_commands_keep_queue_shape(state, command);
    let outcome = command_outcome(state, command);
    lemma_ephemeral_keeps_durable(
        AppStateView {
            durable: durable_after(state.durable, outcome.durable),
            settings: settings_after(state.settings, outcome.config),
            ..state
        },
        outcome.ephemeral,
    );
    match command {
        CommandView::Queue(queue_command) => lemma_queue_commands_keep_ids_distinct(state, queue_command),
        CommandView::Worker(worker_command) => lemma_worker_commands_keep_ids_distinct(state, worker_command),
        _ => {
            if outcome.durable.len() > 0 {
                lemma_single_delta(state.durable, outcome.durable);
            }
        },
    }
}

/// An empty queue, the one a fresh engine starts with, holds the invariant,
/// and a queue that holds it keeps it through any run of live commands.
pub proof fn lemma_live_queue_keeps_invariant(state: AppStateView, commands: Seq<CommandView>)
    requires
        queue_invariant(state.durable.queue),
    ensures
        queue_invariant(Seq::<QueueItemView>::empty()),
        queue_invariant(crate::durability::live_after(state, commands).durable.queue),
    decreases commands.len(),
{
    if commands.len() > 0 {
        lemma_live_queue_keeps_invariant(state, commands.drop_last());
        lemma_commands_keep_queue_invariant(crate::durability::live_after(state, commands.drop_last()), commands.last());
    }
}

} // verus!
