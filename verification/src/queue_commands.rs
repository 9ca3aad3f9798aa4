//! Queue commands: adding with the enqueue filter, removing, reordering,
//! clearing, retrying and editing queue items.

use vstd::prelude::*;

use crate::lookup::{first_index, first_match, lemma_first_index_is, lemma_first_index_none};
use crate::model::{views, Duplicate, SameView};
use crate::policy::{enqueue_skip, evaluate_enqueue};
use crate::reducer::{accepted_view, rejected_view};
use crate::state::{
    find_item, has_id, is_pending, lemma_durable_views, lemma_filter_prefix_step, pending_items,
    pending_order_validation, validate_pending_order, pending_filter,
};
use crate::{
    AppState, AppStateView, Applied, AppliedView, DurableDelta, DurableDeltaView, DurableStateView,
    EphemeralDelta, EphemeralDeltaView, ItemOutcomeView, QueueAddRequest, QueueAddRequestView,
    QueueCommand, QueueCommandView, QueueItem, QueueItemId, QueueItemState, QueueItemStateView,
    QueueItemView, SessionState, SkipCount, SkipReason,
};

verus! {

/// Whether an id is already used by the queue or earlier in the batch.
pub open spec fn id_taken(queue: Seq<QueueItemView>, accepted: Seq<QueueItemView>, id: QueueItemId) -> bool {
    (exists|k: int| 0 <= k < queue.len() && #[trigger] queue[k].id == id) || (exists|k: int|
        0 <= k < accepted.len() && #[trigger] accepted[k].id == id)
}

/// Whether a path is already standing in the queue: unfinished there, or
/// accepted earlier in the batch.
pub open spec fn path_queued(queue: Seq<QueueItemView>, accepted: Seq<QueueItemView>, input: Seq<char>) -> bool {
    (exists|k: int| 0 <= k < queue.len() && !(queue[k].state is Finished) && #[trigger] queue[k].input == input)
        || (exists|k: int| 0 <= k < accepted.len() && #[trigger] accepted[k].input == input)
}

/// The skip an add request earns: a standing path is already queued;
/// otherwise the enqueue filter judges the cached facts.
pub open spec fn add_skip(durable: DurableStateView, accepted: Seq<QueueItemView>, request: QueueAddRequestView) -> Option<SkipReason> {
    if path_queued(durable.queue, accepted, request.input) {
        Some(SkipReason::AlreadyQueued)
    } else {
        match request.path_hash {
            Some(path_hash) => enqueue_skip(
                durable,
                path_hash,
                request.identity,
                request.timestamp_reliability,
                request.operation,
                request.intent,
            ),
            None => None,
        }
    }
}

/// The queue item an accepted request becomes.
pub open spec fn queued_item(request: QueueAddRequestView) -> QueueItemView {
    QueueItemView {
        id: request.item_id,
        input: request.input,
        operation: request.operation,
        intent: request.intent,
        output_target: request.output_target,
        overwrite: request.overwrite,
        state: QueueItemStateView::Queued,
    }
}

/// Whether a summary entry counts `reason`.
pub open spec fn for_reason(reason: SkipReason) -> spec_fn(SkipCount) -> bool {
    |entry: SkipCount| entry.reason == reason
}

/// The deltas adding accepted items, in order.
pub open spec fn additions(items: Seq<QueueItemView>) -> Seq<DurableDeltaView> {
    items.map_values(|item: QueueItemView| DurableDeltaView::QueueAdded { item })
}

/// The skip summary with one more skip for `reason`.
pub open spec fn counted(skipped: Seq<SkipCount>, reason: SkipReason) -> Seq<SkipCount> {
    let index = first_index(skipped, for_reason(reason));
    if index >= 0 {
        skipped.update(
            index,
            SkipCount { reason, count: crate::state::bumped(skipped[index].count) },
        )
    } else {
        skipped.push(SkipCount { reason, count: 1 })
    }
}

/// The accepted items and skip counts of a batch, or `None` when an item
/// id collides, which rejects the whole batch.
pub open spec fn add_batch(durable: DurableStateView, requests: Seq<QueueAddRequestView>) -> Option<(Seq<QueueItemView>, Seq<SkipCount>)>
    decreases requests.len(),
{
    if requests.len() == 0 {
        Some((Seq::empty(), Seq::empty()))
    } else {
        match add_batch(durable, requests.drop_last()) {
            None => None,
            Some((accepted, skipped)) => {
                let request = requests.last();
                if id_taken(durable.queue, accepted, request.item_id) {
                    None
                } else {
                    match add_skip(durable, accepted, request) {
                        Some(reason) => Some((accepted, counted(skipped, reason))),
                        None => Some((accepted.push(queued_item(request)), skipped)),
                    }
                }
            },
        }
    }
}

/// The delta removing an item.
pub open spec fn removal(item: QueueItemView) -> DurableDeltaView {
    DurableDeltaView::QueueRemoved { item_id: item.id }
}

/// Whether `clear` removes an item: pending or finished.
pub open spec fn clearable(item: QueueItemView) -> bool {
    item.state is Queued || item.state is Finished
}

/// Whether `clear completed` removes an item: finished without failing.
pub open spec fn completed(item: QueueItemView) -> bool {
    match item.state {
        QueueItemStateView::Finished(outcome) => !(outcome is Failed),
        _ => false,
    }
}

/// The items `clear` removes.
pub open spec fn clear_filter() -> spec_fn(QueueItemView) -> bool {
    |item: QueueItemView| clearable(item)
}

/// The items `clear completed` removes.
pub open spec fn completed_filter() -> spec_fn(QueueItemView) -> bool {
    |item: QueueItemView| completed(item)
}

/// The deltas removing the given items, in order.
pub open spec fn removals(items: Seq<QueueItemView>) -> Seq<DurableDeltaView> {
    items.map_values(|item: QueueItemView| removal(item))
}

/// Whether a queue item is pending, as a predicate.
pub open spec fn pending_entry() -> spec_fn(QueueItemView) -> bool {
    |entry: QueueItemView| is_pending(entry)
}

/// The ids of the pending items, in queue order.
pub open spec fn pending_ids(queue: Seq<QueueItemView>) -> Seq<QueueItemId> {
    pending_items(queue).map_values(|item: QueueItemView| item.id)
}

/// The outcome of a queue command.
pub open spec fn queue_outcome(state: AppStateView, command: QueueCommandView) -> AppliedView {
    let queue = state.durable.queue;
    match command {
        QueueCommandView::AddMany { requests } => match add_batch(state.durable, requests) {
            None => rejected_view("queue item id already exists"@),
            Some((accepted, skipped)) => AppliedView {
                durable: additions(accepted),
                ephemeral: seq![
                    EphemeralDeltaView::QueueAddSummary {
                        added: crate::reducer::saturated_count(accepted.len() as int),
                        skipped,
                    },
                ],
                ..accepted_view()
            },
        },
        QueueCommandView::Remove { item_id } => match first_match(queue, has_id(item_id)) {
            None => rejected_view("queue item does not exist"@),
            Some(item) => if !clearable(item) {
                rejected_view("active queue item cannot be removed"@)
            } else {
                AppliedView { durable: seq![DurableDeltaView::QueueRemoved { item_id }], ..accepted_view() }
            },
        },
        QueueCommandView::Move { item_id, before } => match first_match(queue, has_id(item_id)) {
            None => rejected_view("queue item does not exist"@),
            Some(item) => if !is_pending(item) {
                rejected_view("only queued items can be reordered"@)
            } else {
                match before {
                    Some(before_id) if first_match(queue, has_id(before_id)) is None => rejected_view(
                        "queue destination does not exist"@,
                    ),
                    _ => {
                        let resolved = match before {
                            None => None,
                            Some(before_id) => if is_pending(first_match(queue, has_id(before_id))->0) {
                                Some(before_id)
                            } else {
                                match first_match(queue, pending_entry()) {
                                    Some(entry) => Some(entry.id),
                                    None => None,
                                }
                            },
                        };
                        if resolved == Some(item_id) {
                            accepted_view()
                        } else {
                            AppliedView {
                                durable: seq![DurableDeltaView::QueueMoved { item_id, before: resolved }],
                                ..accepted_view()
                            }
                        }
                    },
                }
            },
        },
        QueueCommandView::ReorderPending { pending_order } => match pending_order_validation(queue, pending_order) {
            Err(reason) => rejected_view(reason@),
            Ok(_) => if pending_ids(queue) == pending_order {
                accepted_view()
            } else {
                AppliedView { durable: seq![DurableDeltaView::QueueReordered { pending_order }], ..accepted_view() }
            },
        },
        QueueCommandView::Clear => if state.session != SessionState::Idle {
            rejected_view("queue can only be cleared while idle"@)
        } else {
            AppliedView {
                durable: removals(queue.filter(clear_filter())),
                ..accepted_view()
            }
        },
        QueueCommandView::ClearCompleted => AppliedView {
            durable: removals(queue.filter(completed_filter())),
            ..accepted_view()
        },
        QueueCommandView::Retry { item_id } => match first_match(queue, has_id(item_id)) {
            None => rejected_view("queue item does not exist"@),
            Some(item) => if !(item.state is Finished) {
                rejected_view("only finished items can be retried"@)
            } else {
                AppliedView { durable: seq![DurableDeltaView::QueueRequeued { item_id }], ..accepted_view() }
            },
        },
        QueueCommandView::Edit { item_id, patch } => if state.session != SessionState::Idle {
            rejected_view("queue items can only be edited while idle"@)
        } else {
            match first_match(queue, has_id(item_id)) {
                None => rejected_view("queue item does not exist"@),
                Some(item) => if !is_pending(item) {
                    rejected_view("only queued items can be edited"@)
                } else {
                    let operation = match patch.operation {
                        Some(value) => value,
                        None => item.operation,
                    };
                    let intent = match patch.intent {
                        Some(value) => value,
                        None => item.intent,
                    };
                    let output_target = match patch.output_target {
                        Some(value) => value,
                        None => item.output_target,
                    };
                    let overwrite = match patch.overwrite {
                        Some(value) => value,
                        None => item.overwrite,
                    };
                    if operation == item.operation && intent == item.intent && output_target == item.output_target
                        && overwrite == item.overwrite {
                        accepted_view()
                    } else {
                        AppliedView {
                            durable: seq![
                                DurableDeltaView::QueueEdited { item_id, operation, intent, output_target, overwrite },
                            ],
                            ..accepted_view()
                        }
                    }
                },
            }
        },
    }
}

fn count_skip(skipped: &mut Vec<SkipCount>, reason: SkipReason)
    ensures
        final(skipped)@ == counted(old(skipped)@, reason),
{
    let ghost before = skipped@;
    let ghost same = for_reason(reason);
    let mut index: usize = 0;
    while index < skipped.len()
        invariant
            index <= skipped.len(),
            skipped@ == before,
            before == old(skipped)@,
            same == for_reason(reason),
            forall|k: int| 0 <= k < index ==> !same(#[trigger] before[k]),
        decreases skipped.len() - index,
    {
        if skipped[index].reason == reason {
            proof {
                lemma_first_index_is(before, same, index as int);
            }
            let count = skipped[index].count.saturating_add(1);
            assert(count == crate::state::bumped(before[index as int].count));
            skipped.set(index, SkipCount { reason, count });
            assert(skipped@ =~= before.update(index as int, SkipCount { reason, count: crate::state::bumped(before[index as int].count) }));
            return;
        }
        index += 1;
    }
    proof {
        lemma_first_index_none(before, same);
    }
    skipped.push(SkipCount { reason, count: 1 });
}

fn id_in_use(queue: &Vec<QueueItem>, accepted: &Vec<QueueItem>, id: QueueItemId) -> (taken: bool)
    ensures
        taken == id_taken(views(queue@), views(accepted@), id),
{
    let mut index: usize = 0;
    while index < queue.len()
        invariant
            index <= queue.len(),
            forall|k: int| 0 <= k < index ==> #[trigger] views(queue@)[k].id != id,
        decreases queue.len() - index,
    {
        assert(views(queue@)[index as int] == queue@[index as int]@);
        if queue[index].id.0 == id.0 {
            assert(views(queue@)[index as int].id == id);
            return true;
        }
        index += 1;
    }
    let mut position: usize = 0;
    while position < accepted.len()
        invariant
            position <= accepted.len(),
            forall|k: int| 0 <= k < queue@.len() ==> #[trigger] views(queue@)[k].id != id,
            forall|k: int| 0 <= k < position ==> #[trigger] views(accepted@)[k].id != id,
        decreases accepted.len() - position,
    {
        assert(views(accepted@)[position as int] == accepted@[position as int]@);
        if accepted[position].id.0 == id.0 {
            assert(views(accepted@)[position as int].id == id);
            return true;
        }
        position += 1;
    }
    false
}

fn input_standing(queue: &Vec<QueueItem>, accepted: &Vec<QueueItem>, input: &String) -> (standing: bool)
    ensures
        standing == path_queued(views(queue@), views(accepted@), input@),
{
    let mut index: usize = 0;
    while index < queue.len()
        invariant
            index <= queue.len(),
            forall|k: int|
                0 <= k < index ==> !(views(queue@)[k].state is Finished && true) ==> #[trigger] views(queue@)[k].input
                    != input@,
        decreases queue.len() - index,
    {
        assert(views(queue@)[index as int] == queue@[index as int]@);
        let finished = match queue[index].state {
            QueueItemState::Finished(_) => true,
            _ => false,
        };
        if !finished && queue[index].input.same_view(input) {
            assert(views(queue@)[index as int].input == input@);
            return true;
        }
        index += 1;
    }
    let mut position: usize = 0;
    while position < accepted.len()
        invariant
            position <= accepted.len(),
            forall|k: int|
                0 <= k < queue@.len() ==> !(views(queue@)[k].state is Finished && true) ==> #[trigger] views(queue@)[k].input
                    != input@,
            forall|k: int| 0 <= k < position ==> #[trigger] views(accepted@)[k].input != input@,
        decreases accepted.len() - position,
    {
        assert(views(accepted@)[position as int] == accepted@[position as int]@);
        if accepted[position].input.same_view(input) {
            assert(views(accepted@)[position as int].input == input@);
            return true;
        }
        position += 1;
    }
    false
}

#[verifier::loop_isolation(false)]
fn add_many(state: &AppState, requests: &Vec<QueueAddRequest>) -> (applied: Applied)
    ensures
        applied@ == queue_outcome(state@, QueueCommandView::AddMany { requests: views(requests@) }),
{
    proof {
        lemma_durable_views(state.durable);
    }
    let ghost incoming = views(requests@);
    let ghost durable = state@.durable;
    let mut accepted: Vec<QueueItem> = Vec::new();
    let mut skipped: Vec<SkipCount> = Vec::new();
    let mut index: usize = 0;
    while index < requests.len()
        invariant
            index <= requests.len(),
            incoming == views(requests@),
            add_batch(durable, incoming.subrange(0, index as int)) == Some((views(accepted@), skipped@)),
        decreases requests.len() - index,
    {
        assert(incoming.subrange(0, index as int + 1).drop_last() =~= incoming.subrange(0, index as int));
        assert(incoming[index as int] == requests@[index as int]@);
        let request = &requests[index];
        if id_in_use(&state.durable.queue, &accepted, request.item_id) {
            proof {
                lemma_batch_collision_rejects(durable, incoming, index as int);
            }
            return Applied::rejected("queue item id already exists");
        }
        let skip = if input_standing(&state.durable.queue, &accepted, &request.input) {
            Some(SkipReason::AlreadyQueued)
        } else {
            match &request.path_hash {
                Some(path_hash) => evaluate_enqueue(
                    &state.durable,
                    path_hash,
                    match &request.identity {
                        Some(identity) => Some(identity),
                        None => None,
                    },
                    request.timestamp_reliability,
                    request.operation,
                    request.intent,
                ),
                None => None,
            }
        };
        match skip {
            Some(reason) => count_skip(&mut skipped, reason),
            None => {
                let ghost prior = views(accepted@);
                accepted.push(
                    QueueItem {
                        id: request.item_id,
                        input: request.input.duplicate(),
                        operation: request.operation,
                        intent: request.intent,
                        output_target: request.output_target.duplicate(),
                        overwrite: request.overwrite,
                        state: QueueItemState::Queued,
                    },
                );
                assert(views(accepted@) =~= prior.push(queued_item(incoming[index as int])));
            },
        }
        index += 1;
    }
    assert(incoming.subrange(0, incoming.len() as int) =~= incoming);
    let added: u32 = if accepted.len() > 4_294_967_295usize {
        u32::MAX
    } else {
        accepted.len() as u32
    };
    let ghost items = views(accepted@);
    let mut applied = Applied::accepted();
    assert(additions(items.subrange(0, 0)) =~= Seq::<DurableDeltaView>::empty());
    let mut position: usize = 0;
    while position < accepted.len()
        invariant
            position <= accepted.len(),
            items == views(accepted@),
            applied@ == (AppliedView {
                durable: additions(items.subrange(0, position as int)),
                ..accepted_view()
            }),
        decreases accepted.len() - position,
    {
        assert(items[position as int] == accepted@[position as int]@);
        let ghost prior = applied@;
        applied.record(DurableDelta::QueueAdded { item: accepted[position].duplicate() });
        assert(additions(items.subrange(0, position as int + 1)) =~= additions(items.subrange(0, position as int)).push(
            DurableDeltaView::QueueAdded { item: items[position as int] },
        ));
        position += 1;
    }
    assert(items.subrange(0, items.len() as int) =~= items);
    applied.announce(EphemeralDelta::QueueAddSummary { added, skipped });
    assert(applied@.ephemeral =~= seq![
        EphemeralDeltaView::QueueAddSummary {
            added: crate::reducer::saturated_count(items.len() as int),
            skipped: (add_batch(durable, incoming)->0).1,
        },
    ]);
    applied
}

/// A collision at one request rejects the whole batch.
proof fn lemma_batch_collision_rejects(durable: DurableStateView, requests: Seq<QueueAddRequestView>, at: int)
    requires
        0 <= at < requests.len(),
        add_batch(durable, requests.subrange(0, at)) is Some,
        id_taken(durable.queue, (add_batch(durable, requests.subrange(0, at))->0).0, requests[at].item_id),
    ensures
        add_batch(durable, requests) is None,
{
    lemma_batch_none_extends(durable, requests, at + 1);
    assert(requests.subrange(0, at + 1).drop_last() =~= requests.subrange(0, at));
    assert(requests.subrange(0, requests.len() as int) =~= requests);
}

/// Once a prefix of a batch collides, every longer prefix does.
proof fn lemma_batch_none_extends(durable: DurableStateView, requests: Seq<QueueAddRequestView>, end: int)
    requires
        0 < end <= requests.len(),
        add_batch(durable, requests.subrange(0, end - 1)) is Some ==> id_taken(
            durable.queue,
            (add_batch(durable, requests.subrange(0, end - 1))->0).0,
            requests[end - 1].item_id,
        ),
    ensures
        add_batch(durable, requests.subrange(0, requests.len() as int)) is None,
    decreases requests.len() - end,
{
    assert(requests.subrange(0, end).drop_last() =~= requests.subrange(0, end - 1));
    assert(requests.subrange(0, end).last() == requests[end - 1]);
    assert(add_batch(durable, requests.subrange(0, end)) is None);
    if end < requests.len() {
        assert(requests.subrange(0, end + 1).drop_last() =~= requests.subrange(0, end));
        lemma_batch_none_extends(durable, requests, end + 1);
    }
}

/// The lookup of an item by id, exposing its view.
fn item_of<'a>(queue: &'a Vec<QueueItem>, id: QueueItemId) -> (item: Option<&'a QueueItem>)
    ensures
        match item {
            Some(found) => first_match(views(queue@), has_id(id)) == Some(found@),
            None => first_match(views(queue@), has_id(id)) is None,
        },
{
    match find_item(queue, id) {
        Some(index) => {
            assert(views(queue@)[index as int] == queue@[index as int]@);
            Some(&queue[index])
        },
        None => None,
    }
}

/// The id of the first pending item.
fn first_pending(queue: &Vec<QueueItem>) -> (id: Option<QueueItemId>)
    ensures
        id == match first_match(views(queue@), pending_entry()) {
            Some(entry) => Some(entry.id),
            None => None,
        },
{
    let ghost items = views(queue@);
    let mut index: usize = 0;
    while index < queue.len()
        invariant
            index <= queue.len(),
            items == views(queue@),
            forall|k: int| 0 <= k < index ==> !pending_entry()(#[trigger] items[k]),
        decreases queue.len() - index,
    {
        assert(items[index as int] == queue@[index as int]@);
        if let QueueItemState::Queued = queue[index].state {
            proof {
                lemma_first_index_is(items, pending_entry(), index as int);
            }
            return Some(queue[index].id);
        }
        index += 1;
    }
    proof {
        lemma_first_index_none(items, pending_entry());
    }
    None
}

#[verifier::loop_isolation(false)]
fn pending_order_of(queue: &Vec<QueueItem>) -> (order: Vec<QueueItemId>)
    ensures
        order@ == pending_ids(views(queue@)),
{
    let ghost items = views(queue@);
    let mut order: Vec<QueueItemId> = Vec::new();
    let mut index: usize = 0;
    while index < queue.len()
        invariant
            index <= queue.len(),
            items == views(queue@),
            order@ == items.subrange(0, index as int).filter(pending_filter()).map_values(|item: QueueItemView| item.id),
        decreases queue.len() - index,
    {
        proof {
            lemma_filter_prefix_step(items, pending_filter(), index as int);
        }
        assert(items[index as int] == queue@[index as int]@);
        if let QueueItemState::Queued = queue[index].state {
            order.push(queue[index].id);
        }
        assert(order@ =~= items.subrange(0, index as int + 1).filter(pending_filter()).map_values(|item: QueueItemView| item.id));
        index += 1;
    }
    assert(items.subrange(0, items.len() as int) =~= items);
    order
}

fn same_ids(left: &Vec<QueueItemId>, right: &Vec<QueueItemId>) -> (same: bool)
    ensures
        same == (left@ == right@),
{
    if left.len() != right.len() {
        return false;
    }
    let mut index: usize = 0;
    while index < left.len()
        invariant
            index <= left.len(),
            left.len() == right.len(),
            forall|k: int| 0 <= k < index ==> left@[k] == right@[k],
        decreases left.len() - index,
    {
        if left[index].0 != right[index].0 {
            return false;
        }
        index += 1;
    }
    assert(left@ =~= right@);
    true
}

/// Removal deltas for the items satisfying `clear_all ? clearable : completed`.
#[verifier::loop_isolation(false)]
fn removals_where(queue: &Vec<QueueItem>, clear_all: bool) -> (applied: Applied)
    ensures
        applied@ == (AppliedView {
            durable: removals(views(queue@).filter(if clear_all { clear_filter() } else { completed_filter() })),
            ..accepted_view()
        }),
{
    let ghost items = views(queue@);
    let ghost keep = if clear_all { clear_filter() } else { completed_filter() };
    let mut applied = Applied::accepted();
    assert(removals(items.subrange(0, 0).filter(keep)) =~= Seq::<DurableDeltaView>::empty()) by {
        reveal(Seq::filter);
    }
    let mut index: usize = 0;
    while index < queue.len()
        invariant
            index <= queue.len(),
            items == views(queue@),
            applied@ == (AppliedView { durable: removals(items.subrange(0, index as int).filter(keep)), ..accepted_view() }),
        decreases queue.len() - index,
    {
        proof {
            lemma_filter_prefix_step(items, keep, index as int);
        }
        assert(items[index as int] == queue@[index as int]@);
        let removable = match &queue[index].state {
            QueueItemState::Queued => clear_all,
            QueueItemState::Finished(outcome) => match outcome {
                crate::ItemOutcome::Failed(_) => clear_all,
                _ => true,
            },
            _ => false,
        };
        assert(removable == keep(items[index as int]));
        if removable {
            applied.record(DurableDelta::QueueRemoved { item_id: queue[index].id });
        }
        assert(applied@.durable =~= removals(items.subrange(0, index as int + 1).filter(keep)));
        index += 1;
    }
    assert(items.subrange(0, items.len() as int) =~= items);
    applied
}

/// Apply a queue command.
pub fn apply_queue(state: &AppState, command: QueueCommand) -> (applied: Applied)
    ensures
        applied@ == queue_outcome(state@, command@),
{
    proof {
        lemma_durable_views(state.durable);
    }
    let queue = &state.durable.queue;
    match command {
        QueueCommand::AddMany { requests } => add_many(state, &requests),
        QueueCommand::Remove { item_id } => {
            let item = match item_of(queue, item_id) {
                Some(item) => item,
                None => {
                    return Applied::rejected("queue item does not exist");
                },
            };
            let removable = match item.state {
                QueueItemState::Queued | QueueItemState::Finished(_) => true,
                _ => false,
            };
            if !removable {
                return Applied::rejected("active queue item cannot be removed");
            }
            let mut applied = Applied::accepted();
            applied.record(DurableDelta::QueueRemoved { item_id });
            applied
        },
        QueueCommand::Move { item_id, before } => {
            let item = match item_of(queue, item_id) {
                Some(item) => item,
                None => {
                    return Applied::rejected("queue item does not exist");
                },
            };
            if let QueueItemState::Queued = item.state {
            } else {
                return Applied::rejected("only queued items can be reordered");
            }
            let resolved = match before {
                None => None,
                Some(before_id) => {
                    let before_item = match item_of(queue, before_id) {
                        Some(found) => found,
                        None => {
                            return Applied::rejected("queue destination does not exist");
                        },
                    };
                    if let QueueItemState::Queued = before_item.state {
                        Some(before_id)
                    } else {
                        first_pending(queue)
                    }
                },
            };
            if let Some(resolved_id) = resolved {
                if resolved_id.0 == item_id.0 {
                    return Applied::accepted();
                }
            }
            let mut applied = Applied::accepted();
            applied.record(DurableDelta::QueueMoved { item_id, before: resolved });
            applied
        },
        QueueCommand::ReorderPending { pending_order } => {
            if let Err(reason) = validate_pending_order(queue, &pending_order) {
                return Applied::rejected(reason);
            }
            let current = pending_order_of(queue);
            if same_ids(&current, &pending_order) {
                return Applied::accepted();
            }
            let mut applied = Applied::accepted();
            applied.record(DurableDelta::QueueReordered { pending_order });
            applied
        },
        QueueCommand::Clear => {
            if state.session != SessionState::Idle {
                return Applied::rejected("queue can only be cleared while idle");
            }
            removals_where(queue, true)
        },
        QueueCommand::ClearCompleted => removals_where(queue, false),
        QueueCommand::Retry { item_id } => {
            let item = match item_of(queue, item_id) {
                Some(item) => item,
                None => {
                    return Applied::rejected("queue item does not exist");
                },
            };
            if let QueueItemState::Finished(_) = item.state {
            } else {
                return Applied::rejected("only finished items can be retried");
            }
            let mut applied = Applied::accepted();
            applied.record(DurableDelta::QueueRequeued { item_id });
            applied
        },
        QueueCommand::Edit { item_id, patch } => {
            if state.session != SessionState::Idle {
                return Applied::rejected("queue items can only be edited while idle");
            }
            let item = match item_of(queue, item_id) {
                Some(item) => item,
                None => {
                    return Applied::rejected("queue item does not exist");
                },
            };
            if let QueueItemState::Queued = item.state {
            } else {
                return Applied::rejected("only queued items can be edited");
            }
            let operation = match patch.operation {
                Some(value) => value,
                None => item.operation,
            };
            let intent = match patch.intent {
                Some(value) => value,
                None => item.intent,
            };
            let output_target = match patch.output_target {
                Some(value) => value,
                None => item.output_target.duplicate(),
            };
            let overwrite = match patch.overwrite {
                Some(value) => value,
                None => item.overwrite,
            };
            if operation == item.operation && intent == item.intent && output_target.same_view(&item.output_target)
                && overwrite == item.overwrite {
                return Applied::accepted();
            }
            let mut applied = Applied::accepted();
            applied.record(DurableDelta::QueueEdited { item_id, operation, intent, output_target, overwrite });
            applied
        },
    }
}

} // verus!
