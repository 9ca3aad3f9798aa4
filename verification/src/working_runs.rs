//! The run of a claimed or running queue item is recorded and still open:
//! a claim records a fresh run, and only the terminal of its own item
//! closes it.

use vstd::prelude::*;

use crate::journal::{batch_outcome, replay_validation, ItemQueryView};
use crate::lookup::{first_index, first_match, lemma_first_index, lemma_first_index_is};
use crate::queue_shape::{ids_distinct, lemma_pending_items_pending, lemma_picked_pending, queue_shaped, stage};
use crate::reducer::is_active;
use crate::state::{folded, has_id, run_of, run_record};
use crate::{ConversionRunView, DurableDeltaView, DurableStateView, QueueItemStateView, QueueItemView, RunId};

verus! {

/// The run a claimed or running item works under.
pub open spec fn working_run(item: QueueItemView) -> Option<RunId> {
    match item.state {
        QueueItemStateView::Claimed { run_id, .. } => Some(run_id),
        QueueItemStateView::Running { run_id, .. } => Some(run_id),
        _ => None,
    }
}

/// Whether the run is recorded and has no outcome yet.
pub open spec fn run_open(runs: Seq<ConversionRunView>, run_id: RunId) -> bool {
    run_of(runs, run_id) is Some && run_of(runs, run_id)->0.outcome is None
}

/// Whether the run of every claimed or running item is recorded and open.
pub open spec fn working_runs_open(durable: DurableStateView) -> bool {
    forall|i: int|
        0 <= i < durable.queue.len() ==> match working_run(#[trigger] durable.queue[i]) {
            Some(run_id) => run_open(durable.conversion_runs, run_id),
            None => true,
        }
}

/// Whether every run a working item of `after` holds, some item of
/// `before` held too.
pub open spec fn works_from(before: Seq<QueueItemView>, after: Seq<QueueItemView>) -> bool {
    forall|i: int|
        0 <= i < after.len() && #[trigger] working_run(after[i]) is Some ==> exists|j: int|
            0 <= j < before.len() && #[trigger] working_run(before[j]) == working_run(after[i])
}

/// A queue whose working items come from the old one, over the same runs,
/// keeps every working run open.
proof fn lemma_works_from(durable: DurableStateView, after: DurableStateView)
    requires
        working_runs_open(durable),
        works_from(durable.queue, after.queue),
        after.conversion_runs == durable.conversion_runs,
    ensures
        working_runs_open(after),
{
    assert forall|i: int| 0 <= i < after.queue.len() implies match working_run(#[trigger] after.queue[i]) {
        Some(run_id) => run_open(after.conversion_runs, run_id),
        None => true,
    } by {
        if working_run(after.queue[i]) is Some {
            let j = choose|j: int| 0 <= j < durable.queue.len() && #[trigger] working_run(durable.queue[j]) == working_run(
                after.queue[i],
            );
            assert(working_run(durable.queue[j]) is Some);
        }
    }
}

/// Items taken from a queue, or none of them working, keep the runs.
proof fn lemma_elements_from(before: Seq<QueueItemView>, after: Seq<QueueItemView>)
    requires
        forall|i: int| 0 <= i < after.len() ==> working_run(#[trigger] after[i]) is None || before.contains(after[i]),
    ensures
        works_from(before, after),
{
    assert forall|i: int| 0 <= i < after.len() && #[trigger] working_run(after[i]) is Some implies exists|j: int|
        0 <= j < before.len() && #[trigger] working_run(before[j]) == working_run(after[i]) by {
        let j = choose|j: int| 0 <= j < before.len() && before[j] == after[i];
        assert(working_run(before[j]) == working_run(after[i]));
    }
}

/// Runs with the same run ids in the same places are found in the same
/// places.
proof fn lemma_same_run_ids(before: Seq<ConversionRunView>, after: Seq<ConversionRunView>, run_id: RunId)
    requires
        before.len() == after.len(),
        forall|j: int| 0 <= j < before.len() ==> (#[trigger] before[j]).spec.run_id == after[j].spec.run_id,
    ensures
        first_index(before, run_record(run_id)) == first_index(after, run_record(run_id)),
    decreases before.len(),
{
    if before.len() > 0 {
        assert forall|j: int| 0 <= j < before.len() - 1 implies (#[trigger] before.drop_last()[j]).spec.run_id
            == after.drop_last()[j].spec.run_id by {
            assert(before.drop_last()[j] == before[j]);
            assert(after.drop_last()[j] == after[j]);
        }
        lemma_same_run_ids(before.drop_last(), after.drop_last(), run_id);
        assert(before.last().spec.run_id == after.last().spec.run_id);
    }
}

/// Rewriting one run but for its outcome keeps every open run open.
proof fn lemma_run_rewritten(durable: DurableStateView, index: int, run: ConversionRunView, after: DurableStateView)
    requires
        working_runs_open(durable),
        0 <= index < durable.conversion_runs.len(),
        run.spec.run_id == durable.conversion_runs[index].spec.run_id,
        run.outcome == durable.conversion_runs[index].outcome,
        after.conversion_runs == durable.conversion_runs.update(index, run),
        after.queue == durable.queue,
    ensures
        working_runs_open(after),
{
    let runs = durable.conversion_runs;
    let updated = after.conversion_runs;
    assert forall|i: int| 0 <= i < after.queue.len() implies match working_run(#[trigger] after.queue[i]) {
        Some(run_id) => run_open(updated, run_id),
        None => true,
    } by {
        if let Some(run_id) = working_run(after.queue[i]) {
            assert(working_run(durable.queue[i]) == Some(run_id));
            assert forall|j: int| 0 <= j < runs.len() implies (#[trigger] runs[j]).spec.run_id == updated[j].spec.run_id by {}
            lemma_same_run_ids(runs, updated, run_id);
            lemma_first_index(runs, run_record(run_id));
        }
    }
}

/// The first item with an id in a queue whose ids are distinct is the only
/// one.
proof fn lemma_only_item(queue: Seq<QueueItemView>, index: int)
    requires
        ids_distinct(queue),
        0 <= index < queue.len(),
    ensures
        first_index(queue, has_id(queue[index].id)) == index,
{
    assert forall|k: int| 0 <= k < index implies !has_id(queue[index].id)(#[trigger] queue[k]) by {
        assert(queue[k].id != queue[index].id);
    }
    lemma_first_index_is(queue, has_id(queue[index].id), index);
}

/// A delta that neither starts nor finishes an item, and passes replay
/// validation, keeps every working run open.
pub proof fn lemma_delta_keeps_working_runs(durable: DurableStateView, delta: DurableDeltaView)
    requires
        working_runs_open(durable),
        replay_validation(durable, delta) is Ok,
        !(delta is ItemRunning),
        !(delta is ItemFinished),
    ensures
        working_runs_open(folded(durable, delta)),
{
    let after = folded(durable, delta);
    let queue = durable.queue;
    let runs = durable.conversion_runs;
    match delta {
        DurableDeltaView::QueueAdded { item } => {
            assert forall|i: int| 0 <= i < after.queue.len() implies working_run(#[trigger] after.queue[i]) is None
                || queue.contains(after.queue[i]) by {
                if i < queue.len() {
                    assert(after.queue[i] == queue[i]);
                }
            }
            lemma_elements_from(queue, after.queue);
            lemma_works_from(durable, after);
        },
        DurableDeltaView::QueueRemoved { item_id } => {
            assert forall|i: int| 0 <= i < after.queue.len() implies working_run(#[trigger] after.queue[i]) is None
                || queue.contains(after.queue[i]) by {
                assert(after.queue.contains(after.queue[i]));
                queue.lemma_filter_contains_rev(crate::state::other_than(item_id), after.queue[i]);
            }
            lemma_elements_from(queue, after.queue);
            lemma_works_from(durable, after);
        },
        DurableDeltaView::QueueMoved { item_id, before } => {
            let source = first_index(queue, has_id(item_id));
            lemma_first_index(queue, has_id(item_id));
            if source >= 0 {
                let rest = queue.remove(source);
                assert forall|i: int| 0 <= i < rest.len() implies queue.contains(#[trigger] rest[i]) by {
                    if i < source {
                        assert(rest[i] == queue[i]);
                    } else {
                        assert(rest[i] == queue[i + 1]);
                    }
                }
                let found = match before {
                    Some(before_id) => first_index(rest, has_id(before_id)),
                    None => -1,
                };
                if let Some(before_id) = before {
                    lemma_first_index(rest, has_id(before_id));
                }
                let destination = if found >= 0 {
                    found
                } else {
                    rest.len() as int
                };
                assert forall|i: int| 0 <= i < after.queue.len() implies working_run(#[trigger] after.queue[i]) is None
                    || queue.contains(after.queue[i]) by {
                    if i < destination {
                        assert(after.queue[i] == rest[i]);
                    } else if i == destination {
                        assert(after.queue[i] == queue[source]);
                    } else {
                        assert(after.queue[i] == rest[i - 1]);
                    }
                }
                lemma_elements_from(queue, after.queue);
            } else {
                lemma_elements_from(queue, queue);
            }
            lemma_works_from(durable, after);
        },
        DurableDeltaView::QueueReordered { pending_order } => {
            let frozen = crate::state::frozen_items(queue);
            let pending = crate::state::pending_items(queue);
            lemma_pending_items_pending(queue);
            lemma_picked_pending(pending, pending_order);
            let (taken, left) = crate::state::picked(pending, pending_order);
            assert forall|i: int| 0 <= i < after.queue.len() implies working_run(#[trigger] after.queue[i]) is None
                || queue.contains(after.queue[i]) by {
                if i < frozen.len() {
                    assert(after.queue[i] == frozen[i]);
                    assert(frozen.contains(frozen[i]));
                    queue.lemma_filter_contains_rev(crate::state::frozen_filter(), frozen[i]);
                } else if i < frozen.len() + taken.len() {
                    assert(after.queue[i] == taken[i - frozen.len()]);
                    assert(stage(taken[i - frozen.len()]) == 2);
                } else {
                    assert(after.queue[i] == left[i - frozen.len() - taken.len()]);
                    assert(stage(left[i - frozen.len() - taken.len()]) == 2);
                }
            }
            lemma_elements_from(queue, after.queue);
            lemma_works_from(durable, after);
        },
        DurableDeltaView::QueueRequeued { item_id } => {
            let source = first_index(queue, has_id(item_id));
            lemma_first_index(queue, has_id(item_id));
            if source >= 0 {
                let rest = queue.remove(source);
                assert forall|i: int| 0 <= i < after.queue.len() implies working_run(#[trigger] after.queue[i]) is None
                    || queue.contains(after.queue[i]) by {
                    if i < source {
                        assert(after.queue[i] == queue[i]);
                    } else if i < rest.len() {
                        assert(after.queue[i] == queue[i + 1]);
                    }
                }
                lemma_elements_from(queue, after.queue);
            } else {
                lemma_elements_from(queue, queue);
            }
            lemma_works_from(durable, after);
        },
        DurableDeltaView::QueueEdited { item_id, operation, intent, output_target, overwrite } => {
            let index = first_index(queue, has_id(item_id));
            lemma_first_index(queue, has_id(item_id));
            assert forall|i: int| 0 <= i < after.queue.len() && #[trigger] working_run(after.queue[i]) is Some implies exists|j: int|
                0 <= j < queue.len() && #[trigger] working_run(queue[j]) == working_run(after.queue[i]) by {
                assert(working_run(queue[i]) == working_run(after.queue[i]));
            }
            lemma_works_from(durable, after);
        },
        DurableDeltaView::ItemReserved { job } => {
            let index = first_index(queue, has_id(job.item_id));
            lemma_first_index(queue, has_id(job.item_id));
            assert forall|i: int| 0 <= i < after.queue.len() implies working_run(#[trigger] after.queue[i]) is None
                || queue.contains(after.queue[i]) by {
                if i != index {
                    assert(after.queue[i] == queue[i]);
                }
            }
            lemma_elements_from(queue, after.queue);
            lemma_works_from(durable, after);
        },
        DurableDeltaView::ItemPrepared { spec } => {
            let index = first_index(queue, has_id(spec.item_id));
            lemma_first_index(queue, has_id(spec.item_id));
            lemma_first_index(runs, run_record(spec.run_id));
            let fresh = crate::state::started_run(spec);
            assert(after.conversion_runs == runs.push(fresh));
            assert forall|i: int| 0 <= i < after.queue.len() implies match working_run(#[trigger] after.queue[i]) {
                Some(run_id) => run_open(after.conversion_runs, run_id),
                None => true,
            } by {
                if let Some(run_id) = working_run(after.queue[i]) {
                    lemma_first_index(runs.push(fresh), run_record(run_id));
                    if i == index {
                        assert(run_id == spec.run_id);
                        assert forall|k: int| 0 <= k < runs.len() implies !run_record(run_id)(#[trigger] runs.push(fresh)[k]) by {
                            assert(runs.push(fresh)[k] == runs[k]);
                        }
                        lemma_first_index_is(runs.push(fresh), run_record(run_id), runs.len() as int);
                    } else {
                        assert(after.queue[i] == queue[i]);
                        assert(working_run(queue[i]) == Some(run_id));
                        lemma_first_index(runs, run_record(run_id));
                        let found = first_index(runs, run_record(run_id));
                        assert(runs.push(fresh)[found] == runs[found]);
                        assert forall|k: int| 0 <= k < found implies !run_record(run_id)(#[trigger] runs.push(fresh)[k]) by {
                            assert(runs.push(fresh)[k] == runs[k]);
                        }
                        lemma_first_index_is(runs.push(fresh), run_record(run_id), found);
                    }
                }
            }
        },
        DurableDeltaView::AnalysisRecorded { run_id, result } => {
            let index = first_index(runs, run_record(run_id));
            lemma_first_index(runs, run_record(run_id));
            if index >= 0 {
                lemma_run_rewritten(
                    durable,
                    index,
                    ConversionRunView { analysis: Some(result), ..runs[index] },
                    after,
                );
            }
        },
        _ => {
            assert(after.queue == queue);
            assert(after.conversion_runs == runs);
        },
    }
}

/// A batch of deltas that passes replay validation, none of which starts or
/// finishes an item, keeps every working run open.
pub proof fn lemma_batch_keeps_working_runs(durable: DurableStateView, deltas: Seq<DurableDeltaView>)
    requires
        working_runs_open(durable),
        batch_outcome(durable, deltas) is Ok,
        forall|k: int| 0 <= k < deltas.len() ==> !(#[trigger] deltas[k] is ItemRunning) && !(deltas[k] is ItemFinished),
    ensures
        working_runs_open(batch_outcome(durable, deltas)->Ok_0),
    decreases deltas.len(),
{
    if deltas.len() > 0 {
        assert forall|k: int| 0 <= k < deltas.drop_last().len() implies !(#[trigger] deltas.drop_last()[k] is ItemRunning)
            && !(deltas.drop_last()[k] is ItemFinished) by {
            assert(deltas.drop_last()[k] == deltas[k]);
        }
        lemma_batch_keeps_working_runs(durable, deltas.drop_last());
        let before = batch_outcome(durable, deltas.drop_last())->Ok_0;
        assert(deltas.last() == deltas[deltas.len() - 1]);
        lemma_delta_keeps_working_runs(before, deltas.last());
    }
}

/// Starting a claimed item keeps every working run open.
pub proof fn lemma_running_keeps_working_runs(durable: DurableStateView, delta: DurableDeltaView)
    requires
        working_runs_open(durable),
        ids_distinct(durable.queue),
        replay_validation(durable, delta) is Ok,
        delta is ItemRunning,
    ensures
        working_runs_open(folded(durable, delta)),
{
    if let DurableDeltaView::ItemRunning { item_id, claim_id, run_id, at } = delta {
        let queue = durable.queue;
        let runs = durable.conversion_runs;
        let w = choose|k: int| 0 <= k < queue.len() && crate::journal::answers(
            ItemQueryView::Claimed(item_id, claim_id, run_id),
            #[trigger] queue[k],
        );
        lemma_only_item(queue, w);
        assert(working_run(queue[w]) == Some(run_id));
        let after = folded(durable, delta);
        let middle = DurableStateView { queue: after.queue, ..durable };
        assert(works_from(queue, after.queue)) by {
            assert forall|i: int| 0 <= i < after.queue.len() && #[trigger] working_run(after.queue[i]) is Some implies exists|j: int|
                0 <= j < queue.len() && #[trigger] working_run(queue[j]) == working_run(after.queue[i]) by {
                if i == w {
                    assert(working_run(queue[w]) == working_run(after.queue[i]));
                } else {
                    assert(after.queue[i] == queue[i]);
                }
            }
        }
        lemma_works_from(durable, middle);
        let index = first_index(runs, run_record(run_id));
        lemma_first_index(runs, run_record(run_id));
        if index >= 0 {
            lemma_run_rewritten(
                middle,
                index,
                ConversionRunView { started_at: Some(at), ..runs[index] },
                after,
            );
        }
    }
}

/// Finishing an item keeps every other working run open: the finished
/// item was the one active item.
pub proof fn lemma_finished_keeps_working_runs(durable: DurableStateView, delta: DurableDeltaView)
    requires
        working_runs_open(durable),
        ids_distinct(durable.queue),
        queue_shaped(durable.queue),
        replay_validation(durable, delta) is Ok,
        delta is ItemFinished,
    ensures
        working_runs_open(folded(durable, delta)),
{
    if let DurableDeltaView::ItemFinished { item_id, claim_id, run_id, outcome, at, phase_spans } = delta {
        let queue = durable.queue;
        let runs = durable.conversion_runs;
        let after = folded(durable, delta);
        let index = first_index(queue, has_id(item_id));
        lemma_first_index(queue, has_id(item_id));
        if crate::journal::some_item(queue, ItemQueryView::Reserved(item_id, claim_id, run_id)) {
            assert(run_of(runs, run_id) is None);
            lemma_first_index(runs, run_record(run_id));
            assert forall|i: int| 0 <= i < after.queue.len() implies working_run(#[trigger] after.queue[i]) is None
                || queue.contains(after.queue[i]) by {
                if i != index {
                    assert(after.queue[i] == queue[i]);
                }
            }
            lemma_elements_from(queue, after.queue);
            lemma_works_from(durable, after);
        } else {
            let w = choose|k: int| 0 <= k < queue.len() && crate::journal::answers(
                ItemQueryView::Working(item_id, claim_id, run_id),
                #[trigger] queue[k],
            );
            lemma_only_item(queue, w);
            assert(is_active(queue[w]));
            assert forall|i: int| 0 <= i < after.queue.len() implies working_run(#[trigger] after.queue[i]) is None by {
                if i != w {
                    assert(after.queue[i] == queue[i]);
                    if working_run(queue[i]) is Some {
                        assert(is_active(queue[i]));
                        if i < w {
                            assert(crate::queue_shape::in_order(queue[i], queue[w]));
                        } else {
                            assert(crate::queue_shape::in_order(queue[w], queue[i]));
                        }
                    }
                }
            }
        }
    }
}

} // verus!
