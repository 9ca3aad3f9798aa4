//! What the live reducer journals, a replay gives back: the deltas a live
//! run records pass replay validation in order, and a journal of them
//! rebuilds the live durable state, unless the run holds a step replay
//! refuses.

use vstd::prelude::*;

use crate::journal::{
    batch_outcome, empty_durable, import_conflict, observation_incomplete, journal_replay, journaled_deltas, lemma_replay_equals_live_fold,
    lemma_valid_batch_folds, record_deltas, replay_validation, some_item, valid_journal, well_formed_record,
    FrameEnd, ItemQueryView, JournalRecordView,
};
use crate::lookup::{first_index, first_match, lemma_first_index, lookup};
use crate::queue_commands::{
    add_batch, additions, clear_filter, clearable, completed_filter, id_taken, pending_entry, queue_outcome, queued_item,
    removal, removals,
};
use crate::worker_commands::observation_changes;
use crate::preparation_replay::lemma_preparation_passes_replay;
use crate::run_records::{lemma_batch_keeps_run_records, names_known_record, runs_have_records};
use crate::working_runs::{
    lemma_batch_keeps_working_runs, lemma_finished_keeps_working_runs, lemma_running_keeps_working_runs, working_run,
    working_runs_open,
};
use crate::queue_shape::{ids_distinct, lemma_distinct_filter, lemma_live_queue_keeps_invariant, queue_invariant};
use crate::reducer::{after_applied, command_outcome, durable_after, ephemeral_after, fresh_imports, is_active, known_import};
use crate::state::{folded, has_id, is_pending, other_than, run_of};
use crate::{
    AppStateView, CommandView, DurableDeltaView, DurableStateView, HistoryCommandView, ImportPathView,
    JournalReplayView, JournalSequence, ParkedRecordView, QueueAddRequestView, QueueCommandView, QueueItemView,
    QueueItemStateView, WorkerCommandView,
};

verus! {

/// Whether the live reducer journals something for a command that replay
/// would refuse: a start reported for an item that is not claimed; a
/// preparation that reuses a run id, journals an observation lacking a
/// media fact, or names a parked import path twice; a terminal report for
/// an item that is only reserved.
pub open spec fn replay_refuses(state: AppStateView, command: CommandView) -> bool {
    let durable = state.durable;
    &&& command_outcome(state, command).durable.len() > 0
    &&& match command {
        CommandView::Worker(WorkerCommandView::Started { item_id, claim_id, run_id, .. }) => match first_match(
            durable.queue,
            has_id(item_id),
        ) {
            Some(item) => item.state != (QueueItemStateView::Claimed { claim_id, run_id }),
            None => false,
        },
        CommandView::Worker(WorkerCommandView::PrepareReserved { run_id, observation, import_paths, .. }) => {
            ||| run_of(durable.conversion_runs, run_id) is Some
            ||| match observation {
                Some(observed) => {
                    ||| (observation_changes(durable, observed) && observation_incomplete(observed))
                    ||| repeats_parked_path(durable.parked, import_paths)
                },
                None => false,
            }
        },
        CommandView::Worker(WorkerCommandView::Terminal { item_id, claim_id, run_id, .. }) => match first_match(
            durable.queue,
            has_id(item_id),
        ) {
            Some(item) => item.state == (QueueItemStateView::Reserved { claim_id, run_id }),
            None => false,
        },
        _ => false,
    }
}

/// Whether two of the import paths name the same parked record.
pub open spec fn repeats_parked_path(parked: Seq<(ImportPathView, ParkedRecordView)>, paths: Seq<ImportPathView>) -> bool {
    exists|i: int, j: int|
        0 <= i < j < paths.len() && #[trigger] paths[i] == #[trigger] paths[j] && lookup(parked, paths[i]) is Some
}

/// The fresh records of an import batch never conflict with the parked
/// and adopted imports, nor with each other.
proof fn lemma_fresh_imports_fit(durable: DurableStateView, records: Seq<(ImportPathView, ParkedRecordView)>)
    ensures
        !import_conflict(durable, fresh_imports(durable, records)),
    decreases records.len(),
{
    if records.len() > 0 {
        lemma_fresh_imports_fit(durable, records.drop_last());
        let earlier = fresh_imports(durable, records.drop_last());
        let last = records.last();
        let fresh = fresh_imports(durable, records);
        if fresh != earlier {
            assert(fresh == earlier.push(last));
            assert forall|k: int| 0 <= k < fresh.len() implies !known_import(durable, #[trigger] fresh[k].0) && !(exists|j: int|
                0 <= j < k && fresh[j].0 == fresh[k].0) by {
                if k < earlier.len() {
                    assert(fresh[k] == earlier[k]);
                    assert forall|j: int| 0 <= j < k implies fresh[j].0 != fresh[k].0 by {
                        assert(fresh[j] == earlier[j]);
                        if fresh[j].0 == fresh[k].0 {
                            assert(import_conflict(durable, earlier));
                        }
                    }
                } else {
                    assert(fresh[k] == last);
                    assert forall|j: int| 0 <= j < k implies fresh[j].0 != fresh[k].0 by {
                        assert(fresh[j] == earlier[j]);
                    }
                }
            }
        }
    }
}

/// Whether no item of `items` shares the id of `item`.
pub open spec fn id_untouched(items: Seq<QueueItemView>, item: QueueItemView) -> bool {
    forall|k: int| 0 <= k < items.len() ==> (#[trigger] items[k]).id != item.id
}

/// Removing clearable queue items with distinct ids one by one passes
/// replay validation, and every other item stays in the queue.
proof fn lemma_removals_pass(durable: DurableStateView, items: Seq<QueueItemView>)
    requires
        forall|k: int| 0 <= k < items.len() ==> clearable(#[trigger] items[k]) && durable.queue.contains(items[k]),
        ids_distinct(items),
    ensures
        match batch_outcome(durable, removals(items)) {
            Ok(after) => forall|item: QueueItemView|
                #![trigger after.queue.contains(item)]
                durable.queue.contains(item) && id_untouched(items, item) ==> after.queue.contains(item),
            Err(_) => false,
        },
    decreases items.len(),
{
    if items.len() > 0 {
        let earlier = items.drop_last();
        let last = items.last();
        assert forall|k: int| 0 <= k < earlier.len() implies clearable(#[trigger] earlier[k]) && durable.queue.contains(
            earlier[k],
        ) by {
            assert(earlier[k] == items[k]);
        }
        assert forall|i: int, j: int| #![trigger earlier[i], earlier[j]] 0 <= i < j < earlier.len() implies earlier[i].id
            != earlier[j].id by {
            assert(earlier[i] == items[i] && earlier[j] == items[j]);
        }
        lemma_removals_pass(durable, earlier);
        assert(removals(items).drop_last() =~= removals(earlier));
        assert(removals(items).last() == removal(last));
        let before = batch_outcome(durable, removals(earlier))->Ok_0;
        assert(id_untouched(earlier, last)) by {
            assert forall|k: int| 0 <= k < earlier.len() implies (#[trigger] earlier[k]).id != last.id by {
                assert(earlier[k] == items[k]);
                assert(items[items.len() - 1] == last);
            }
        }
        assert(clearable(items[items.len() - 1]) && durable.queue.contains(items[items.len() - 1]));
        assert(before.queue.contains(last));
        let index = choose|m: int| 0 <= m < before.queue.len() && before.queue[m] == last;
        assert(crate::journal::answers(ItemQueryView::Removable(last.id), before.queue[index]));
        assert(replay_validation(before, removal(last)) is Ok);
        let after = folded(before, removal(last));
        assert forall|item: QueueItemView|
            #![trigger after.queue.contains(item)]
            durable.queue.contains(item) && id_untouched(items, item) implies after.queue.contains(item) by {
            assert(id_untouched(earlier, item)) by {
                assert forall|k: int| 0 <= k < earlier.len() implies (#[trigger] earlier[k]).id != item.id by {
                    assert(earlier[k] == items[k]);
                }
            }
            assert(items[items.len() - 1].id != item.id);
            assert(before.queue.contains(item));
            let m = choose|m: int| 0 <= m < before.queue.len() && before.queue[m] == item;
            before.queue.lemma_filter_contains(other_than(last.id), m);
        }
    }
}

/// The items a filter keeps from a queue with distinct ids are queue items
/// with distinct ids.
proof fn lemma_filtered_items(queue: Seq<QueueItemView>, keep: spec_fn(QueueItemView) -> bool)
    requires
        ids_distinct(queue),
    ensures
        ids_distinct(queue.filter(keep)),
        forall|k: int|
            0 <= k < queue.filter(keep).len() ==> keep(#[trigger] queue.filter(keep)[k]) && queue.contains(
                queue.filter(keep)[k],
            ),
{
    lemma_distinct_filter(queue, keep);
    assert forall|k: int| 0 <= k < queue.filter(keep).len() implies keep(#[trigger] queue.filter(keep)[k])
        && queue.contains(queue.filter(keep)[k]) by {
        queue.lemma_filter_pred(keep, k);
        assert(queue.filter(keep).contains(queue.filter(keep)[k]));
        queue.lemma_filter_contains_rev(keep, queue.filter(keep)[k]);
    }
}

/// A single delta that passes replay validation makes a passing batch.
pub proof fn lemma_single_delta_passes(durable: DurableStateView, deltas: Seq<DurableDeltaView>)
    requires
        deltas.len() == 1,
        replay_validation(durable, deltas[0]) is Ok,
    ensures
        batch_outcome(durable, deltas) is Ok,
{
    assert(deltas.drop_last() =~= Seq::<DurableDeltaView>::empty());
    assert(batch_outcome(durable, deltas.drop_last()) == Ok::<DurableStateView, &'static str>(durable));
}

/// The application state after applying `commands` live, in order.
pub open spec fn live_after(state: AppStateView, commands: Seq<CommandView>) -> AppStateView
    decreases commands.len(),
{
    if commands.len() == 0 {
        state
    } else {
        let before = live_after(state, commands.drop_last());
        after_applied(before, command_outcome(before, commands.last()))
    }
}

/// The durable deltas that applying `commands` live records, in order.
pub open spec fn live_deltas(state: AppStateView, commands: Seq<CommandView>) -> Seq<DurableDeltaView>
    decreases commands.len(),
{
    if commands.len() == 0 {
        Seq::empty()
    } else {
        let before = live_after(state, commands.drop_last());
        live_deltas(state, commands.drop_last()) + command_outcome(before, commands.last()).durable
    }
}

/// Validating and folding one run of deltas after another is validating
/// and folding them together.
pub proof fn lemma_batch_concat(state: DurableStateView, first: Seq<DurableDeltaView>, second: Seq<DurableDeltaView>)
    ensures
        batch_outcome(state, first + second) == match batch_outcome(state, first) {
            Ok(middle) => batch_outcome(middle, second),
            Err(reason) => Err(reason),
        },
    decreases second.len(),
{
    if second.len() == 0 {
        assert(first + second =~= first);
    } else {
        assert((first + second).drop_last() =~= first + second.drop_last());
        assert((first + second).last() == second.last());
        lemma_batch_concat(state, first, second.drop_last());
    }
}

/// Ephemeral deltas never touch the durable state.
pub proof fn lemma_ephemeral_keeps_durable(state: AppStateView, deltas: Seq<crate::EphemeralDeltaView>)
    ensures
        ephemeral_after(state, deltas).durable == state.durable,
    decreases deltas.len(),
{
    if deltas.len() > 0 {
        lemma_ephemeral_keeps_durable(state, deltas.drop_last());
    }
}

/// The items a batch of add requests accepts; none when the batch is
/// rejected.
pub open spec fn accepted_items(durable: DurableStateView, requests: Seq<QueueAddRequestView>) -> Seq<QueueItemView> {
    match add_batch(durable, requests) {
        Some((accepted, _)) => accepted,
        None => Seq::empty(),
    }
}

/// The items a batch of add requests accepts are queued, new to the queue,
/// and distinct from each other.
pub proof fn lemma_accepted_items_are_fresh(durable: DurableStateView, requests: Seq<QueueAddRequestView>)
    requires
        add_batch(durable, requests) is Some,
    ensures
        forall|i: int|
            0 <= i < accepted_items(durable, requests).len() ==> {
                &&& (#[trigger] accepted_items(durable, requests)[i]).state is Queued
                &&& !id_taken(durable.queue, accepted_items(durable, requests).take(i), accepted_items(durable, requests)[i].id)
            },
    decreases requests.len(),
{
    if requests.len() > 0 {
        let earlier = requests.drop_last();
        lemma_accepted_items_are_fresh(durable, earlier);
        let before = accepted_items(durable, earlier);
        let after = accepted_items(durable, requests);
        assert forall|i: int| 0 <= i < after.len() implies {
            &&& (#[trigger] after[i]).state is Queued
            &&& !id_taken(durable.queue, after.take(i), after[i].id)
        } by {
            if i < before.len() {
                assert(after[i] == before[i]);
                assert(after.take(i) =~= before.take(i));
            } else {
                assert(after == before.push(queued_item(requests.last())));
                assert(after.take(i) =~= before);
            }
        }
    }
}

/// Queued items that are new to the queue and to each other are added in
/// order, every addition passing replay validation.
proof fn lemma_additions_pass(durable: DurableStateView, accepted: Seq<QueueItemView>)
    requires
        forall|i: int|
            0 <= i < accepted.len() ==> {
                &&& (#[trigger] accepted[i]).state is Queued
                &&& !id_taken(durable.queue, accepted.take(i), accepted[i].id)
            },
    ensures
        batch_outcome(durable, additions(accepted)) == Ok::<DurableStateView, &'static str>(
            DurableStateView { queue: durable.queue + accepted, ..durable },
        ),
    decreases accepted.len(),
{
    if accepted.len() == 0 {
        assert(durable.queue + accepted =~= durable.queue);
    } else {
        let earlier = accepted.drop_last();
        assert forall|i: int| 0 <= i < earlier.len() implies {
            &&& (#[trigger] earlier[i]).state is Queued
            &&& !id_taken(durable.queue, earlier.take(i), earlier[i].id)
        } by {
            assert(earlier[i] == accepted[i]);
            assert(earlier.take(i) =~= accepted.take(i));
        }
        lemma_additions_pass(durable, earlier);
        assert(additions(accepted).drop_last() =~= additions(earlier));
        let last = accepted.last();
        let before = DurableStateView { queue: durable.queue + earlier, ..durable };
        assert(accepted.take(accepted.len() - 1) =~= earlier);
        assert(!id_taken(durable.queue, earlier, last.id));
        assert forall|k: int| 0 <= k < before.queue.len() implies #[trigger] before.queue[k].id != last.id by {
            if k < durable.queue.len() {
                assert(before.queue[k] == durable.queue[k]);
            } else {
                assert(before.queue[k] == earlier[k - durable.queue.len()]);
            }
        }
        assert(replay_validation(before, additions(accepted).last()) is Ok);
        assert(before.queue.push(last) =~= durable.queue + accepted);
    }
}

/// In a state whose queue ids are distinct, whose runs name known records
/// and whose working items hold open runs, a command that replay does not
/// refuse records deltas that pass replay validation in order and fold to
/// the state the live command leaves.
pub proof fn lemma_command_passes_replay(state: AppStateView, command: CommandView)
    requires
        !replay_refuses(state, command),
        runs_have_records(state.durable),
        working_runs_open(state.durable),
        ids_distinct(state.durable.queue),
    ensures
        batch_outcome(state.durable, command_outcome(state, command).durable) == Ok::<DurableStateView, &'static str>(
            after_applied(state, command_outcome(state, command)).durable,
        ),
{
    let outcome = command_outcome(state, command);
    lemma_ephemeral_keeps_durable(
        AppStateView {
            durable: durable_after(state.durable, outcome.durable),
            settings: crate::reducer::settings_after(state.settings, outcome.config),
            ..state
        },
        outcome.ephemeral,
    );
    match command {
        CommandView::Queue(QueueCommandView::AddMany { requests }) => {
            if let Some((accepted, _)) = add_batch(state.durable, requests) {
                lemma_accepted_items_are_fresh(state.durable, requests);
                assert(accepted_items(state.durable, requests) == accepted);
                lemma_additions_pass(state.durable, accepted);
                assert(outcome.durable == additions(accepted));
                assert(batch_outcome(state.durable, outcome.durable) is Ok);
            } else {
                assert(outcome.durable.len() == 0);
                assert(batch_outcome(state.durable, outcome.durable) is Ok);
            }
        },
        CommandView::Queue(QueueCommandView::Remove { item_id }) => {
            let queue = state.durable.queue;
            lemma_first_index(queue, has_id(item_id));
            if let Some(item) = first_match(queue, has_id(item_id)) {
                if clearable(item) {
                    let index = first_index(queue, has_id(item_id));
                    assert(crate::journal::answers(ItemQueryView::Removable(item_id), queue[index]));
                    assert(some_item(queue, ItemQueryView::Removable(item_id)));
                    assert(outcome.durable == seq![DurableDeltaView::QueueRemoved { item_id }]);
                    assert(outcome.durable.drop_last() =~= Seq::<DurableDeltaView>::empty());
                    assert(batch_outcome(state.durable, outcome.durable.drop_last()) == Ok::<DurableStateView, &'static str>(state.durable));
                    assert(replay_validation(state.durable, outcome.durable.last()) is Ok);
                    assert(batch_outcome(state.durable, outcome.durable) is Ok);
                } else {
                    assert(outcome.durable.len() == 0);
                    assert(batch_outcome(state.durable, outcome.durable) is Ok);
                }
            } else {
                assert(outcome.durable.len() == 0);
                assert(batch_outcome(state.durable, outcome.durable) is Ok);
            }
        },
        CommandView::Queue(QueueCommandView::Move { item_id, before }) => {
            let queue = state.durable.queue;
            lemma_first_index(queue, has_id(item_id));
            lemma_first_index(queue, pending_entry());
            if let Some(target) = before {
                lemma_first_index(queue, has_id(target));
            }
            if outcome.durable.len() > 0 {
                let index = first_index(queue, has_id(item_id));
                assert(crate::journal::answers(ItemQueryView::Pending(item_id), queue[index]));
                if let DurableDeltaView::QueueMoved { before: resolved, .. } = outcome.durable[0] {
                    if let Some(chosen) = resolved {
                        let explicit = match before {
                            Some(target) => first_index(queue, has_id(target)),
                            None => -1,
                        };
                        let fallback = first_index(queue, pending_entry());
                        if explicit >= 0 && is_pending(queue[explicit]) {
                            assert(crate::journal::answers(ItemQueryView::Pending(chosen), queue[explicit]));
                        } else {
                            assert(crate::journal::answers(ItemQueryView::Pending(chosen), queue[fallback]));
                        }
                    }
                }
                lemma_single_delta_passes(state.durable, outcome.durable);
            }
        },
        CommandView::Queue(QueueCommandView::Clear) => {
            if outcome.durable.len() > 0 {
                lemma_filtered_items(state.durable.queue, clear_filter());
                lemma_removals_pass(state.durable, state.durable.queue.filter(clear_filter()));
            }
        },
        CommandView::Queue(QueueCommandView::ClearCompleted) => {
            let items = state.durable.queue.filter(completed_filter());
            lemma_filtered_items(state.durable.queue, completed_filter());
            assert forall|k: int| 0 <= k < items.len() implies clearable(#[trigger] items[k]) && state.durable.queue.contains(
                items[k],
            ) by {
                assert(completed_filter()(items[k]));
            }
            lemma_removals_pass(state.durable, items);
        },
        CommandView::Queue(QueueCommandView::ReorderPending { .. }) => {
            if outcome.durable.len() > 0 {
                lemma_single_delta_passes(state.durable, outcome.durable);
            }
        },
        CommandView::Queue(QueueCommandView::Retry { item_id }) => {
            let queue = state.durable.queue;
            lemma_first_index(queue, has_id(item_id));
            if outcome.durable.len() > 0 {
                let index = first_index(queue, has_id(item_id));
                assert(crate::journal::answers(ItemQueryView::Finished(item_id), queue[index]));
                lemma_single_delta_passes(state.durable, outcome.durable);
            }
        },
        CommandView::Queue(QueueCommandView::Edit { item_id, .. }) => {
            let queue = state.durable.queue;
            lemma_first_index(queue, has_id(item_id));
            if outcome.durable.len() > 0 {
                let index = first_index(queue, has_id(item_id));
                assert(crate::journal::answers(ItemQueryView::Pending(item_id), queue[index]));
                lemma_single_delta_passes(state.durable, outcome.durable);
            }
        },
        CommandView::Worker(WorkerCommandView::ReserveNext { .. }) => {
            if outcome.durable.len() > 0 {
                let queue = state.durable.queue;
                lemma_first_index(queue, |item: QueueItemView| is_active(item));
                lemma_first_index(queue, pending_entry());
                assert forall|k: int| 0 <= k < queue.len() implies !crate::journal::answers(
                    ItemQueryView::AnyActive,
                    #[trigger] queue[k],
                ) by {
                    assert(!(|item: QueueItemView| is_active(item))(queue[k]));
                }
                let index = first_index(queue, pending_entry());
                assert(pending_entry()(queue[index]));
                lemma_single_delta_passes(state.durable, outcome.durable);
            }
        },
        CommandView::Worker(WorkerCommandView::AbandonReservation { item_id, claim_id, run_id, .. }) => {
            if outcome.durable.len() > 0 {
                let queue = state.durable.queue;
                lemma_first_index(queue, has_id(item_id));
                let index = first_index(queue, has_id(item_id));
                assert(crate::journal::answers(ItemQueryView::Reserved(item_id, claim_id, run_id), queue[index]));
                lemma_single_delta_passes(state.durable, outcome.durable);
            }
        },
        CommandView::Worker(WorkerCommandView::Started { item_id, claim_id, run_id, .. }) => {
            if outcome.durable.len() > 0 {
                let queue = state.durable.queue;
                lemma_first_index(queue, has_id(item_id));
                let index = first_index(queue, has_id(item_id));
                assert(crate::journal::answers(ItemQueryView::Claimed(item_id, claim_id, run_id), queue[index]));
                lemma_single_delta_passes(state.durable, outcome.durable);
            }
        },
        CommandView::Worker(WorkerCommandView::RecordAnalysis { run_id, .. }) => {
            if outcome.durable.len() > 0 {
                let runs = state.durable.conversion_runs;
                lemma_first_index(runs, crate::state::run_record(run_id));
                let index = first_index(runs, crate::state::run_record(run_id));
                assert(names_known_record(state.durable.records, runs[index]));
                lemma_single_delta_passes(state.durable, outcome.durable);
            }
        },
        CommandView::Worker(WorkerCommandView::Terminal { item_id, claim_id, run_id, .. }) => {
            if outcome.durable.len() > 0 {
                let queue = state.durable.queue;
                lemma_first_index(queue, has_id(item_id));
                let index = first_index(queue, has_id(item_id));
                assert(crate::journal::answers(ItemQueryView::Working(item_id, claim_id, run_id), queue[index]));
                assert(working_run(queue[index]) == Some(run_id));
                assert forall|k: int| 0 <= k < queue.len() implies !crate::journal::answers(
                    ItemQueryView::Reserved(item_id, claim_id, run_id),
                    #[trigger] queue[k],
                ) by {
                    if queue[k].id == item_id && k != index {
                        if k < index {
                            assert(!has_id(item_id)(queue[k]));
                        } else {
                            assert(queue[index].id != queue[k].id);
                        }
                    }
                }
                lemma_single_delta_passes(state.durable, outcome.durable);
            }
        },
        CommandView::Worker(WorkerCommandView::PrepareReserved { .. }) => {
            lemma_preparation_passes_replay(state, command);
        },
        CommandView::Worker(WorkerCommandView::Output(_)) => {
            if outcome.durable.len() > 0 {
                lemma_single_delta_passes(state.durable, outcome.durable);
            }
        },
        CommandView::History(HistoryCommandView::Import { records }) => {
            if outcome.durable.len() > 0 {
                lemma_fresh_imports_fit(state.durable, records);
                lemma_single_delta_passes(state.durable, outcome.durable);
            }
        },
        _ => {
            assert(outcome.durable.len() == 0);
        },
    }
    lemma_valid_batch_folds(state.durable, outcome.durable);
}

/// A command that replay does not refuse keeps the run of every claimed or
/// running item recorded and open.
proof fn lemma_command_keeps_working_runs(state: AppStateView, command: CommandView)
    requires
        !replay_refuses(state, command),
        runs_have_records(state.durable),
        working_runs_open(state.durable),
        queue_invariant(state.durable.queue),
    ensures
        working_runs_open(after_applied(state, command_outcome(state, command)).durable),
{
    lemma_command_passes_replay(state, command);
    let outcome = command_outcome(state, command);
    let durable = state.durable;
    match command {
        CommandView::Worker(WorkerCommandView::Started { .. }) => {
            if outcome.durable.len() > 0 {
                lemma_single_step(durable, outcome.durable);
                lemma_running_keeps_working_runs(durable, outcome.durable[0]);
            }
        },
        CommandView::Worker(WorkerCommandView::Terminal { .. }) => {
            if outcome.durable.len() > 0 {
                lemma_single_step(durable, outcome.durable);
                lemma_finished_keeps_working_runs(durable, outcome.durable[0]);
            }
        },
        CommandView::Worker(WorkerCommandView::AbandonReservation { .. }) => {
            if outcome.durable.len() > 0 {
                lemma_single_step(durable, outcome.durable);
                lemma_finished_keeps_working_runs(durable, outcome.durable[0]);
            }
        },
        _ => {
            lemma_no_start_or_finish(state, command);
            lemma_batch_keeps_working_runs(durable, outcome.durable);
        },
    }
}

/// A passing batch of one delta validates and folds that delta.
proof fn lemma_single_step(durable: DurableStateView, deltas: Seq<DurableDeltaView>)
    requires
        deltas.len() == 1,
        batch_outcome(durable, deltas) is Ok,
    ensures
        replay_validation(durable, deltas[0]) is Ok,
        batch_outcome(durable, deltas) == Ok::<DurableStateView, &'static str>(folded(durable, deltas[0])),
{
    assert(deltas.drop_last() =~= Seq::<DurableDeltaView>::empty());
    assert(batch_outcome(durable, deltas.drop_last()) == Ok::<DurableStateView, &'static str>(durable));
    assert(deltas.last() == deltas[0]);
}

/// Only a start, a terminal report or an abandoned reservation journals
/// an item starting or finishing.
proof fn lemma_no_start_or_finish(state: AppStateView, command: CommandView)
    requires
        !(command matches CommandView::Worker(WorkerCommandView::Started { .. })),
        !(command matches CommandView::Worker(WorkerCommandView::Terminal { .. })),
        !(command matches CommandView::Worker(WorkerCommandView::AbandonReservation { .. })),
    ensures
        forall|k: int|
            0 <= k < command_outcome(state, command).durable.len() ==> !(#[trigger] command_outcome(state, command).durable[k] is ItemRunning)
                && !(command_outcome(state, command).durable[k] is ItemFinished),
{
}

/// Whether replay would refuse none of the commands of a live run, each
/// met in the state the earlier ones left.
pub open spec fn refuses_none(state: AppStateView, commands: Seq<CommandView>) -> bool {
    forall|k: int| 0 <= k < commands.len() ==> !replay_refuses(live_after(state, commands.take(k)), #[trigger] commands[k])
}

/// From a state that holds the queue invariant, whose runs name known
/// records and whose working items hold open runs, the deltas a live run
/// records pass replay validation in order and fold to the live durable
/// state, unless replay refuses one of its commands; the live state keeps
/// those facts.
pub proof fn lemma_live_commands_pass_replay(state: AppStateView, commands: Seq<CommandView>)
    requires
        queue_invariant(state.durable.queue),
        runs_have_records(state.durable),
        working_runs_open(state.durable),
        refuses_none(state, commands),
    ensures
        batch_outcome(state.durable, live_deltas(state, commands)) == Ok::<DurableStateView, &'static str>(
            live_after(state, commands).durable,
        ),
        runs_have_records(live_after(state, commands).durable),
        working_runs_open(live_after(state, commands).durable),
    decreases commands.len(),
{
    if commands.len() > 0 {
        let earlier = commands.drop_last();
        assert forall|k: int| 0 <= k < earlier.len() implies !replay_refuses(
            live_after(state, earlier.take(k)),
            #[trigger] earlier[k],
        ) by {
            assert(earlier[k] == commands[k]);
            assert(earlier.take(k) =~= commands.take(k));
        }
        lemma_live_commands_pass_replay(state, earlier);
        let before = live_after(state, earlier);
        lemma_live_queue_keeps_invariant(state, earlier);
        assert(commands.take(commands.len() - 1) =~= earlier);
        assert(!replay_refuses(live_after(state, commands.take(commands.len() - 1)), commands[commands.len() - 1]));
        lemma_command_passes_replay(before, commands.last());
        lemma_batch_keeps_run_records(before.durable, command_outcome(before, commands.last()).durable);
        lemma_command_keeps_working_runs(before, commands.last());
        lemma_batch_concat(state.durable, live_deltas(state, earlier), command_outcome(before, commands.last()).durable);
    }
}

/// Splitting journal records: the deltas of all records are those of a
/// prefix followed by those of the rest.
proof fn lemma_journaled_split(records: Seq<JournalRecordView>, split: int)
    requires
        0 <= split <= records.len(),
    ensures
        journaled_deltas(records) == journaled_deltas(records.subrange(0, split)) + journaled_deltas(
            records.subrange(split, records.len() as int),
        ),
    decreases records.len() - split,
{
    if split == records.len() {
        assert(records.subrange(0, split) =~= records);
        assert(records.subrange(split, records.len() as int).len() == 0);
        assert(journaled_deltas(records) + Seq::<DurableDeltaView>::empty() =~= journaled_deltas(records));
    } else {
        lemma_journaled_split(records, split + 1);
        let head = records.subrange(0, split);
        let rest = records.subrange(split, records.len() as int);
        let longer_head = records.subrange(0, split + 1);
        let shorter_rest = records.subrange(split + 1, records.len() as int);
        assert(longer_head.drop_last() =~= head);
        assert(longer_head.last() == records[split]);
        lemma_journaled_prepend(rest);
        assert(rest.drop_first() =~= shorter_rest);
        assert(rest[0] == records[split]);
        assert(journaled_deltas(head) + record_deltas(records[split]) + journaled_deltas(shorter_rest) =~= journaled_deltas(
            head,
        ) + (record_deltas(records[split]) + journaled_deltas(shorter_rest)));
    }
}

/// The deltas of records are those of the first record, then the rest's.
proof fn lemma_journaled_prepend(records: Seq<JournalRecordView>)
    requires
        records.len() > 0,
    ensures
        journaled_deltas(records) == record_deltas(records[0]) + journaled_deltas(records.drop_first()),
    decreases records.len(),
{
    let first = record_deltas(records[0]);
    if records.len() == 1 {
        assert(journaled_deltas(records.drop_first()) =~= Seq::<DurableDeltaView>::empty());
        assert(journaled_deltas(records.drop_last()) =~= Seq::<DurableDeltaView>::empty());
        assert(records.last() == records[0]);
        assert(journaled_deltas(records) =~= first);
        assert(first + Seq::<DurableDeltaView>::empty() =~= first);
    } else {
        let shorter = records.drop_last();
        lemma_journaled_prepend(shorter);
        let rest = records.drop_first();
        assert(shorter[0] == records[0]);
        assert(shorter.drop_first() =~= rest.drop_last());
        assert(rest.last() == records.last());
        assert(rest.len() > 0);
        assert(journaled_deltas(rest) == journaled_deltas(rest.drop_last()) + record_deltas(rest.last()));
        assert(journaled_deltas(records) == journaled_deltas(shorter) + record_deltas(records.last()));
        assert(first + journaled_deltas(shorter.drop_first()) + record_deltas(records.last()) =~= first + (
        journaled_deltas(shorter.drop_first()) + record_deltas(records.last())));
    }
}

/// Well-formed records whose deltas pass replay validation together form a
/// valid journal, however the deltas are split into records.
proof fn lemma_passing_deltas_make_a_valid_journal(records: Seq<JournalRecordView>)
    requires
        forall|k: int| 0 <= k < records.len() ==> well_formed_record(#[trigger] records[k], k),
        batch_outcome(empty_durable(), journaled_deltas(records)) is Ok,
    ensures
        valid_journal(records),
{
    assert forall|k: int| 0 <= k < records.len() implies {
        &&& well_formed_record(#[trigger] records[k], k)
        &&& batch_outcome(
            durable_after(empty_durable(), journaled_deltas(records.subrange(0, k))),
            record_deltas(records[k]),
        ) is Ok
    } by {
        let head = journaled_deltas(records.subrange(0, k));
        let through = records.subrange(0, k + 1);
        lemma_journaled_split(records, k + 1);
        lemma_batch_concat(empty_durable(), journaled_deltas(through), journaled_deltas(records.subrange(k + 1, records.len() as int)));
        assert(through.drop_last() =~= records.subrange(0, k));
        assert(through.last() == records[k]);
        lemma_batch_concat(empty_durable(), head, record_deltas(records[k]));
        lemma_valid_batch_folds(empty_durable(), head);
    }
}

/// Journaling what a fresh engine records while it applies any commands,
/// and replaying that journal, rebuilds exactly the live durable state,
/// expects the next sequence and reports no corruption, however the
/// recorded deltas are split into well-formed records. The one exception is
/// a run in which the live reducer journals a step that replay refuses
/// (see `replay_refuses`).
pub proof fn lemma_replay_of_live_commands(state: AppStateView, commands: Seq<CommandView>, records: Seq<JournalRecordView>)
    requires
        state.durable == empty_durable(),
        refuses_none(state, commands),
        journaled_deltas(records) == live_deltas(state, commands),
        forall|k: int| 0 <= k < records.len() ==> well_formed_record(#[trigger] records[k], k),
        records.len() < u64::MAX,
    ensures
        journal_replay(records, FrameEnd::Complete) == (JournalReplayView {
            state: live_after(state, commands).durable,
            next_sequence: JournalSequence(records.len() as u64),
            corruption: None,
            ignored_torn_tail: false,
        }),
{
    lemma_live_commands_pass_replay(state, commands);
    lemma_passing_deltas_make_a_valid_journal(records);
    lemma_replay_equals_live_fold(records);
    lemma_valid_batch_folds(empty_durable(), journaled_deltas(records));
}

} // verus!
