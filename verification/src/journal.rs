//! The durable journal: framing newline-terminated records, re-validating
//! every replayed transition, and rebuilding the durable state.

use vstd::prelude::*;

use crate::job::{execution_validation, recording_validation};
use crate::lookup::{entry_views, find_key, lookup};
use crate::model::{views, Duplicate, SameView};
use crate::output::{output_delta_validation, transaction_of, validate_output_delta, find_output};
use crate::policy::{job_action, select_job_action};
use crate::reducer::known_import;
use crate::state::{
    contains_path, find_run, fold, folded, lemma_durable_views, pending_order_validation, run_of,
    validate_pending_order,
};
use crate::worker_commands::{terminal_validation, validate_terminal};
use crate::reducer::durable_after;
use crate::{
    JournalCorruption, JournalCorruptionView, JournalEnvelope, JournalEnvelopeView, JournalReplay,
    JournalReplayView, JournalSequence,
    ClaimId, DurableDelta, DurableDeltaView, DurableState, DurableStateView, ItemOutcomeView,
    JobSpec, JobSpecView, QueueItem, QueueItemId, QueueItemState, QueueItemStateView,
    QueueItemView, ReservedJob, ReservedJobView, RunId,
};

verus! {

/// The schema every journal record must carry.
pub const JOURNAL_SCHEMA_VERSION: u32 = 11u32;

/// The durable state before any journal record.
pub open spec fn empty_durable() -> DurableStateView {
    DurableStateView {
        queue: Seq::empty(),
        paths: Seq::empty(),
        records: Seq::empty(),
        outputs: Seq::empty(),
        conversion_runs: Seq::empty(),
        parked: Seq::empty(),
        adopted_imports: Seq::empty(),
    }
}

impl Default for DurableState {
    fn default() -> (state: Self)
        ensures
            state@ == empty_durable(),
    {
        let state = DurableState {
            queue: Vec::new(),
            paths: Vec::new(),
            records: Vec::new(),
            outputs: Vec::new(),
            conversion_runs: Vec::new(),
            parked: Vec::new(),
            adopted_imports: Vec::new(),
        };
        proof {
            lemma_durable_views(state);
        }
        assert(state@ =~= empty_durable()) by {
            assert(state@.queue =~= Seq::<QueueItemView>::empty());
            assert(state@.paths =~= Seq::empty());
            assert(state@.records =~= Seq::empty());
            assert(state@.outputs =~= Seq::empty());
            assert(state@.conversion_runs =~= Seq::empty());
            assert(state@.parked =~= Seq::empty());
            assert(state@.adopted_imports =~= Seq::empty());
        }
        state
    }
}

/// A question about one queue item, asked of every item of a queue.
pub enum ItemQuery {
    /// The item `id`, pending or finished.
    Removable(QueueItemId),
    /// The item `id`, pending.
    Pending(QueueItemId),
    /// The item `id`, finished.
    Finished(QueueItemId),
    /// Any item holding an active claim.
    AnyActive,
    /// The pending item a reservation describes.
    Reservable(ReservedJob),
    /// The item `id` reserved under the claim.
    Reserved(QueueItemId, ClaimId, RunId),
    /// The item `id` claimed under the claim.
    Claimed(QueueItemId, ClaimId, RunId),
    /// The item `id` claimed or running under the claim.
    Working(QueueItemId, ClaimId, RunId),
    /// The item a prepared job was reserved from.
    Preparable(JobSpec),
}

/// The mathematical value of an [`ItemQuery`].
pub enum ItemQueryView {
    Removable(QueueItemId),
    Pending(QueueItemId),
    Finished(QueueItemId),
    AnyActive,
    Reservable(ReservedJobView),
    Reserved(QueueItemId, ClaimId, RunId),
    Claimed(QueueItemId, ClaimId, RunId),
    Working(QueueItemId, ClaimId, RunId),
    Preparable(JobSpecView),
}

impl View for ItemQuery {
    type V = ItemQueryView;

    open spec fn view(&self) -> ItemQueryView {
        match self {
            ItemQuery::Removable(id) => ItemQueryView::Removable(*id),
            ItemQuery::Pending(id) => ItemQueryView::Pending(*id),
            ItemQuery::Finished(id) => ItemQueryView::Finished(*id),
            ItemQuery::AnyActive => ItemQueryView::AnyActive,
            ItemQuery::Reservable(job) => ItemQueryView::Reservable(job@),
            ItemQuery::Reserved(id, claim_id, run_id) => ItemQueryView::Reserved(*id, *claim_id, *run_id),
            ItemQuery::Claimed(id, claim_id, run_id) => ItemQueryView::Claimed(*id, *claim_id, *run_id),
            ItemQuery::Working(id, claim_id, run_id) => ItemQueryView::Working(*id, *claim_id, *run_id),
            ItemQuery::Preparable(spec) => ItemQueryView::Preparable(spec@),
        }
    }
}

/// Whether a queue item answers a query.
pub open spec fn answers(query: ItemQueryView, item: QueueItemView) -> bool {
    match query {
        ItemQueryView::Removable(id) => item.id == id && (item.state is Queued || item.state is Finished),
        ItemQueryView::Pending(id) => item.id == id && item.state is Queued,
        ItemQueryView::Finished(id) => item.id == id && item.state is Finished,
        ItemQueryView::AnyActive => item.state is Reserved || item.state is Claimed || item.state is Running,
        ItemQueryView::Reservable(job) => {
            &&& item.id == job.item_id
            &&& item.input == job.input
            &&& item.operation == job.operation
            &&& item.intent == job.intent
            &&& item.output_target == job.output_target
            &&& item.state is Queued
        },
        ItemQueryView::Reserved(id, claim_id, run_id) => item.id == id && item.state
            == (QueueItemStateView::Reserved { claim_id, run_id }),
        ItemQueryView::Claimed(id, claim_id, run_id) => item.id == id && item.state
            == (QueueItemStateView::Claimed { claim_id, run_id }),
        ItemQueryView::Working(id, claim_id, run_id) => item.id == id && (item.state
            == (QueueItemStateView::Claimed { claim_id, run_id }) || item.state == (QueueItemStateView::Running {
            claim_id,
            run_id,
        })),
        ItemQueryView::Preparable(spec) => {
            &&& item.id == spec.item_id
            &&& item.input == spec.input
            &&& item.operation == spec.operation
            &&& item.intent == spec.intent
            &&& item.output_target == spec.output_target
            &&& item.state == (QueueItemStateView::Reserved { claim_id: spec.claim_id, run_id: spec.run_id })
        },
    }
}

/// Whether some item of the queue answers the query.
pub open spec fn some_item(queue: Seq<QueueItemView>, query: ItemQueryView) -> bool {
    exists|k: int| 0 <= k < queue.len() && answers(query, #[trigger] queue[k])
}

fn item_answers(query: &ItemQuery, item: &QueueItem) -> (answer: bool)
    ensures
        answer == answers(query@, item@),
{
    match query {
        ItemQuery::Removable(id) => item.id.0 == id.0 && match item.state {
            QueueItemState::Queued | QueueItemState::Finished(_) => true,
            _ => false,
        },
        ItemQuery::Pending(id) => item.id.0 == id.0 && match item.state {
            QueueItemState::Queued => true,
            _ => false,
        },
        ItemQuery::Finished(id) => item.id.0 == id.0 && match item.state {
            QueueItemState::Finished(_) => true,
            _ => false,
        },
        ItemQuery::AnyActive => match item.state {
            QueueItemState::Reserved { .. } | QueueItemState::Claimed { .. } | QueueItemState::Running { .. } => true,
            _ => false,
        },
        ItemQuery::Reservable(job) => {
            let queued = match item.state {
                QueueItemState::Queued => true,
                _ => false,
            };
            item.id.0 == job.item_id.0 && item.input.same_view(&job.input) && item.operation == job.operation
                && item.intent == job.intent && item.output_target.same_view(&job.output_target) && queued
        },
        ItemQuery::Reserved(id, claim_id, run_id) => item.id.0 == id.0 && match item.state {
            QueueItemState::Reserved { claim_id: current_claim, run_id: current_run } => current_claim.0 == claim_id.0
                && current_run.0 == run_id.0,
            _ => false,
        },
        ItemQuery::Claimed(id, claim_id, run_id) => item.id.0 == id.0 && match item.state {
            QueueItemState::Claimed { claim_id: current_claim, run_id: current_run } => current_claim.0 == claim_id.0
                && current_run.0 == run_id.0,
            _ => false,
        },
        ItemQuery::Working(id, claim_id, run_id) => item.id.0 == id.0 && match item.state {
            QueueItemState::Claimed { claim_id: current_claim, run_id: current_run }
            | QueueItemState::Running { claim_id: current_claim, run_id: current_run } => current_claim.0 == claim_id.0
                && current_run.0 == run_id.0,
            _ => false,
        },
        ItemQuery::Preparable(spec) => {
            let reserved = match item.state {
                QueueItemState::Reserved { claim_id: current_claim, run_id: current_run } => current_claim.0
                    == spec.claim_id.0 && current_run.0 == spec.run_id.0,
                _ => false,
            };
            item.id.0 == spec.item_id.0 && item.input.same_view(&spec.input) && item.operation == spec.operation
                && item.intent == spec.intent && item.output_target.same_view(&spec.output_target) && reserved
        },
    }
}

fn any_item(queue: &Vec<QueueItem>, query: &ItemQuery) -> (found: bool)
    ensures
        found == some_item(views(queue@), query@),
{
    let ghost items = views(queue@);
    let mut index: usize = 0;
    while index < queue.len()
        invariant
            index <= queue.len(),
            items == views(queue@),
            forall|k: int| 0 <= k < index ==> !answers(query@, #[trigger] items[k]),
        decreases queue.len() - index,
    {
        assert(items[index as int] == queue@[index as int]@);
        if item_answers(query, &queue[index]) {
            assert(answers(query@, items[index as int]));
            return true;
        }
        index += 1;
    }
    false
}

/// Whether an import batch repeats a path, or names one already parked or
/// adopted.
pub open spec fn import_conflict(state: DurableStateView, records: Seq<(crate::ImportPathView, crate::ParkedRecordView)>) -> bool {
    exists|k: int|
        0 <= k < records.len() && (known_import(state, #[trigger] records[k].0) || exists|j: int|
            0 <= j < k && records[j].0 == records[k].0)
}

/// Whether an observation lacks a fact the durable record needs.
pub open spec fn observation_incomplete(observation: crate::MediaObservationView) -> bool {
    ||| observation.path_hash.0.len() == 0
    ||| observation.binding.content_key.0.len() == 0
    ||| observation.binding.identity.size == 0
    ||| observation.metadata.duration_ms == 0
    ||| observation.metadata.width == 0
    ||| observation.metadata.height == 0
}

/// The content record a prepared job names.
pub open spec fn spec_record(state: DurableStateView, spec: JobSpecView) -> Option<crate::FileRecordView> {
    match spec.content_key {
        Some(key) => lookup(state.records, key),
        None => None,
    }
}

/// Whether a replayed delta is a legal transition of the durable state.
pub open spec fn replay_validation(state: DurableStateView, delta: DurableDeltaView) -> Result<(), &'static str> {
    let queue = state.queue;
    match delta {
        DurableDeltaView::QueueAdded { item } => {
            if exists|k: int| 0 <= k < queue.len() && #[trigger] queue[k].id == item.id {
                Err("queue item id already exists")
            } else if !(item.state is Queued) {
                Err("new queue item is not queued")
            } else {
                Ok(())
            }
        },
        DurableDeltaView::QueueRemoved { item_id } => if some_item(queue, ItemQueryView::Removable(item_id)) {
            Ok(())
        } else {
            Err("removed queue item does not exist or is active")
        },
        DurableDeltaView::QueueMoved { item_id, before } => {
            let destination = match before {
                None => true,
                Some(before_id) => some_item(queue, ItemQueryView::Pending(before_id)),
            };
            if some_item(queue, ItemQueryView::Pending(item_id)) && destination {
                Ok(())
            } else {
                Err("queue move references an unavailable item")
            }
        },
        DurableDeltaView::QueueReordered { pending_order } => pending_order_validation(queue, pending_order),
        DurableDeltaView::QueueRequeued { item_id } => if some_item(queue, ItemQueryView::Finished(item_id)) {
            Ok(())
        } else {
            Err("requeued item is not finished")
        },
        DurableDeltaView::QueueEdited { item_id, .. } => if some_item(queue, ItemQueryView::Pending(item_id)) {
            Ok(())
        } else {
            Err("edited item is not queued")
        },
        DurableDeltaView::ItemReserved { job } => {
            if !some_item(queue, ItemQueryView::Reservable(job)) || some_item(queue, ItemQueryView::AnyActive) {
                Err("reservation does not match an available queue item")
            } else {
                Ok(())
            }
        },
        DurableDeltaView::MediaObserved { observation } => if observation_incomplete(observation) {
            Err("media observation is incomplete")
        } else {
            Ok(())
        },
        DurableDeltaView::ItemPrepared { spec } => {
            let record = spec_record(state, spec);
            let expected = job_action(
                match record {
                    Some(known) => Some(known.metadata),
                    None => None,
                },
                record,
                spec.operation,
                spec.intent,
                spec.execution,
            );
            if execution_validation(spec.execution) is Err {
                execution_validation(spec.execution)
            } else if !some_item(queue, ItemQueryView::Preparable(spec)) || (spec.content_key is Some && record is None)
                || spec.action != expected || run_of(state.conversion_runs, spec.run_id) is Some {
                Err("prepared job does not match its reservation or media record")
            } else {
                Ok(())
            }
        },
        DurableDeltaView::ItemRunning { item_id, claim_id, run_id, .. } => if some_item(
            queue,
            ItemQueryView::Claimed(item_id, claim_id, run_id),
        ) {
            Ok(())
        } else {
            Err("running transition has a stale claim")
        },
        DurableDeltaView::AnalysisRecorded { run_id, result } => match run_of(state.conversion_runs, run_id) {
            None => Err("analysis references a missing run"),
            Some(run) => {
                if run.analysis is Some {
                    Err("analysis is already recorded")
                } else if run.spec.content_key is Some && lookup(state.records, run.spec.content_key->0) is None {
                    Err("analysis content record is missing")
                } else {
                    recording_validation(result, run.spec.execution)
                }
            },
        },
        DurableDeltaView::ItemFinished { item_id, claim_id, run_id, outcome, .. } => {
            if some_item(queue, ItemQueryView::Reserved(item_id, claim_id, run_id)) {
                if !(outcome is Stopped) || run_of(state.conversion_runs, run_id) is Some {
                    Err("reservation terminal is not a clean stop")
                } else {
                    Ok(())
                }
            } else {
                match run_of(state.conversion_runs, run_id) {
                    None => Err("terminal transition references a missing run"),
                    Some(run) => {
                        if !some_item(queue, ItemQueryView::Working(item_id, claim_id, run_id)) || run.outcome is Some {
                            Err("terminal transition has a stale claim")
                        } else {
                            terminal_validation(run, transaction_of(state.outputs, run_id), outcome)
                        }
                    },
                }
            }
        },
        DurableDeltaView::Output(output) => output_delta_validation(state.outputs, output),
        DurableDeltaView::HistoryImported { records } => if import_conflict(state, records) {
            Err("imported record is already parked or adopted")
        } else {
            Ok(())
        },
        DurableDeltaView::ParkedAdopted { import_path, content_key, imported, .. } => {
            if lookup(state.parked, import_path) != Some(imported) {
                Err("adoption does not match the parked record")
            } else if lookup(state.records, content_key) is None {
                Err("adoption content record is missing")
            } else {
                Ok(())
            }
        },
        DurableDeltaView::ParkedRetired { import_path } => if lookup(state.parked, import_path) is Some {
            Ok(())
        } else {
            Err("retired import is not parked")
        },
    }
}

fn id_exists(queue: &Vec<QueueItem>, id: QueueItemId) -> (found: bool)
    ensures
        found == exists|k: int| 0 <= k < queue@.len() && #[trigger] views(queue@)[k].id == id,
{
    let mut index: usize = 0;
    while index < queue.len()
        invariant
            index <= queue.len(),
            forall|k: int| 0 <= k < index ==> #[trigger] views(queue@)[k].id != id,
        decreases queue.len() - index,
    {
        assert(views(queue@)[index as int] == queue@[index as int]@);
        if queue[index].id.0 == id.0 {
            assert(views(queue@)[index as int].id == id);
            return true;
        }
        index += 1;
    }
    false
}

#[verifier::loop_isolation(false)]
fn imports_conflict(state: &DurableState, records: &Vec<(crate::ImportPath, crate::ParkedRecord)>) -> (conflict: bool)
    ensures
        conflict == import_conflict(state@, entry_views(records@)),
{
    proof {
        lemma_durable_views(*state);
    }
    let ghost incoming = entry_views(records@);
    let mut k: usize = 0;
    while k < records.len()
        invariant
            k <= records.len(),
            incoming == entry_views(records@),
            forall|a: int|
                0 <= a < k ==> !(known_import(state@, #[trigger] incoming[a].0) || exists|j: int|
                    0 <= j < a && incoming[j].0 == incoming[a].0),
        decreases records.len() - k,
    {
        assert(incoming[k as int] == records@[k as int]@);
        let path = &records[k].0;
        let known = find_key(&state.parked, path).is_some() || contains_path(&state.adopted_imports, path);
        if known {
            assert(known_import(state@, incoming[k as int].0));
            return true;
        }
        let mut j: usize = 0;
        while j < k
            invariant
                j <= k < records.len(),
                incoming == entry_views(records@),
                forall|b: int| 0 <= b < j ==> incoming[b].0 != incoming[k as int].0,
            decreases k - j,
        {
            assert(incoming[j as int] == records@[j as int]@);
            if records[j].0.same_view(path) {
                assert(incoming[j as int].0 == incoming[k as int].0);
                return true;
            }
            j += 1;
        }
        k += 1;
    }
    false
}

fn incomplete_observation(observation: &crate::MediaObservation) -> (incomplete: bool)
    ensures
        incomplete == observation_incomplete(observation@),
{
    crate::text::is_empty_text(&observation.path_hash.0) || crate::text::is_empty_text(&observation.binding.content_key.0)
        || observation.binding.identity.size == 0 || observation.metadata.duration_ms == 0
        || observation.metadata.width == 0 || observation.metadata.height == 0
}

fn record_of<'a>(state: &'a DurableState, key: &crate::ContentKey) -> (record: Option<&'a crate::FileRecord>)
    ensures
        match record {
            Some(found) => lookup(state@.records, key@) == Some(found@),
            None => lookup(state@.records, key@) is None,
        },
{
    proof {
        lemma_durable_views(*state);
    }
    match find_key(&state.records, key) {
        Some(index) => {
            assert(state@.records[index as int] == state.records@[index as int]@);
            Some(&state.records[index].1)
        },
        None => None,
    }
}

fn run_record<'a>(state: &'a DurableState, run_id: RunId) -> (run: Option<&'a crate::ConversionRun>)
    ensures
        match run {
            Some(found) => run_of(state@.conversion_runs, run_id) == Some(found@),
            None => run_of(state@.conversion_runs, run_id) is None,
        },
{
    proof {
        lemma_durable_views(*state);
    }
    match find_run(&state.conversion_runs, run_id) {
        Some(index) => {
            assert(state@.conversion_runs[index as int] == state.conversion_runs@[index as int]@);
            Some(&state.conversion_runs[index])
        },
        None => None,
    }
}

/// Check that a replayed delta is a legal transition of the durable state.
pub fn validate_replayed_delta(state: &DurableState, delta: &DurableDelta) -> (result: Result<(), &'static str>)
    ensures
        result == replay_validation(state@, delta@),
{
    proof {
        lemma_durable_views(*state);
    }
    let queue = &state.queue;
    match delta {
        DurableDelta::QueueAdded { item } => {
            if id_exists(queue, item.id) {
                return Err("queue item id already exists");
            }
            if let QueueItemState::Queued = item.state {
                Ok(())
            } else {
                Err("new queue item is not queued")
            }
        },
        DurableDelta::QueueRemoved { item_id } => {
            if any_item(queue, &ItemQuery::Removable(*item_id)) {
                Ok(())
            } else {
                Err("removed queue item does not exist or is active")
            }
        },
        DurableDelta::QueueMoved { item_id, before } => {
            let destination = match before {
                None => true,
                Some(before_id) => any_item(queue, &ItemQuery::Pending(*before_id)),
            };
            if any_item(queue, &ItemQuery::Pending(*item_id)) && destination {
                Ok(())
            } else {
                Err("queue move references an unavailable item")
            }
        },
        DurableDelta::QueueReordered { pending_order } => validate_pending_order(queue, pending_order),
        DurableDelta::QueueRequeued { item_id } => {
            if any_item(queue, &ItemQuery::Finished(*item_id)) {
                Ok(())
            } else {
                Err("requeued item is not finished")
            }
        },
        DurableDelta::QueueEdited { item_id, .. } => {
            if any_item(queue, &ItemQuery::Pending(*item_id)) {
                Ok(())
            } else {
                Err("edited item is not queued")
            }
        },
        DurableDelta::ItemReserved { job } => {
            let query = ItemQuery::Reservable((**job).duplicate());
            if !any_item(queue, &query) || any_item(queue, &ItemQuery::AnyActive) {
                Err("reservation does not match an available queue item")
            } else {
                Ok(())
            }
        },
        DurableDelta::MediaObserved { observation } => {
            if incomplete_observation(observation) {
                Err("media observation is incomplete")
            } else {
                Ok(())
            }
        },
        DurableDelta::ItemPrepared { spec } => {
            spec.execution.validate()?;
            let record = match &spec.content_key {
                Some(key) => record_of(state, key),
                None => None,
            };
            let metadata = match record {
                Some(known) => Some(&known.metadata),
                None => None,
            };
            let expected = select_job_action(metadata, record, spec.operation, spec.intent, &spec.execution);
            let query = ItemQuery::Preparable((**spec).duplicate());
            let missing = spec.content_key.is_some() && record.is_none();
            if !any_item(queue, &query) || missing || !spec.action.same_view(&expected) || run_record(
                state,
                spec.run_id,
            ).is_some() {
                Err("prepared job does not match its reservation or media record")
            } else {
                Ok(())
            }
        },
        DurableDelta::ItemRunning { item_id, claim_id, run_id, .. } => {
            if any_item(queue, &ItemQuery::Claimed(*item_id, *claim_id, *run_id)) {
                Ok(())
            } else {
                Err("running transition has a stale claim")
            }
        },
        DurableDelta::AnalysisRecorded { run_id, result } => {
            let run = match run_record(state, *run_id) {
                Some(run) => run,
                None => {
                    return Err("analysis references a missing run");
                },
            };
            if run.analysis.is_some() {
                return Err("analysis is already recorded");
            }
            if let Some(key) = &run.spec.content_key {
                if record_of(state, key).is_none() {
                    return Err("analysis content record is missing");
                }
            }
            result.validate_for(&run.spec.execution)
        },
        DurableDelta::ItemFinished { item_id, claim_id, run_id, outcome, .. } => {
            if any_item(queue, &ItemQuery::Reserved(*item_id, *claim_id, *run_id)) {
                let stopped = match outcome {
                    crate::ItemOutcome::Stopped => true,
                    _ => false,
                };
                if !stopped || run_record(state, *run_id).is_some() {
                    return Err("reservation terminal is not a clean stop");
                }
                return Ok(());
            }
            let run = match run_record(state, *run_id) {
                Some(run) => run,
                None => {
                    return Err("terminal transition references a missing run");
                },
            };
            if !any_item(queue, &ItemQuery::Working(*item_id, *claim_id, *run_id)) || run.outcome.is_some() {
                return Err("terminal transition has a stale claim");
            }
            let output = match find_output(&state.outputs, *run_id) {
                Some(index) => {
                    assert(state@.outputs[index as int] == state.outputs@[index as int]@);
                    Some(&state.outputs[index])
                },
                None => None,
            };
            validate_terminal(run, output, outcome)
        },
        DurableDelta::Output(output) => validate_output_delta(state, output),
        DurableDelta::HistoryImported { records } => {
            if imports_conflict(state, records) {
                Err("imported record is already parked or adopted")
            } else {
                Ok(())
            }
        },
        DurableDelta::ParkedAdopted { import_path, content_key, imported, .. } => {
            let matches = match find_key(&state.parked, import_path) {
                Some(index) => {
                    assert(state@.parked[index as int] == state.parked@[index as int]@);
                    state.parked[index].1.same_view(imported)
                },
                None => false,
            };
            if !matches {
                return Err("adoption does not match the parked record");
            }
            if record_of(state, content_key).is_none() {
                return Err("adoption content record is missing");
            }
            Ok(())
        },
        DurableDelta::ParkedRetired { import_path } => {
            if find_key(&state.parked, import_path).is_some() {
                Ok(())
            } else {
                Err("retired import is not parked")
            }
        },
    }
}

/// The text of one decimal digit.
pub open spec fn digit_text(digit: nat) -> Seq<char> {
    if digit == 0 {
        "0"@
    } else if digit == 1 {
        "1"@
    } else if digit == 2 {
        "2"@
    } else if digit == 3 {
        "3"@
    } else if digit == 4 {
        "4"@
    } else if digit == 5 {
        "5"@
    } else if digit == 6 {
        "6"@
    } else if digit == 7 {
        "7"@
    } else if digit == 8 {
        "8"@
    } else {
        "9"@
    }
}

/// The decimal text of a number, without leading zeros.
pub open spec fn decimal(value: nat) -> Seq<char>
    decreases value,
{
    if value < 10 {
        digit_text(value)
    } else {
        decimal(value / 10) + digit_text(value % 10)
    }
}

fn digit_str(digit: u64) -> (text: &'static str)
    requires
        digit < 10,
    ensures
        text@ == digit_text(digit as nat),
{
    if digit == 0 {
        "0"
    } else if digit == 1 {
        "1"
    } else if digit == 2 {
        "2"
    } else if digit == 3 {
        "3"
    } else if digit == 4 {
        "4"
    } else if digit == 5 {
        "5"
    } else if digit == 6 {
        "6"
    } else if digit == 7 {
        "7"
    } else if digit == 8 {
        "8"
    } else {
        "9"
    }
}

/// The decimal text of a number.
pub fn decimal_text(value: u64) -> (text: String)
    ensures
        text@ == decimal(value as nat),
    decreases value,
{
    if value < 10 {
        String::from_str(digit_str(value))
    } else {
        decimal_text(value / 10).concat(digit_str(value % 10))
    }
}

/// One complete journal record: the bytes from `start` up to `end`, the
/// newline after it excluded.
pub struct JournalFrame {
    pub start: usize,
    pub end: usize,
}

/// The mathematical value of a [`JournalFrame`].
pub struct JournalFrameView {
    pub start: nat,
    pub end: nat,
}

impl View for JournalFrame {
    type V = JournalFrameView;

    open spec fn view(&self) -> JournalFrameView {
        JournalFrameView { start: self.start as nat, end: self.end as nat }
    }
}

/// How the journal's bytes end after its last complete record.
#[derive(Clone, Copy, Debug, PartialEq, Eq, Structural)]
pub enum FrameEnd {
    /// Every record is newline-terminated.
    Complete,
    /// An unterminated final record, ignored as a torn write.
    TornTail,
    /// A newline with no record before it, at this offset.
    EmptyRecord { offset: usize },
}

/// The complete records of a journal and how its bytes end.
pub struct JournalFrames {
    pub records: Vec<JournalFrame>,
    pub end: FrameEnd,
}

/// The position of the first newline at or after `from`, or -1.
pub open spec fn newline_at(bytes: Seq<u8>, from: int) -> int
    decreases bytes.len() - from,
{
    if from < 0 || from >= bytes.len() {
        -1
    } else if bytes[from] == 10u8 {
        from
    } else {
        newline_at(bytes, from + 1)
    }
}

/// `newline_at` finds the first newline at or after its start.
pub proof fn lemma_newline_at(bytes: Seq<u8>, from: int)
    requires
        0 <= from,
    ensures
        newline_at(bytes, from) == -1 || (from <= newline_at(bytes, from) < bytes.len() && bytes[newline_at(bytes, from)]
            == 10u8),
        newline_at(bytes, from) == -1 ==> forall|k: int| from <= k < bytes.len() ==> bytes[k] != 10u8,
        newline_at(bytes, from) >= 0 ==> forall|k: int| from <= k < newline_at(bytes, from) ==> bytes[k] != 10u8,
    decreases bytes.len() - from,
{
    if from < bytes.len() && bytes[from] != 10u8 {
        lemma_newline_at(bytes, from + 1);
    }
}

/// The records of the journal bytes from `from` on, and how they end.
pub open spec fn frames_from(bytes: Seq<u8>, from: int) -> (Seq<JournalFrameView>, FrameEnd)
    decreases bytes.len() - from,
{
    if from < 0 || from >= bytes.len() {
        (Seq::empty(), FrameEnd::Complete)
    } else {
        let newline = newline_at(bytes, from);
        if newline < 0 {
            (Seq::empty(), FrameEnd::TornTail)
        } else if newline == from {
            (Seq::empty(), FrameEnd::EmptyRecord { offset: from as usize })
        } else {
            proof {
                lemma_newline_at(bytes, from);
            }
            let (rest, end) = frames_from(bytes, newline + 1);
            (seq![JournalFrameView { start: from as nat, end: newline as nat }] + rest, end)
        }
    }
}

/// Split journal bytes into their newline-terminated records. Framing
/// stops at an empty record or at an unterminated tail.
#[verifier::loop_isolation(false)]
pub fn frame_journal(bytes: &Vec<u8>) -> (frames: JournalFrames)
    ensures
        views(frames.records@) == frames_from(bytes@, 0).0,
        frames.end == frames_from(bytes@, 0).1,
{
    let mut records: Vec<JournalFrame> = Vec::new();
    let mut position: usize = 0;
    let mut end = FrameEnd::Complete;
    let mut done = false;
    while !done && position < bytes.len()
        invariant
            position <= bytes.len(),
            !done ==> frames_from(bytes@, 0) == (views(records@) + frames_from(bytes@, position as int).0, frames_from(
                bytes@,
                position as int,
            ).1),
            done ==> frames_from(bytes@, 0) == (views(records@), end),
            !done ==> end == FrameEnd::Complete,
        decreases bytes.len() - position, if done { 0int } else { 1int },
    {
        let mut cursor = position;
        while cursor < bytes.len() && bytes[cursor] != 10u8
            invariant
                position <= cursor <= bytes.len(),
                forall|k: int| position <= k < cursor ==> bytes@[k] != 10u8,
            decreases bytes.len() - cursor,
        {
            cursor += 1;
        }
        proof {
            lemma_newline_at(bytes@, position as int);
        }
        if cursor == bytes.len() {
            assert(newline_at(bytes@, position as int) == -1);
            end = FrameEnd::TornTail;
            done = true;
            assert(views(records@) + Seq::<JournalFrameView>::empty() =~= views(records@));
        } else if cursor == position {
            end = FrameEnd::EmptyRecord { offset: position };
            done = true;
            assert(views(records@) + Seq::<JournalFrameView>::empty() =~= views(records@));
        } else {
            assert(newline_at(bytes@, position as int) == cursor);
            let ghost prior = views(records@);
            records.push(JournalFrame { start: position, end: cursor });
            assert(views(records@) =~= prior.push(JournalFrameView { start: position as nat, end: cursor as nat }));
            assert(prior + frames_from(bytes@, position as int).0 =~= views(records@) + frames_from(bytes@, cursor as int + 1).0);
            position = cursor + 1;
        }
    }
    if !done {
        assert(views(records@) + Seq::<JournalFrameView>::empty() =~= views(records@));
    }
    JournalFrames { records, end }
}

/// What decoding one framed record yielded.
pub enum JournalLine {
    /// The record decoded into an envelope.
    Decoded(JournalEnvelope),
    /// The record did not decode; its schema version, when that much was
    /// readable, and the decoder's message.
    Undecodable { schema_version: Option<u32>, error: String },
}

/// The mathematical value of a [`JournalLine`].
pub enum JournalLineView {
    Decoded(JournalEnvelopeView),
    Undecodable { schema_version: Option<u32>, error: Seq<char> },
}

impl View for JournalLine {
    type V = JournalLineView;

    open spec fn view(&self) -> JournalLineView {
        match self {
            JournalLine::Decoded(envelope) => JournalLineView::Decoded(envelope@),
            JournalLine::Undecodable { schema_version, error } => JournalLineView::Undecodable {
                schema_version: *schema_version,
                error: error@,
            },
        }
    }
}

/// One framed and decoded journal record, with the byte offset it starts at.
pub struct JournalRecord {
    pub offset: usize,
    pub line: JournalLine,
}

/// The mathematical value of a [`JournalRecord`].
pub struct JournalRecordView {
    pub offset: usize,
    pub line: JournalLineView,
}

impl View for JournalRecord {
    type V = JournalRecordView;

    open spec fn view(&self) -> JournalRecordView {
        JournalRecordView { offset: self.offset, line: self.line@ }
    }
}

/// How far a replay got: the state, the next expected sequence, and the
/// corruption that stopped it, if any.
pub struct ReplayProgress {
    pub state: DurableStateView,
    pub expected: u64,
    pub corruption: Option<JournalCorruptionView>,
}

/// The state after a batch of replayed deltas, each validated against the
/// state before it, or the reason the first invalid one fails.
pub open spec fn batch_outcome(state: DurableStateView, deltas: Seq<DurableDeltaView>) -> Result<DurableStateView, &'static str>
    decreases deltas.len(),
{
    if deltas.len() == 0 {
        Ok(state)
    } else {
        match batch_outcome(state, deltas.drop_last()) {
            Err(reason) => Err(reason),
            Ok(before) => match replay_validation(before, deltas.last()) {
                Err(reason) => Err(reason),
                Ok(_) => Ok(folded(before, deltas.last())),
            },
        }
    }
}

/// A corruption at `offset`.
pub open spec fn corruption_at(offset: usize, reason: Seq<char>) -> JournalCorruptionView {
    JournalCorruptionView { offset: offset as u64, reason }
}

/// The reason an unsupported schema stops a replay.
pub open spec fn unsupported_schema(version: u32) -> Seq<char> {
    "unsupported journal schema "@ + decimal(version as nat)
}

/// Replay progress after one more record. Once corrupt, nothing changes;
/// otherwise the record must carry the supported schema, the expected
/// sequence and a non-empty batch of valid transitions.
pub open spec fn record_step(progress: ReplayProgress, record: JournalRecordView) -> ReplayProgress {
    if progress.corruption is Some {
        progress
    } else {
        let stop = |reason: Seq<char>| ReplayProgress { corruption: Some(corruption_at(record.offset, reason)), ..progress };
        match record.line {
            JournalLineView::Undecodable { schema_version, error } => match schema_version {
                Some(version) if version != JOURNAL_SCHEMA_VERSION => stop(unsupported_schema(version)),
                _ => stop("invalid journal record: "@ + error),
            },
            JournalLineView::Decoded(envelope) => {
                if envelope.schema_version != JOURNAL_SCHEMA_VERSION {
                    stop(unsupported_schema(envelope.schema_version))
                } else if envelope.sequence.0 != progress.expected {
                    stop(
                        "expected journal sequence "@ + decimal(progress.expected as nat) + ", found "@ + decimal(
                            envelope.sequence.0 as nat,
                        ),
                    )
                } else if envelope.deltas.len() == 0 {
                    stop("empty journal batch"@)
                } else {
                    match batch_outcome(progress.state, envelope.deltas) {
                        Err(reason) => stop("invalid durable transition: "@ + reason@),
                        Ok(state) => if progress.expected == u64::MAX {
                            ReplayProgress {
                                state,
                                expected: progress.expected,
                                corruption: Some(corruption_at(record.offset, "journal sequence overflow"@)),
                            }
                        } else {
                            ReplayProgress { state, expected: (progress.expected + 1) as u64, corruption: None }
                        },
                    }
                }
            },
        }
    }
}

/// Replay progress after the records, in order, from an empty state.
pub open spec fn replay_progress(records: Seq<JournalRecordView>) -> ReplayProgress
    decreases records.len(),
{
    if records.len() == 0 {
        ReplayProgress { state: empty_durable(), expected: 0, corruption: None }
    } else {
        record_step(replay_progress(records.drop_last()), records.last())
    }
}

/// The replay of a framed journal: the records in order, then how the
/// bytes ended: an empty record is corruption, a torn tail is ignored.
pub open spec fn journal_replay(records: Seq<JournalRecordView>, end: FrameEnd) -> JournalReplayView {
    let progress = replay_progress(records);
    let corruption = if progress.corruption is Some {
        progress.corruption
    } else if let FrameEnd::EmptyRecord { offset } = end {
        Some(corruption_at(offset, "empty journal record"@))
    } else {
        None
    };
    JournalReplayView {
        state: progress.state,
        next_sequence: JournalSequence(progress.expected),
        corruption,
        ignored_torn_tail: progress.corruption is None && end == FrameEnd::TornTail,
    }
}

fn corruption(offset: usize, reason: String) -> (found: JournalCorruption)
    ensures
        found@ == corruption_at(offset, reason@),
{
    JournalCorruption { offset: offset as u64, reason }
}

/// Apply one batch to a copy of the state, validating every delta first.
#[verifier::loop_isolation(false)]
fn replay_batch(state: &DurableState, deltas: &Vec<DurableDelta>) -> (result: Result<DurableState, &'static str>)
    ensures
        match result {
            Ok(after) => batch_outcome(state@, views(deltas@)) == Ok::<DurableStateView, &'static str>(after@),
            Err(reason) => batch_outcome(state@, views(deltas@)) == Err::<DurableStateView, &'static str>(reason),
        },
{
    let ghost batch = views(deltas@);
    let mut candidate = state.duplicate();
    let mut index: usize = 0;
    while index < deltas.len()
        invariant
            index <= deltas.len(),
            batch == views(deltas@),
            batch_outcome(state@, batch.subrange(0, index as int)) == Ok::<DurableStateView, &'static str>(candidate@),
        decreases deltas.len() - index,
    {
        assert(batch.subrange(0, index as int + 1).drop_last() =~= batch.subrange(0, index as int));
        assert(batch[index as int] == deltas@[index as int]@);
        if let Err(reason) = validate_replayed_delta(&candidate, &deltas[index]) {
            proof {
                lemma_batch_error_persists(state@, batch, index as int + 1);
            }
            return Err(reason);
        }
        fold(&mut candidate, &deltas[index]);
        index += 1;
    }
    assert(batch.subrange(0, batch.len() as int) =~= batch);
    Ok(candidate)
}

/// Once a prefix of a batch fails, the whole batch fails the same way.
pub proof fn lemma_batch_error_persists(state: DurableStateView, deltas: Seq<DurableDeltaView>, end: int)
    requires
        0 < end <= deltas.len(),
        batch_outcome(state, deltas.subrange(0, end)) is Err,
    ensures
        batch_outcome(state, deltas) == batch_outcome(state, deltas.subrange(0, end)),
    decreases deltas.len() - end,
{
    if end == deltas.len() {
        assert(deltas.subrange(0, end) =~= deltas);
    } else {
        assert(deltas.subrange(0, end + 1).drop_last() =~= deltas.subrange(0, end));
        lemma_batch_error_persists(state, deltas, end + 1);
    }
}

/// Replay decoded journal records over an empty state. Replay stops at the
/// first corrupt record, keeping the state of the records before it.
#[verifier::loop_isolation(false)]
pub fn replay_records(records: Vec<JournalRecord>, end: FrameEnd) -> (replayed: JournalReplay)
    ensures
        replayed@ == journal_replay(views(records@), end),
{
    let ghost all = views(records@);
    let mut state = DurableState::default();
    let mut expected: u64 = 0;
    let mut found: Option<JournalCorruption> = None;
    let mut index: usize = 0;
    while index < records.len()
        invariant
            index <= records.len(),
            all == views(records@),
            replay_progress(all.subrange(0, index as int)) == (ReplayProgress {
                state: state@,
                expected,
                corruption: match found {
                    Some(c) => Some(c@),
                    None => None,
                },
            }),
        decreases records.len() - index,
    {
        assert(all.subrange(0, index as int + 1).drop_last() =~= all.subrange(0, index as int));
        assert(all[index as int] == records@[index as int]@);
        if found.is_some() {
            index += 1;
            continue;
        }
        let record = &records[index];
        let offset = record.offset;
        match &record.line {
            JournalLine::Undecodable { schema_version, error } => {
                let unsupported = match schema_version {
                    Some(version) => *version != JOURNAL_SCHEMA_VERSION,
                    None => false,
                };
                if unsupported {
                    let version = match schema_version {
                        Some(version) => *version,
                        None => 0,
                    };
                    found = Some(corruption(offset, String::from_str("unsupported journal schema ").concat(decimal_text(version as u64).as_str())));
                } else {
                    found = Some(corruption(offset, String::from_str("invalid journal record: ").concat(error.as_str())));
                }
            },
            JournalLine::Decoded(envelope) => {
                if envelope.schema_version != JOURNAL_SCHEMA_VERSION {
                    found = Some(corruption(offset, String::from_str("unsupported journal schema ").concat(decimal_text(envelope.schema_version as u64).as_str())));
                } else if envelope.sequence.0 != expected {
                    let reason = String::from_str("expected journal sequence ").concat(decimal_text(expected).as_str()).concat(", found ").concat(
                        decimal_text(envelope.sequence.0).as_str(),
                    );
                    found = Some(corruption(offset, reason));
                } else if envelope.deltas.len() == 0 {
                    found = Some(corruption(offset, String::from_str("empty journal batch")));
                } else {
                    match replay_batch(&state, &envelope.deltas) {
                        Err(reason) => {
                            found = Some(corruption(offset, String::from_str("invalid durable transition: ").concat(reason)));
                        },
                        Ok(after) => {
                            state = after;
                            if expected == u64::MAX {
                                found = Some(corruption(offset, String::from_str("journal sequence overflow")));
                            } else {
                                expected = expected + 1;
                            }
                        },
                    }
                }
            },
        }
        index += 1;
    }
    assert(all.subrange(0, all.len() as int) =~= all);
    let ignored_torn_tail = found.is_none() && end == FrameEnd::TornTail;
    if found.is_none() {
        if let FrameEnd::EmptyRecord { offset } = end {
            found = Some(corruption(offset, String::from_str("empty journal record")));
        }
    }
    JournalReplay { state, next_sequence: JournalSequence(expected), corruption: found, ignored_torn_tail }
}

/// The deltas a record carries.
pub open spec fn record_deltas(record: JournalRecordView) -> Seq<DurableDeltaView> {
    match record.line {
        JournalLineView::Decoded(envelope) => envelope.deltas,
        JournalLineView::Undecodable { .. } => Seq::empty(),
    }
}

/// Every delta of the records, in journal order.
pub open spec fn journaled_deltas(records: Seq<JournalRecordView>) -> Seq<DurableDeltaView>
    decreases records.len(),
{
    if records.len() == 0 {
        Seq::empty()
    } else {
        journaled_deltas(records.drop_last()) + record_deltas(records.last())
    }
}

/// A record that decoded to a non-empty batch of the supported schema
/// with sequence `sequence`.
pub open spec fn well_formed_record(record: JournalRecordView, sequence: int) -> bool {
    match record.line {
        JournalLineView::Decoded(envelope) => {
            &&& envelope.schema_version == JOURNAL_SCHEMA_VERSION
            &&& envelope.sequence.0 == sequence
            &&& envelope.deltas.len() > 0
        },
        JournalLineView::Undecodable { .. } => false,
    }
}

/// Whether every record is well formed, in sequence from zero, and each
/// batch is a valid transition of the state the earlier records built.
pub open spec fn valid_journal(records: Seq<JournalRecordView>) -> bool {
    forall|k: int|
        0 <= k < records.len() ==> {
            &&& well_formed_record(#[trigger] records[k], k)
            &&& batch_outcome(
                durable_after(empty_durable(), journaled_deltas(records.subrange(0, k))),
                record_deltas(records[k]),
            ) is Ok
        }
}

/// A valid batch folds exactly its deltas.
pub proof fn lemma_valid_batch_folds(state: DurableStateView, deltas: Seq<DurableDeltaView>)
    requires
        batch_outcome(state, deltas) is Ok,
    ensures
        batch_outcome(state, deltas) == Ok::<DurableStateView, &'static str>(durable_after(state, deltas)),
    decreases deltas.len(),
{
    if deltas.len() > 0 {
        lemma_valid_batch_folds(state, deltas.drop_last());
    }
}

/// Folding two runs of deltas is folding the first, then the second.
pub proof fn lemma_durable_after_concat(state: DurableStateView, first: Seq<DurableDeltaView>, second: Seq<DurableDeltaView>)
    ensures
        durable_after(state, first + second) == durable_after(durable_after(state, first), second),
    decreases second.len(),
{
    if second.len() == 0 {
        assert(first + second =~= first);
    } else {
        assert((first + second).drop_last() =~= first + second.drop_last());
        lemma_durable_after_concat(state, first, second.drop_last());
    }
}

/// Replaying a valid journal rebuilds exactly the durable state the live
/// fold of its deltas produces, expects the next sequence, and reports no
/// corruption.
pub proof fn lemma_replay_equals_live_fold(records: Seq<JournalRecordView>)
    requires
        valid_journal(records),
        records.len() < u64::MAX,
    ensures
        journal_replay(records, FrameEnd::Complete) == (JournalReplayView {
            state: durable_after(empty_durable(), journaled_deltas(records)),
            next_sequence: JournalSequence(records.len() as u64),
            corruption: None,
            ignored_torn_tail: false,
        }),
{
    lemma_replay_progress(records);
}

/// The progress of a valid journal.
pub proof fn lemma_replay_progress(records: Seq<JournalRecordView>)
    requires
        valid_journal(records),
        records.len() < u64::MAX,
    ensures
        replay_progress(records) == (ReplayProgress {
            state: durable_after(empty_durable(), journaled_deltas(records)),
            expected: records.len() as u64,
            corruption: None,
        }),
    decreases records.len(),
{
    if records.len() > 0 {
        let earlier = records.drop_last();
        assert forall|k: int| 0 <= k < earlier.len() implies {
            &&& well_formed_record(#[trigger] earlier[k], k)
            &&& batch_outcome(
                durable_after(empty_durable(), journaled_deltas(earlier.subrange(0, k))),
                record_deltas(earlier[k]),
            ) is Ok
        } by {
            assert(earlier[k] == records[k]);
            assert(earlier.subrange(0, k) =~= records.subrange(0, k));
        }
        lemma_replay_progress(earlier);
        let last = records.len() - 1;
        assert(records.subrange(0, last) =~= earlier);
        assert(well_formed_record(records[last], last));
        let before = durable_after(empty_durable(), journaled_deltas(earlier));
        lemma_valid_batch_folds(before, record_deltas(records[last]));
        lemma_durable_after_concat(empty_durable(), journaled_deltas(earlier), record_deltas(records[last]));
    }
}

} // verus!
