//! A prepared claim replays as it was applied: the observation, the import
//! adoptions and the prepared job it journals pass replay validation in
//! order, and the job action replay recomputes against the record as it
//! then stands is the one the claim chose.

use vstd::prelude::*;

use crate::history::{import_adoptions, last_adopted_verdict, parked_resolutions, resolution_delta};
use crate::journal::{batch_outcome, observation_incomplete, replay_validation, ItemQueryView};
use crate::lookup::{first_index, first_match, keyed, lemma_first_index, lemma_first_index_is, lookup, unkeyed, without_key};
use crate::policy::{is_highest_answering, is_least_reaching, job_action, selected_analysis, verdict_skip};
use crate::reducer::command_outcome;
use crate::state::{fresh_record, has_id, observed, run_of};
use crate::worker_commands::{observation_changes, observed_key};
use crate::{
    AnalysisIntent, AppStateView, CommandView, ContentKeyView, DurableDeltaView, DurableStateView,
    ExecutionSettingsView, FileRecordView, ImportPathView, MediaObservationView, Operation,
    ParkedRecordView, ParkedResolutionView, VerdictView, VideoMetaView, WorkerCommandView,
};

verus! {

/// The value under `key` after one more entry: the earlier one, else the
/// new entry's when it carries the key.
proof fn lemma_lookup_push<K, V>(items: Seq<(K, V)>, entry: (K, V), key: K)
    ensures
        lookup(items.push(entry), key) == if lookup(items, key) is Some {
            lookup(items, key)
        } else if entry.0 == key {
            Some(entry.1)
        } else {
            None::<V>
        },
{
    assert(items.push(entry).drop_last() =~= items);
    lemma_first_index(items, keyed(key));
    lemma_first_index(items.push(entry), keyed(key));
    let index = first_index(items, keyed(key));
    if index >= 0 {
        assert(items.push(entry)[index] == items[index]);
    }
}

/// Dropping the entries of one key leaves the values of every other key.
proof fn lemma_lookup_without_key<K, V>(items: Seq<(K, V)>, dropped: K, key: K)
    requires
        dropped != key,
    ensures
        lookup(without_key(items, dropped), key) == lookup(items, key),
    decreases items.len(),
{
    if items.len() > 0 {
        let shorter = items.drop_last();
        let last = items.last();
        lemma_lookup_without_key(shorter, dropped, key);
        assert(shorter.push(last) =~= items);
        shorter.lemma_filter_push(last, unkeyed(dropped));
        lemma_lookup_push(shorter, last, key);
        if unkeyed(dropped)(last) {
            lemma_lookup_push(without_key(shorter, dropped), last, key);
        }
    }
}

/// Replacing the entry found under `key` keeps its key first, so the key
/// then reads the new value.
proof fn lemma_lookup_update<K, V>(items: Seq<(K, V)>, key: K, value: V)
    requires
        first_index(items, keyed(key)) >= 0,
    ensures
        lookup(items.update(first_index(items, keyed(key)), (key, value)), key) == Some(value),
{
    lemma_first_index(items, keyed(key));
    let index = first_index(items, keyed(key));
    let after = items.update(index, (key, value));
    assert forall|k: int| 0 <= k < index implies !keyed(key)(#[trigger] after[k]) by {
        assert(after[k] == items[k]);
        assert(!keyed(key)(items[k]));
    }
    lemma_first_index_is(after, keyed(key), index);
}

/// Observing a file leaves its content record under the observed key with
/// the observed media facts, its analyses and its verdict.
proof fn lemma_observed_record(durable: DurableStateView, observation: MediaObservationView)
    ensures
        lookup(observed(durable, observation).records, observation.binding.content_key) == Some(
            match lookup(durable.records, observation.binding.content_key) {
                Some(record) => FileRecordView { metadata: observation.metadata, ..record },
                None => fresh_record(observation.metadata),
            },
        ),
{
    let key = observation.binding.content_key;
    let records = durable.records;
    lemma_first_index(records, keyed(key));
    let index = first_index(records, keyed(key));
    if index >= 0 {
        let updated = (records[index].0, FileRecordView { metadata: observation.metadata, ..records[index].1 });
        assert(records[index].0 == key);
        lemma_lookup_update(records, key, updated.1);
    } else {
        lemma_lookup_push(records, (key, fresh_record(observation.metadata)), key);
    }
}

/// The parked records a claim names are those stored under their paths,
/// among the claim's paths; unless a parked path is named twice, no path
/// comes twice.
proof fn lemma_parked_resolutions(
    parked: Seq<(ImportPathView, ParkedRecordView)>,
    observation: MediaObservationView,
    paths: Seq<ImportPathView>,
)
    ensures
        forall|i: int|
            0 <= i < parked_resolutions(parked, observation, paths).len() ==> {
                &&& lookup(parked, (#[trigger] parked_resolutions(parked, observation, paths)[i]).0) == Some(
                    parked_resolutions(parked, observation, paths)[i].1,
                )
                &&& paths.contains(parked_resolutions(parked, observation, paths)[i].0)
            },
        !crate::durability::repeats_parked_path(parked, paths) ==> forall|i: int, j: int|
            0 <= i < j < parked_resolutions(parked, observation, paths).len() ==> (#[trigger] parked_resolutions(
                parked,
                observation,
                paths,
            )[i]).0 != (#[trigger] parked_resolutions(parked, observation, paths)[j]).0,
    decreases paths.len(),
{
    if paths.len() > 0 {
        let shorter = paths.drop_last();
        let last = paths.last();
        lemma_parked_resolutions(parked, observation, shorter);
        let earlier = parked_resolutions(parked, observation, shorter);
        let all = parked_resolutions(parked, observation, paths);
        assert forall|i: int| 0 <= i < earlier.len() implies paths.contains(#[trigger] earlier[i].0) by {
            assert(shorter.contains(earlier[i].0));
            let m = choose|m: int| 0 <= m < shorter.len() && shorter[m] == earlier[i].0;
            assert(paths[m] == shorter[m]);
        }
        if !crate::durability::repeats_parked_path(parked, paths) {
            assert(!crate::durability::repeats_parked_path(parked, shorter)) by {
                if crate::durability::repeats_parked_path(parked, shorter) {
                    let (i, j) = choose|i: int, j: int|
                        0 <= i < j < shorter.len() && #[trigger] shorter[i] == #[trigger] shorter[j] && lookup(
                            parked,
                            shorter[i],
                        ) is Some;
                    assert(paths[i] == shorter[i] && paths[j] == shorter[j]);
                }
            }
            if lookup(parked, last) is Some {
                assert forall|i: int| 0 <= i < earlier.len() implies (#[trigger] earlier[i]).0 != last by {
                    let m = choose|m: int| 0 <= m < shorter.len() && shorter[m] == earlier[i].0;
                    assert(paths[m] == shorter[m]);
                    if earlier[i].0 == last {
                        assert(paths[m] == paths[paths.len() - 1]);
                    }
                }
            }
        }
    }
}

/// The journal deltas of resolved parked records.
pub open spec fn adoption_deltas(
    entries: Seq<(ImportPathView, ParkedRecordView, ParkedResolutionView)>,
    key: ContentKeyView,
    selected_path: Option<ImportPathView>,
    stands: bool,
) -> Seq<DurableDeltaView> {
    entries.map_values(
        |entry: (ImportPathView, ParkedRecordView, ParkedResolutionView)| resolution_delta(entry, key, selected_path, stands),
    )
}

/// Adopting and retiring parked records, each still parked under a path of
/// its own, passes replay validation while the content record exists; it
/// leaves the queue, the runs, the media facts and the analyses alone, the
/// verdict becoming the last adopted one, and every other path parked as
/// it was.
proof fn lemma_adoptions_pass(
    durable: DurableStateView,
    entries: Seq<(ImportPathView, ParkedRecordView, ParkedResolutionView)>,
    key: ContentKeyView,
    selected_path: Option<ImportPathView>,
    stands: bool,
)
    requires
        lookup(durable.records, key) is Some,
        forall|i: int| 0 <= i < entries.len() ==> lookup(durable.parked, (#[trigger] entries[i]).0) == Some(entries[i].1),
        forall|i: int, j: int| 0 <= i < j < entries.len() ==> (#[trigger] entries[i]).0 != (#[trigger] entries[j]).0,
    ensures
        batch_outcome(durable, adoption_deltas(entries, key, selected_path, stands)) is Ok,
        ({
            let after = batch_outcome(durable, adoption_deltas(entries, key, selected_path, stands))->Ok_0;
            let before = lookup(durable.records, key)->0;
            &&& after.queue == durable.queue
            &&& after.conversion_runs == durable.conversion_runs
            &&& lookup(after.records, key) is Some
            &&& lookup(after.records, key)->0.metadata == before.metadata
            &&& lookup(after.records, key)->0.analyses == before.analyses
            &&& lookup(after.records, key)->0.verdict == match last_adopted_verdict(
                adoption_deltas(entries, key, selected_path, stands),
            ) {
                Some(verdict) => Some(verdict),
                None => before.verdict,
            }
            &&& forall|path: ImportPathView|
                (forall|i: int| 0 <= i < entries.len() ==> (#[trigger] entries[i]).0 != path) ==> lookup(
                    after.parked,
                    path,
                ) == lookup(durable.parked, path)
        }),
    decreases entries.len(),
{
    let deltas = adoption_deltas(entries, key, selected_path, stands);
    if entries.len() == 0 {
        assert(deltas.len() == 0);
    } else {
        let earlier = entries.drop_last();
        let last = entries.last();
        assert forall|i: int| 0 <= i < earlier.len() implies lookup(durable.parked, (#[trigger] earlier[i]).0) == Some(
            earlier[i].1,
        ) by {
            assert(earlier[i] == entries[i]);
        }
        assert forall|i: int, j: int| 0 <= i < j < earlier.len() implies (#[trigger] earlier[i]).0 != (
        #[trigger] earlier[j]).0 by {
            assert(earlier[i] == entries[i] && earlier[j] == entries[j]);
        }
        lemma_adoptions_pass(durable, earlier, key, selected_path, stands);
        assert(deltas.drop_last() =~= adoption_deltas(earlier, key, selected_path, stands));
        let middle = batch_outcome(durable, adoption_deltas(earlier, key, selected_path, stands))->Ok_0;
        assert forall|i: int| 0 <= i < earlier.len() implies (#[trigger] earlier[i]).0 != last.0 by {
            assert(earlier[i] == entries[i]);
            assert(entries[entries.len() - 1] == last);
        }
        assert(lookup(durable.parked, entries[entries.len() - 1].0) == Some(entries[entries.len() - 1].1));
        assert(lookup(middle.parked, last.0) == Some(last.1));
        let delta = deltas.last();
        assert(delta == resolution_delta(last, key, selected_path, stands));
        assert(replay_validation(middle, delta) is Ok);
        let after = crate::state::folded(middle, delta);
        assert(batch_outcome(durable, deltas) == Ok::<DurableStateView, &'static str>(after));
        let base = lookup(middle.records, key)->0;
        lemma_first_index(middle.records, keyed(key));
        match delta {
            DurableDeltaView::ParkedAdopted { import_path, content_key, imported, verdict } => {
                let position = first_index(middle.records, keyed(key));
                assert(middle.records[position].0 == key);
                let record = middle.records[position].1;
                let candidate = crate::ImportedProvenanceView { import_path, record: imported };
                let provenance = match record.imported {
                    Some(current) => if candidate.outranks(current) {
                        Some(candidate)
                    } else {
                        record.imported
                    },
                    None => Some(candidate),
                };
                let decided = match verdict {
                    Some(adopted_verdict) => Some(adopted_verdict),
                    None => record.verdict,
                };
                lemma_lookup_update(
                    middle.records,
                    key,
                    FileRecordView { imported: provenance, verdict: decided, ..record },
                );
                assert forall|path: ImportPathView|
                    (forall|i: int| 0 <= i < entries.len() ==> (#[trigger] entries[i]).0 != path) implies lookup(
                    after.parked,
                    path,
                ) == lookup(durable.parked, path) by {
                    assert(entries[entries.len() - 1].0 != path);
                    assert forall|i: int| 0 <= i < earlier.len() implies (#[trigger] earlier[i]).0 != path by {
                        assert(earlier[i] == entries[i]);
                    }
                    lemma_lookup_without_key(middle.parked, import_path, path);
                }
            },
            DurableDeltaView::ParkedRetired { import_path } => {
                assert forall|path: ImportPathView|
                    (forall|i: int| 0 <= i < entries.len() ==> (#[trigger] entries[i]).0 != path) implies lookup(
                    after.parked,
                    path,
                ) == lookup(durable.parked, path) by {
                    assert(entries[entries.len() - 1].0 != path);
                    assert forall|i: int| 0 <= i < earlier.len() implies (#[trigger] earlier[i]).0 != path by {
                        assert(earlier[i] == entries[i]);
                    }
                    lemma_lookup_without_key(middle.parked, import_path, path);
                }
            },
            _ => {},
        }
    }
}

/// The job action reads of a record only whether there is one, its
/// analyses and its verdict; a record without analyses or verdict acts as
/// none.
proof fn lemma_job_action_reads_facts(
    metadata: Option<VideoMetaView>,
    first: Option<FileRecordView>,
    second: Option<FileRecordView>,
    operation: Operation,
    intent: AnalysisIntent,
    execution: ExecutionSettingsView,
)
    requires
        (first is Some && second is Some && first->0.analyses == second->0.analyses && first->0.verdict
            == second->0.verdict) || (first is None && second is Some && second->0.analyses.len() == 0
            && second->0.verdict is None),
    ensures
        job_action(metadata, first, operation, intent, execution) == job_action(
            metadata,
            second,
            operation,
            intent,
            execution,
        ),
{
    if first is None {
        let analyses = second->0.analyses;
        assert(!exists|index: int| is_least_reaching(analyses, execution, index));
        assert(!exists|index: int| is_highest_answering(analyses, execution, index));
        assert(selected_analysis(analyses, execution) is None);
        assert(verdict_skip(second, operation, intent, execution) is None);
    } else {
        assert(verdict_skip(first, operation, intent, execution) == verdict_skip(second, operation, intent, execution));
    }
}

/// A prepared claim journals an observation, the adoptions and the job;
/// unless it reuses a run id, journals an observation lacking a media fact
/// or names a parked import path twice, they pass replay validation in
/// order.
pub proof fn lemma_preparation_passes_replay(state: AppStateView, command: CommandView)
    requires
        command is Worker,
        command->Worker_0 is PrepareReserved,
        !crate::durability::replay_refuses(state, command),
    ensures
        batch_outcome(state.durable, command_outcome(state, command).durable) is Ok,
{
    if let CommandView::Worker(WorkerCommandView::PrepareReserved { item_id, claim_id, run_id, observation, import_paths, execution }) = command {
        let outcome = command_outcome(state, command);
        if outcome.durable.len() > 0 {
            let durable = state.durable;
            let queue = durable.queue;
            lemma_first_index(queue, has_id(item_id));
            let index = first_index(queue, has_id(item_id));
            let item = queue[index];
            let claimed = crate::worker_commands::claim_execution(execution, item.overwrite, state.settings);
            let adoptions = crate::worker_commands::claim_adoptions(state, observation, import_paths);
            let action = crate::worker_commands::claim_action(state, observation, import_paths, item, claimed);
            let spec = crate::JobSpecView {
                item_id,
                claim_id,
                run_id,
                input: item.input,
                content_key: observed_key(observation),
                operation: item.operation,
                intent: item.intent,
                output_target: item.output_target,
                execution: claimed,
                action,
            };
            let observed_deltas = match observation {
                Some(seen) => if observation_changes(durable, seen) {
                    seq![DurableDeltaView::MediaObserved { observation: seen }]
                } else {
                    Seq::<DurableDeltaView>::empty()
                },
                None => Seq::<DurableDeltaView>::empty(),
            };
            let prepared = seq![DurableDeltaView::ItemPrepared { spec }];
            assert(outcome.durable == observed_deltas + adoptions.deltas + prepared);
            crate::durability::lemma_batch_concat(durable, observed_deltas + adoptions.deltas, prepared);
            crate::durability::lemma_batch_concat(durable, observed_deltas, adoptions.deltas);
            assert(crate::journal::answers(ItemQueryView::Preparable(spec), queue[index]));
            match observation {
                None => {
                    assert(observed_deltas.len() == 0);
                    assert(batch_outcome(durable, observed_deltas) == Ok::<DurableStateView, &'static str>(durable));
                    assert(adoptions.deltas.len() == 0);
                    assert(batch_outcome(durable, adoptions.deltas) == Ok::<DurableStateView, &'static str>(durable));
                    assert(replay_validation(durable, prepared[0]) is Ok);
                    crate::durability::lemma_single_delta_passes(durable, prepared);
                },
                Some(seen) => {
                    let key = seen.binding.content_key;
                    let known = lookup(durable.records, key);
                    let first = if observation_changes(durable, seen) {
                        crate::durability::lemma_single_delta_passes(durable, observed_deltas);
                        assert(observed_deltas.drop_last() =~= Seq::<DurableDeltaView>::empty());
                        lemma_observed_record(durable, seen);
                        observed(durable, seen)
                    } else {
                        assert(batch_outcome(durable, observed_deltas) == Ok::<DurableStateView, &'static str>(durable));
                        durable
                    };
                    assert(batch_outcome(durable, observed_deltas) == Ok::<DurableStateView, &'static str>(first));
                    let base = lookup(first.records, key)->0;
                    assert(lookup(first.records, key) is Some);
                    assert(base.metadata == seen.metadata);
                    assert(known is Some ==> base.analyses == known->0.analyses && base.verdict == known->0.verdict);
                    assert(known is None ==> base.analyses.len() == 0 && base.verdict is None);
                    let entries = parked_resolutions(durable.parked, seen, import_paths);
                    lemma_parked_resolutions(durable.parked, seen, import_paths);
                    let initial = match known {
                        Some(record) => record.imported,
                        None => None,
                    };
                    let selected = crate::history::selected_import(initial, entries);
                    let selected_path = match selected {
                        Some(provenance) => Some(provenance.import_path),
                        None => None,
                    };
                    let stands = crate::history::native_verdict(known);
                    assert(adoptions.deltas == adoption_deltas(entries, key, selected_path, stands));
                    lemma_adoptions_pass(first, entries, key, selected_path, stands);
                    let second = batch_outcome(first, adoptions.deltas)->Ok_0;
                    let record = lookup(second.records, key)->0;
                    assert(crate::journal::spec_record(second, spec) == Some(record));
                    let verdict = last_adopted_verdict(adoptions.deltas);
                    let effective = match verdict {
                        Some(found) => Some(FileRecordView { verdict: Some(found), ..base }),
                        None => known,
                    };
                    assert(crate::worker_commands::action_record(state, observation, import_paths) == match verdict {
                        Some(found) => match known {
                            Some(existing) => Some(FileRecordView { verdict: Some(found), ..existing }),
                            None => Some(FileRecordView { verdict: Some(found), ..fresh_record(seen.metadata) }),
                        },
                        None => known,
                    });
                    lemma_job_action_reads_facts(
                        Some(seen.metadata),
                        crate::worker_commands::action_record(state, observation, import_paths),
                        Some(record),
                        item.operation,
                        item.intent,
                        claimed,
                    );
                    assert(replay_validation(second, prepared[0]) is Ok);
                    crate::durability::lemma_single_delta_passes(second, prepared);
                },
            }
        }
    }
}

} // verus!
