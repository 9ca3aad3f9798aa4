//! Every conversion run that names a content record names one the durable
//! state holds: a run is recorded only for a known record, and records are
//! never dropped.

use vstd::prelude::*;

use crate::journal::{batch_outcome, replay_validation};
use crate::lookup::{first_index, keyed, lemma_first_index, lookup};
use crate::state::{folded, run_record};
use crate::{ContentKeyView, ConversionRunView, DurableDeltaView, DurableStateView, FileRecordView};

verus! {

/// Whether the run names no content record, or one of `records`.
pub open spec fn names_known_record(records: Seq<(ContentKeyView, FileRecordView)>, run: ConversionRunView) -> bool {
    match run.spec.content_key {
        Some(key) => lookup(records, key) is Some,
        None => true,
    }
}

/// Whether every run of the state names a record the state holds, if any.
pub open spec fn runs_have_records(durable: DurableStateView) -> bool {
    forall|i: int|
        0 <= i < durable.conversion_runs.len() ==> names_known_record(durable.records, #[trigger] durable.conversion_runs[i])
}

/// Whether every key stored in `before` is stored in `after`.
pub open spec fn keeps_keys(before: Seq<(ContentKeyView, FileRecordView)>, after: Seq<(ContentKeyView, FileRecordView)>) -> bool {
    forall|key: ContentKeyView| lookup(before, key) is Some ==> #[trigger] lookup(after, key) is Some
}

/// Entries with the same keys, position by position, store the same keys.
proof fn lemma_same_keys<V>(before: Seq<(ContentKeyView, V)>, after: Seq<(ContentKeyView, V)>, key: ContentKeyView)
    requires
        before.len() == after.len(),
        forall|j: int| 0 <= j < before.len() ==> (#[trigger] before[j]).0 == after[j].0,
    ensures
        first_index(before, keyed(key)) == first_index(after, keyed(key)),
    decreases before.len(),
{
    if before.len() > 0 {
        assert forall|j: int| 0 <= j < before.len() - 1 implies (#[trigger] before.drop_last()[j]).0 == after.drop_last()[j].0 by {
            assert(before.drop_last()[j] == before[j]);
            assert(after.drop_last()[j] == after[j]);
        }
        lemma_same_keys(before.drop_last(), after.drop_last(), key);
        assert(before.last().0 == after.last().0);
    }
}

/// Replacing the value of an entry keeps every key stored.
proof fn lemma_update_keeps_keys(records: Seq<(ContentKeyView, FileRecordView)>, index: int, record: FileRecordView)
    requires
        0 <= index < records.len(),
    ensures
        keeps_keys(records, records.update(index, (records[index].0, record))),
{
    let after = records.update(index, (records[index].0, record));
    assert forall|key: ContentKeyView| lookup(records, key) is Some implies #[trigger] lookup(after, key) is Some by {
        assert forall|j: int| 0 <= j < records.len() implies (#[trigger] records[j]).0 == after[j].0 by {}
        lemma_same_keys(records, after, key);
    }
}

/// Appending an entry keeps every key stored.
proof fn lemma_push_keeps_keys(records: Seq<(ContentKeyView, FileRecordView)>, entry: (ContentKeyView, FileRecordView))
    ensures
        keeps_keys(records, records.push(entry)),
{
    assert forall|key: ContentKeyView| lookup(records, key) is Some implies #[trigger] lookup(records.push(entry), key) is Some by {
        lemma_first_index(records, keyed(key));
        lemma_first_index(records.push(entry), keyed(key));
        let index = first_index(records, keyed(key));
        assert(records.push(entry)[index] == records[index]);
        assert(keyed(key)(records.push(entry)[index]));
    }
}

/// Runs with the same specs over records that keep their keys still name
/// known records.
proof fn lemma_same_specs(before: DurableStateView, after: DurableStateView)
    requires
        runs_have_records(before),
        keeps_keys(before.records, after.records),
        after.conversion_runs.len() == before.conversion_runs.len(),
        forall|i: int| 0 <= i < before.conversion_runs.len() ==> (#[trigger] after.conversion_runs[i]).spec == before.conversion_runs[i].spec,
    ensures
        runs_have_records(after),
{
    assert forall|i: int| 0 <= i < after.conversion_runs.len() implies names_known_record(
        after.records,
        #[trigger] after.conversion_runs[i],
    ) by {
        assert(names_known_record(before.records, before.conversion_runs[i]));
        if let Some(key) = after.conversion_runs[i].spec.content_key {
            assert(lookup(before.records, key) is Some);
            assert(lookup(after.records, key) is Some);
        }
    }
}

/// A delta that passes replay validation keeps every run naming a known
/// record.
pub proof fn lemma_delta_keeps_run_records(durable: DurableStateView, delta: DurableDeltaView)
    requires
        runs_have_records(durable),
        replay_validation(durable, delta) is Ok,
    ensures
        runs_have_records(folded(durable, delta)),
{
    let after = folded(durable, delta);
    let records = durable.records;
    let runs = durable.conversion_runs;
    match delta {
        DurableDeltaView::MediaObserved { observation } => {
            let key = observation.binding.content_key;
            let index = first_index(records, keyed(key));
            lemma_first_index(records, keyed(key));
            if index >= 0 {
                lemma_update_keeps_keys(records, index, FileRecordView { metadata: observation.metadata, ..records[index].1 });
            } else {
                lemma_push_keeps_keys(records, (key, crate::state::fresh_record(observation.metadata)));
            }
            lemma_same_specs(durable, after);
        },
        DurableDeltaView::ItemPrepared { spec } => {
            lemma_first_index(runs, run_record(spec.run_id));
            assert(first_index(runs, run_record(spec.run_id)) == -1);
            assert(after.conversion_runs == runs.push(crate::state::started_run(spec)));
            assert forall|i: int| 0 <= i < after.conversion_runs.len() implies names_known_record(
                after.records,
                #[trigger] after.conversion_runs[i],
            ) by {
                if i < runs.len() {
                    assert(after.conversion_runs[i] == runs[i]);
                }
            }
        },
        DurableDeltaView::ItemRunning { run_id, .. } => {
            lemma_first_index(runs, run_record(run_id));
            assert(keeps_keys(records, after.records));
            lemma_same_specs(durable, after);
        },
        DurableDeltaView::AnalysisRecorded { run_id, result } => {
            lemma_first_index(runs, run_record(run_id));
            let index = first_index(runs, run_record(run_id));
            if index >= 0 {
                if let Some(key) = runs[index].spec.content_key {
                    let position = first_index(records, keyed(key));
                    lemma_first_index(records, keyed(key));
                    if position >= 0 {
                        lemma_update_keeps_keys(
                            records,
                            position,
                            FileRecordView {
                                analyses: crate::lookup::upsert(records[position].1.analyses, crate::media::slot_of(result), result),
                                ..records[position].1
                            },
                        );
                    }
                }
                assert(keeps_keys(records, after.records));
            }
            lemma_same_specs(durable, after);
        },
        DurableDeltaView::ItemFinished { item_id, run_id, outcome, at, phase_spans, .. } => {
            lemma_first_index(runs, run_record(run_id));
            let index = first_index(runs, run_record(run_id));
            if index >= 0 {
                let run = crate::state::finished_run(runs[index], durable.outputs, run_id, outcome, at, phase_spans);
                if let (Some(kind), Some(key)) = (crate::state::decided_kind(run, outcome, phase_spans), run.spec.content_key) {
                    let position = first_index(records, keyed(key));
                    lemma_first_index(records, keyed(key));
                    if position >= 0 {
                        lemma_update_keeps_keys(
                            records,
                            position,
                            FileRecordView {
                                verdict: Some(crate::VerdictView { kind, source_run: Some(run_id), decided_at: at }),
                                ..records[position].1
                            },
                        );
                    }
                }
                assert(keeps_keys(records, after.records));
            }
            lemma_same_specs(durable, after);
        },
        DurableDeltaView::ParkedAdopted { import_path, content_key, imported, verdict } => {
            let position = first_index(records, keyed(content_key));
            lemma_first_index(records, keyed(content_key));
            if position >= 0 {
                let record = records[position].1;
                let candidate = crate::ImportedProvenanceView { import_path, record: imported };
                let provenance = match record.imported {
                    Some(current) => if candidate.outranks(current) {
                        Some(candidate)
                    } else {
                        record.imported
                    },
                    None => Some(candidate),
                };
                let decided = match verdict {
                    Some(adopted_verdict) => Some(adopted_verdict),
                    None => record.verdict,
                };
                lemma_update_keeps_keys(records, position, FileRecordView { imported: provenance, verdict: decided, ..record });
            }
            assert(keeps_keys(records, after.records));
            lemma_same_specs(durable, after);
        },
        _ => {
            assert(after.records == records);
            assert(after.conversion_runs == runs);
        },
    }
}

/// A batch of deltas that passes replay validation keeps every run naming
/// a known record.
pub proof fn lemma_batch_keeps_run_records(durable: DurableStateView, deltas: Seq<DurableDeltaView>)
    requires
        runs_have_records(durable),
        batch_outcome(durable, deltas) is Ok,
    ensures
        runs_have_records(batch_outcome(durable, deltas)->Ok_0),
    decreases deltas.len(),
{
    if deltas.len() > 0 {
        lemma_batch_keeps_run_records(durable, deltas.drop_last());
        let before = batch_outcome(durable, deltas.drop_last())->Ok_0;
        lemma_delta_keeps_run_records(before, deltas.last());
    }
}

} // verus!
