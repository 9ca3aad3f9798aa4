//! Imported history: which parked import records a prepared job adopts or
//! retires, and the content record the job policy must then observe.

use vstd::prelude::*;

use crate::lookup::{entry_views, find_key, first_index, keyed, lookup};
use crate::model::{views, Duplicate, SameView};
use crate::policy::{parked_resolution, resolve_parked};
use crate::state::fresh_record;
use crate::{
    ContentKey, ContentKeyView, DurableDelta, DurableDeltaView, DurableState, FileRecord,
    FileRecordView, ImportPath, ImportPathView, ImportedProvenance, ImportedProvenanceView,
    MediaObservation, MediaObservationView, ParkedRecord, ParkedRecordView, ParkedResolution,
    ParkedResolutionView, Verdict, VerdictView,
};

verus! {

/// The parked-import effects of preparing a job: the deltas to journal and
/// the content record as it will stand once they fold.
pub struct PreparedImportAdoptions {
    pub deltas: Vec<DurableDelta>,
    pub effective_record: Option<FileRecord>,
}

/// The mathematical value of [`PreparedImportAdoptions`].
pub struct PreparedImportAdoptionsView {
    pub deltas: Seq<DurableDeltaView>,
    pub effective_record: Option<FileRecordView>,
}

impl View for PreparedImportAdoptions {
    type V = PreparedImportAdoptionsView;

    open spec fn view(&self) -> PreparedImportAdoptionsView {
        PreparedImportAdoptionsView {
            deltas: views(self.deltas@),
            effective_record: match self.effective_record {
                Some(record) => Some(record@),
                None => None,
            },
        }
    }
}

/// The parked records named by `paths`, in order, each with its resolution
/// against the observation; paths with nothing parked are passed over.
pub open spec fn parked_resolutions(
    parked: Seq<(ImportPathView, ParkedRecordView)>,
    observation: MediaObservationView,
    paths: Seq<ImportPathView>,
) -> Seq<(ImportPathView, ParkedRecordView, ParkedResolutionView)>
    decreases paths.len(),
{
    if paths.len() == 0 {
        Seq::empty()
    } else {
        let earlier = parked_resolutions(parked, observation, paths.drop_last());
        match lookup(parked, paths.last()) {
            Some(record) => earlier.push((paths.last(), record, parked_resolution(record, observation))),
            None => earlier,
        }
    }
}

/// The import provenance the content ends with: the strongest of its
/// current one and every adopted candidate, an earlier one winning ties.
pub open spec fn selected_import(
    initial: Option<ImportedProvenanceView>,
    resolutions: Seq<(ImportPathView, ParkedRecordView, ParkedResolutionView)>,
) -> Option<ImportedProvenanceView>
    decreases resolutions.len(),
{
    if resolutions.len() == 0 {
        initial
    } else {
        let current = selected_import(initial, resolutions.drop_last());
        let (path, record, resolution) = resolutions.last();
        let candidate = ImportedProvenanceView { import_path: path, record };
        if resolution is Adopt && (current is None || candidate.outranks(current->0)) {
            Some(candidate)
        } else {
            current
        }
    }
}

/// The delta one resolution journals: an adoption carries its verdict only
/// when it supplies the selected import and no native verdict stands.
pub open spec fn resolution_delta(
    entry: (ImportPathView, ParkedRecordView, ParkedResolutionView),
    content_key: ContentKeyView,
    selected_path: Option<ImportPathView>,
    native_verdict_stands: bool,
) -> DurableDeltaView {
    let (import_path, imported, resolution) = entry;
    match resolution {
        ParkedResolutionView::Adopt { verdict } => DurableDeltaView::ParkedAdopted {
            import_path,
            content_key,
            imported,
            verdict: if !native_verdict_stands && selected_path == Some(import_path) {
                verdict
            } else {
                None
            },
        },
        ParkedResolutionView::Retire => DurableDeltaView::ParkedRetired { import_path },
    }
}

/// The verdict of the last adoption that carries one.
pub open spec fn last_adopted_verdict(deltas: Seq<DurableDeltaView>) -> Option<VerdictView>
    decreases deltas.len(),
{
    if deltas.len() == 0 {
        None
    } else {
        match deltas.last() {
            DurableDeltaView::ParkedAdopted { verdict: Some(verdict), .. } => Some(verdict),
            _ => last_adopted_verdict(deltas.drop_last()),
        }
    }
}

/// Whether the record carries a verdict a run of this installation decided.
pub open spec fn native_verdict(record: Option<FileRecordView>) -> bool {
    record is Some && record->0.verdict is Some && record->0.verdict->0.source_run is Some
}

/// The effects of preparing a job on the parked imports: without an
/// observation or an adoption key there are none; otherwise every named
/// parked record is adopted or retired, and the effective record carries
/// the last adopted verdict.
pub open spec fn import_adoptions(
    parked: Seq<(ImportPathView, ParkedRecordView)>,
    observation: Option<MediaObservationView>,
    paths: Seq<ImportPathView>,
    adoption_content_key: Option<ContentKeyView>,
    record: Option<FileRecordView>,
) -> PreparedImportAdoptionsView {
    if observation is None || adoption_content_key is None {
        PreparedImportAdoptionsView { deltas: Seq::empty(), effective_record: None }
    } else {
        let observed = observation->0;
        let key = adoption_content_key->0;
        let resolutions = parked_resolutions(parked, observed, paths);
        let initial = match record {
            Some(known) => known.imported,
            None => None,
        };
        let selected = selected_import(initial, resolutions);
        let selected_path = match selected {
            Some(provenance) => Some(provenance.import_path),
            None => None,
        };
        let stands = native_verdict(record);
        let deltas = resolutions.map_values(
            |entry: (ImportPathView, ParkedRecordView, ParkedResolutionView)|
                resolution_delta(entry, key, selected_path, stands),
        );
        let effective_record = match (last_adopted_verdict(deltas), record) {
            (Some(verdict), Some(known)) => Some(FileRecordView { verdict: Some(verdict), ..known }),
            (Some(verdict), None) => if key == observed.binding.content_key {
                Some(FileRecordView { verdict: Some(verdict), ..fresh_record(observed.metadata) })
            } else {
                None
            },
            (None, _) => None,
        };
        PreparedImportAdoptionsView { deltas, effective_record }
    }
}

/// Compute the parked-import effects of preparing a job on the observed
/// file: which parked records are adopted or retired, which adoption
/// supplies the verdict, and the record the job policy must observe.
#[verifier::loop_isolation(false)]
pub fn prepare_import_adoptions(
    durable: &DurableState,
    observation: Option<&MediaObservation>,
    import_paths: &Vec<ImportPath>,
    adoption_content_key: Option<&ContentKey>,
    record: Option<&FileRecord>,
) -> (prepared: PreparedImportAdoptions)
    ensures
        prepared@ == import_adoptions(
            durable@.parked,
            match observation { Some(o) => Some(o@), None => None },
            views(import_paths@),
            match adoption_content_key { Some(k) => Some(k@), None => None },
            match record { Some(r) => Some(r@), None => None },
        ),
{
    let ghost record_view = match record {
        Some(r) => Some(r@),
        None => None,
    };

    let (observation, key) = match (observation, adoption_content_key) {
        (Some(observation), Some(key)) => (observation, key),
        _ => {
            let prepared = PreparedImportAdoptions { deltas: Vec::new(), effective_record: None };
            assert(prepared@.deltas =~= Seq::<DurableDeltaView>::empty());
            return prepared;
        },
    };
    proof {
        assert(durable@.parked =~= entry_views(durable.parked@));
    }
    let ghost parked = durable@.parked;
    let ghost paths = views(import_paths@);
    let native_verdict_stands = match record {
        Some(known) => match &known.verdict {
            Some(existing) => existing.source_run.is_some(),
            None => false,
        },
        None => false,
    };
    let mut resolutions: Vec<(ImportPath, ParkedRecord, ParkedResolution)> = Vec::new();
    let mut index: usize = 0;
    while index < import_paths.len()
        invariant
            index <= import_paths.len(),
            views(resolutions@) == parked_resolutions(parked, observation@, paths.subrange(0, index as int)),
        decreases import_paths.len() - index,
    {
        assert(paths.subrange(0, index as int + 1).drop_last() =~= paths.subrange(0, index as int));
        assert(paths[index as int] == import_paths@[index as int]@);
        if let Some(position) = find_key(&durable.parked, &import_paths[index]) {
            let parked_record = &durable.parked[position].1;
            let resolution = resolve_parked(parked_record, observation);
            let ghost prior = views(resolutions@);
            resolutions.push((import_paths[index].duplicate(), parked_record.duplicate(), resolution));
            assert(views(resolutions@) =~= prior.push(
                (paths[index as int], parked_record@, parked_resolution(parked_record@, observation@)),
            ));
        }
        index += 1;
    }
    assert(paths.subrange(0, paths.len() as int) =~= paths);
    let ghost all = views(resolutions@);
    let mut selected: Option<ImportedProvenance> = match record {
        Some(known) => match &known.imported {
            Some(imported) => Some(imported.duplicate()),
            None => None,
        },
        None => None,
    };
    let ghost initial = match record_view {
        Some(known) => known.imported,
        None => None,
    };
    let mut position: usize = 0;
    while position < resolutions.len()
        invariant
            position <= resolutions.len(),
            all == views(resolutions@),
            match selected {
                Some(s) => selected_import(initial, all.subrange(0, position as int)) == Some(s@),
                None => selected_import(initial, all.subrange(0, position as int)) is None,
            },
        decreases resolutions.len() - position,
    {
        assert(all.subrange(0, position as int + 1).drop_last() =~= all.subrange(0, position as int));
        assert(all[position as int] == resolutions@[position as int]@);
        let adopt = match &resolutions[position].2 {
            ParkedResolution::Adopt { .. } => true,
            ParkedResolution::Retire => false,
        };
        if adopt {
            let candidate = ImportedProvenance {
                import_path: resolutions[position].0.duplicate(),
                record: resolutions[position].1.duplicate(),
            };
            let wins = match &selected {
                Some(current) => candidate.outranks(current),
                None => true,
            };
            if wins {
                selected = Some(candidate);
            }
        }
        position += 1;
    }
    assert(all.subrange(0, all.len() as int) =~= all);
    let selected_path = match &selected {
        Some(provenance) => Some(provenance.import_path.duplicate()),
        None => None,
    };
    let ghost selected_path_view = match &selected_path {
        Some(p) => Some(p@),
        None => None,
    };
    let ghost spec_delta = |entry: (ImportPathView, ParkedRecordView, ParkedResolutionView)|
        resolution_delta(entry, key@, selected_path_view, native_verdict_stands);
    let mut deltas: Vec<DurableDelta> = Vec::new();
    let mut adopted_verdict: Option<Verdict> = None;
    let mut k: usize = 0;
    while k < resolutions.len()
        invariant
            k <= resolutions.len(),
            all == views(resolutions@),
            views(deltas@) == all.subrange(0, k as int).map_values(spec_delta),
            match adopted_verdict {
                Some(v) => last_adopted_verdict(views(deltas@)) == Some(v@),
                None => last_adopted_verdict(views(deltas@)) is None,
            },
        decreases resolutions.len() - k,
    {
        assert(all[k as int] == resolutions@[k as int]@);
        let entry = &resolutions[k];
        let chosen = match &selected_path {
            Some(path) => path.same_view(&entry.0),
            None => false,
        };
        let delta = match &entry.2 {
            ParkedResolution::Adopt { verdict } => {
                let carried = if !native_verdict_stands && chosen {
                    match verdict {
                        Some(v) => Some(v.duplicate()),
                        None => None,
                    }
                } else {
                    None
                };
                if let Some(v) = &carried {
                    adopted_verdict = Some(v.duplicate());
                }
                DurableDelta::ParkedAdopted {
                    import_path: entry.0.duplicate(),
                    content_key: key.duplicate(),
                    imported: entry.1.duplicate(),
                    verdict: carried,
                }
            },
            ParkedResolution::Retire => DurableDelta::ParkedRetired { import_path: entry.0.duplicate() },
        };
        assert(delta@ == spec_delta(all[k as int]));
        let ghost prior = views(deltas@);
        deltas.push(delta);
        assert(views(deltas@) =~= prior.push(spec_delta(all[k as int])));
        assert(all.subrange(0, k as int + 1).map_values(spec_delta) =~= all.subrange(0, k as int).map_values(spec_delta).push(spec_delta(all[k as int])));
        assert(views(deltas@).drop_last() =~= prior);
        k += 1;
    }
    assert(all.subrange(0, all.len() as int) =~= all);
    let effective_record = match (adopted_verdict, record) {
        (Some(verdict), Some(known)) => {
            let mut known = known.duplicate();
            known.verdict = Some(verdict);
            Some(known)
        },
        (Some(verdict), None) => {
            if key.same_view(&observation.binding.content_key) {
                let mut fresh = FileRecord::new(observation.metadata.duplicate());
                fresh.verdict = Some(verdict);
                Some(fresh)
            } else {
                None
            }
        },
        (None, _) => None,
    };
    PreparedImportAdoptions { deltas, effective_record }
}

/// A verdict decided by a run outranks every imported verdict.
pub proof fn lemma_native_verdict_outranks_imports(
    parked: Seq<(ImportPathView, ParkedRecordView)>,
    observation: Option<MediaObservationView>,
    paths: Seq<ImportPathView>,
    adoption_content_key: Option<ContentKeyView>,
    record: Option<FileRecordView>,
)
    requires
        native_verdict(record),
    ensures
        import_adoptions(parked, observation, paths, adoption_content_key, record).effective_record is None,
        forall|k: int|
            0 <= k < import_adoptions(parked, observation, paths, adoption_content_key, record).deltas.len()
                ==> !(#[trigger] import_adoptions(parked, observation, paths, adoption_content_key, record).deltas[k]
                matches DurableDeltaView::ParkedAdopted { verdict: Some(_), .. }),
{
    let prepared = import_adoptions(parked, observation, paths, adoption_content_key, record);
    if observation is Some && adoption_content_key is Some {
        assert forall|k: int| 0 <= k < prepared.deltas.len() implies !(#[trigger] prepared.deltas[k] matches DurableDeltaView::ParkedAdopted {
            verdict: Some(_),
            ..
        }) by {}
        lemma_no_adopted_verdict(prepared.deltas);
    }
}

/// With no adoption carrying a verdict there is no last adopted verdict.
pub proof fn lemma_no_adopted_verdict(deltas: Seq<DurableDeltaView>)
    requires
        forall|k: int| 0 <= k < deltas.len() ==> !(#[trigger] deltas[k] matches DurableDeltaView::ParkedAdopted {
            verdict: Some(_),
            ..
        }),
    ensures
        last_adopted_verdict(deltas) is None,
    decreases deltas.len(),
{
    if deltas.len() > 0 {
        assert(!(deltas[deltas.len() - 1] matches DurableDeltaView::ParkedAdopted { verdict: Some(_), .. }));
        lemma_no_adopted_verdict(deltas.drop_last());
    }
}

} // verus!
