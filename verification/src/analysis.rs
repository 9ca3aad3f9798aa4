//! The Analysis read model: generation allocation, the authoritative
//! mutation gate, the structural fold shared with consumers, and the
//! metadata fast-path decisions made before a file is probed.

use vstd::prelude::*;

use crate::lookup::{first_index, lemma_first_index, lemma_first_index_is, lemma_first_index_none, upsert};
use crate::model::Duplicate;
use crate::{
    AnalysisActivity, AnalysisActivityView, AnalysisDelta, AnalysisDeltaView,
    AnalysisDisplayText, AnalysisDisplayTextView, AnalysisGeneration, AnalysisGenerationId,
    AnalysisGenerationView, AnalysisMutationError, AnalysisRow, AnalysisRowId, AnalysisRowView,
    AnalysisSnapshot, AnalysisSnapshotView, CurrentFileIdentity, DestructiveIdentity,
    FreshnessDecision, FreshnessReason, ObservationStability, TimestampReliability,
};

verus! {

/// A spec-level `Result` of a view.
pub open spec fn result_view<T: View, E>(result: Result<T, E>) -> Result<T::V, E> {
    match result {
        Ok(value) => Ok(value@),
        Err(error) => Err(error),
    }
}

impl AnalysisActivityView {
    /// Whether the generation still accepts row updates.
    pub open spec fn is_live(self) -> bool {
        match self {
            AnalysisActivityView::Discovering | AnalysisActivityView::Discovered
            | AnalysisActivityView::BasicScanning | AnalysisActivityView::Ready => true,
            AnalysisActivityView::Cancelled | AnalysisActivityView::Failed { .. } => false,
        }
    }

    /// The generation lifecycle: which activity may follow which.
    pub open spec fn may_become(self, next: AnalysisActivityView) -> bool {
        match (self, next) {
            (AnalysisActivityView::Discovering, AnalysisActivityView::Discovered) => true,
            (AnalysisActivityView::Discovering, AnalysisActivityView::Cancelled) => true,
            (AnalysisActivityView::Discovering, AnalysisActivityView::Failed { .. }) => true,
            (AnalysisActivityView::Discovered, AnalysisActivityView::BasicScanning) => true,
            (AnalysisActivityView::Discovered, AnalysisActivityView::Cancelled) => true,
            (AnalysisActivityView::BasicScanning, AnalysisActivityView::Ready) => true,
            (AnalysisActivityView::BasicScanning, AnalysisActivityView::Cancelled) => true,
            (AnalysisActivityView::BasicScanning, AnalysisActivityView::Failed { .. }) => true,
            (AnalysisActivityView::Ready, AnalysisActivityView::BasicScanning) => true,
            (AnalysisActivityView::Ready, AnalysisActivityView::Cancelled) => true,
            _ => false,
        }
    }
}

impl AnalysisActivity {
    /// Whether the generation still accepts row updates. A cancelled or
    /// failed generation is left exactly as it ended.
    pub fn is_live(&self) -> (live: bool)
        ensures
            live == self@.is_live(),
    {
        match self {
            AnalysisActivity::Discovering | AnalysisActivity::Discovered
            | AnalysisActivity::BasicScanning | AnalysisActivity::Ready => true,
            AnalysisActivity::Cancelled | AnalysisActivity::Failed { .. } => false,
        }
    }
}

/// The id the next generation receives: one past the current generation,
/// or 1 when there is none; `None` when the id space is exhausted.
pub open spec fn next_generation_id(state: AnalysisSnapshotView) -> Option<u64> {
    match state.current {
        None => Some(1u64),
        Some(current) => if current.id.0 < u64::MAX {
            Some((current.id.0 + 1) as u64)
        } else {
            None
        },
    }
}

/// The Reset delta that installs a fresh generation.
pub open spec fn fresh_generation(id: u64, roots: Seq<AnalysisDisplayTextView>) -> AnalysisDeltaView {
    AnalysisDeltaView::Reset {
        snapshot: AnalysisSnapshotView {
            current: Some(AnalysisGenerationView {
                id: AnalysisGenerationId(id),
                roots,
                activity: AnalysisActivityView::Discovering,
                rows: Seq::empty(),
            }),
        },
    }
}

/// What allocating the next generation answers.
pub open spec fn begin_generation(
    state: AnalysisSnapshotView,
    roots: Seq<AnalysisDisplayTextView>,
) -> Result<AnalysisDeltaView, AnalysisMutationError> {
    if roots.len() == 0 {
        Err(AnalysisMutationError::EmptyRoots)
    } else {
        match next_generation_id(state) {
            None => Err(AnalysisMutationError::GenerationExhausted),
            Some(id) => Ok(fresh_generation(id, roots)),
        }
    }
}

fn next_id(state: &AnalysisSnapshot) -> (next: Option<u64>)
    ensures
        next == next_generation_id(state@),
{
    match &state.current {
        None => Some(1),
        Some(current) => current.id.0.checked_add(1),
    }
}

/// Allocate and install the next process-local generation. Callers never
/// supply their own generation id.
pub fn begin_analysis_generation(
    state: &AnalysisSnapshot,
    roots: Vec<AnalysisDisplayText>,
) -> (result: Result<AnalysisDelta, AnalysisMutationError>)
    ensures
        result_view(result) == begin_generation(state@, roots@.map_values(|x: AnalysisDisplayText| x@)),
{
    if roots.len() == 0 {
        return Err(AnalysisMutationError::EmptyRoots);
    }
    let next = match next_id(state) {
        Some(next) => next,
        None => return Err(AnalysisMutationError::GenerationExhausted),
    };
    let rows: Vec<AnalysisRow> = Vec::new();
    assert(rows@.map_values(|x: AnalysisRow| x@) =~= Seq::<AnalysisRowView>::empty());
    let delta = AnalysisDelta::Reset {
        snapshot: Box::new(AnalysisSnapshot {
            current: Some(AnalysisGeneration {
                id: AnalysisGenerationId(next),
                roots,
                activity: AnalysisActivity::Discovering,
                rows,
            }),
        }),
    };
    Ok(delta)
}

/// Whether `rows` holds a row with `id`.
pub open spec fn has_row(rows: Seq<AnalysisRowView>, id: AnalysisRowId) -> bool {
    exists|k: int| 0 <= k < rows.len() && rows[k].id == id
}

/// Whether some row of `rows` names an id that `current` does not hold.
pub open spec fn names_unknown_row(current: Seq<AnalysisRowView>, rows: Seq<AnalysisRowView>) -> bool {
    exists|k: int| 0 <= k < rows.len() && !has_row(current, #[trigger] rows[k].id)
}

/// The authoritative mutation gate: replacement must install exactly the
/// next generation, and live deltas must name the current generation, whose
/// lifecycle and row allocation rules they must respect.
pub open spec fn validate_mutation(
    state: AnalysisSnapshotView,
    delta: AnalysisDeltaView,
) -> Result<(), AnalysisMutationError> {
    match delta {
        AnalysisDeltaView::Reset { snapshot } => match snapshot.current {
            None => Err(AnalysisMutationError::ResetIsNotNext),
            Some(next) => if next.roots.len() == 0 {
                Err(AnalysisMutationError::EmptyRoots)
            } else {
                match next_generation_id(state) {
                    None => Err(AnalysisMutationError::GenerationExhausted),
                    Some(expected) => if next.id.0 != expected {
                        Err(AnalysisMutationError::ResetIsNotNext)
                    } else {
                        Ok(())
                    },
                }
            },
        },
        AnalysisDeltaView::RowsUpserted { generation, rows } => match state.current {
            Some(current) if current.id == generation => match current.activity {
                AnalysisActivityView::Discovering | AnalysisActivityView::BasicScanning => Ok(()),
                AnalysisActivityView::Discovered | AnalysisActivityView::Ready => {
                    if names_unknown_row(current.rows, rows) {
                        Err(AnalysisMutationError::UnknownRow)
                    } else {
                        Ok(())
                    }
                },
                AnalysisActivityView::Cancelled | AnalysisActivityView::Failed { .. } => Err(
                    AnalysisMutationError::InvalidActivityTransition,
                ),
            },
            _ => Err(AnalysisMutationError::StaleGeneration),
        },
        AnalysisDeltaView::ActivityChanged { generation, activity } => match state.current {
            Some(current) if current.id == generation => if current.activity.may_become(activity) {
                Ok(())
            } else {
                Err(AnalysisMutationError::InvalidActivityTransition)
            },
            _ => Err(AnalysisMutationError::StaleGeneration),
        },
    }
}

/// Insert `row`, replacing the row with the same id.
pub open spec fn upsert_row(rows: Seq<AnalysisRowView>, row: AnalysisRowView) -> Seq<AnalysisRowView> {
    upsert(rows, |r: AnalysisRowView| r.id == row.id, row)
}

/// Insert every row of `new_rows` in order.
pub open spec fn upsert_rows(rows: Seq<AnalysisRowView>, new_rows: Seq<AnalysisRowView>) -> Seq<AnalysisRowView>
    decreases new_rows.len(),
{
    if new_rows.len() == 0 {
        rows
    } else {
        upsert_row(upsert_rows(rows, new_rows.drop_last()), new_rows.last())
    }
}

/// The structural fold: a Reset replaces the whole state; a live delta
/// applies to the current generation when it names it and is ignored
/// otherwise.
pub open spec fn fold_analysis_spec(state: AnalysisSnapshotView, delta: AnalysisDeltaView) -> AnalysisSnapshotView {
    match delta {
        AnalysisDeltaView::Reset { snapshot } => snapshot,
        AnalysisDeltaView::RowsUpserted { generation, rows } => match state.current {
            Some(current) if current.id == generation => AnalysisSnapshotView {
                current: Some(AnalysisGenerationView { rows: upsert_rows(current.rows, rows), ..current }),
            },
            _ => state,
        },
        AnalysisDeltaView::ActivityChanged { generation, activity } => match state.current {
            Some(current) if current.id == generation => AnalysisSnapshotView {
                current: Some(AnalysisGenerationView { activity, ..current }),
            },
            _ => state,
        },
    }
}

fn row_position(rows: &Vec<AnalysisRow>, id: AnalysisRowId) -> (position: Option<usize>)
    ensures
        match position {
            Some(index) => index < rows@.len() && rows@[index as int].id == id
                && index == first_index(rows@.map_values(|x: AnalysisRow| x@), |r: AnalysisRowView| r.id == id),
            None => first_index(rows@.map_values(|x: AnalysisRow| x@), |r: AnalysisRowView| r.id == id) == -1,
        },
{
    let ghost views = rows@.map_values(|x: AnalysisRow| x@);
    let ghost matches = |r: AnalysisRowView| r.id == id;
    let mut index: usize = 0;
    while index < rows.len()
        invariant
            index <= rows.len(),
            views == rows@.map_values(|x: AnalysisRow| x@),
            matches == (|r: AnalysisRowView| r.id == id),
            forall|k: int| 0 <= k < index ==> !matches(#[trigger] views[k]),
        decreases rows.len() - index,
    {
        if rows[index].id == id {
            proof {
                lemma_first_index_is(views, matches, index as int);
            }
            return Some(index);
        }
        index += 1;
    }
    proof {
        lemma_first_index_none(views, matches);
    }
    None
}

fn upsert_row_exec(rows: &mut Vec<AnalysisRow>, row: AnalysisRow)
    ensures
        final(rows)@.map_values(|x: AnalysisRow| x@) == upsert_row(old(rows)@.map_values(|x: AnalysisRow| x@), row@),
{
    let ghost before = old(rows)@.map_values(|x: AnalysisRow| x@);
    match row_position(rows, row.id) {
        Some(index) => {
            rows.set(index, row);
            assert(rows@.map_values(|x: AnalysisRow| x@) =~= before.update(index as int, row@));
        }
        None => {
            rows.push(row);
            assert(rows@.map_values(|x: AnalysisRow| x@) =~= before.push(row@));
        }
    }
}

fn upsert_rows_exec(rows: &mut Vec<AnalysisRow>, new_rows: &Vec<AnalysisRow>)
    ensures
        final(rows)@.map_values(|x: AnalysisRow| x@) == upsert_rows(
            old(rows)@.map_values(|x: AnalysisRow| x@),
            new_rows@.map_values(|x: AnalysisRow| x@),
        ),
{
    let ghost start = old(rows)@.map_values(|x: AnalysisRow| x@);
    let ghost incoming = new_rows@.map_values(|x: AnalysisRow| x@);
    let mut index: usize = 0;
    assert(incoming.take(0) =~= Seq::<AnalysisRowView>::empty());
    while index < new_rows.len()
        invariant
            index <= new_rows.len(),
            start == old(rows)@.map_values(|x: AnalysisRow| x@),
            incoming == new_rows@.map_values(|x: AnalysisRow| x@),
            rows@.map_values(|x: AnalysisRow| x@) == upsert_rows(start, incoming.take(index as int)),
        decreases new_rows.len() - index,
    {
        upsert_row_exec(rows, new_rows[index].duplicate());
        assert(incoming.take(index + 1).drop_last() =~= incoming.take(index as int));
        index += 1;
    }
    assert(incoming.take(new_rows.len() as int) =~= incoming);
}

/// Structural Analysis fold shared by the reducer and consumers. A stale
/// live delta is ignored; the reducer's gate is the validation boundary.
pub fn fold_analysis(state: &mut AnalysisSnapshot, delta: &AnalysisDelta)
    ensures
        final(state)@ == fold_analysis_spec(old(state)@, delta@),
{
    match delta {
        AnalysisDelta::Reset { snapshot } => {
            *state = (**snapshot).duplicate();
        }
        AnalysisDelta::RowsUpserted { generation, rows } => {
            let current = state.current.take();
            match current {
                Some(mut generation_state) => {
                    if generation_state.id == *generation {
                        upsert_rows_exec(&mut generation_state.rows, rows);
                    }
                    state.current = Some(generation_state);
                }
                None => {}
            }
        }
        AnalysisDelta::ActivityChanged { generation, activity } => {
            let current = state.current.take();
            match current {
                Some(mut generation_state) => {
                    if generation_state.id == *generation {
                        generation_state.activity = activity.duplicate();
                    }
                    state.current = Some(generation_state);
                }
                None => {}
            }
        }
    }
}

fn activity_transition_allowed(from: &AnalysisActivity, to: &AnalysisActivity) -> (allowed: bool)
    ensures
        allowed == from@.may_become(to@),
{
    match (from, to) {
        (AnalysisActivity::Discovering, AnalysisActivity::Discovered) => true,
        (AnalysisActivity::Discovering, AnalysisActivity::Cancelled) => true,
        (AnalysisActivity::Discovering, AnalysisActivity::Failed { .. }) => true,
        (AnalysisActivity::Discovered, AnalysisActivity::BasicScanning) => true,
        (AnalysisActivity::Discovered, AnalysisActivity::Cancelled) => true,
        (AnalysisActivity::BasicScanning, AnalysisActivity::Ready) => true,
        (AnalysisActivity::BasicScanning, AnalysisActivity::Cancelled) => true,
        (AnalysisActivity::BasicScanning, AnalysisActivity::Failed { .. }) => true,
        (AnalysisActivity::Ready, AnalysisActivity::BasicScanning) => true,
        (AnalysisActivity::Ready, AnalysisActivity::Cancelled) => true,
        _ => false,
    }
}

fn all_rows_known(current: &Vec<AnalysisRow>, rows: &Vec<AnalysisRow>) -> (known: bool)
    ensures
        known == !names_unknown_row(current@.map_values(|x: AnalysisRow| x@), rows@.map_values(|x: AnalysisRow| x@)),
{
    let ghost standing = current@.map_values(|x: AnalysisRow| x@);
    let ghost incoming = rows@.map_values(|x: AnalysisRow| x@);
    let mut index: usize = 0;
    while index < rows.len()
        invariant
            index <= rows.len(),
            standing == current@.map_values(|x: AnalysisRow| x@),
            incoming == rows@.map_values(|x: AnalysisRow| x@),
            forall|k: int| 0 <= k < index ==> has_row(standing, #[trigger] incoming[k].id),
        decreases rows.len() - index,
    {
        match row_position(current, rows[index].id) {
            Some(found) => {
                assert(standing[found as int].id == incoming[index as int].id);
            }
            None => {
                proof {
                    lemma_first_index(standing, |r: AnalysisRowView| r.id == rows@[index as int].id);
                }
                assert(!has_row(standing, incoming[index as int].id));
                return false;
            }
        }
        index += 1;
    }
    true
}

/// Check a delta against the current snapshot without folding it.
pub fn validate_analysis_mutation(state: &AnalysisSnapshot, delta: &AnalysisDelta) -> (result: Result<(), AnalysisMutationError>)
    ensures
        result == validate_mutation(state@, delta@),
{
    match delta {
        AnalysisDelta::Reset { snapshot } => {
            let next = match &snapshot.current {
                Some(next) => next,
                None => return Err(AnalysisMutationError::ResetIsNotNext),
            };
            if next.roots.len() == 0 {
                return Err(AnalysisMutationError::EmptyRoots);
            }
            let expected = match next_id(state) {
                Some(expected) => expected,
                None => return Err(AnalysisMutationError::GenerationExhausted),
            };
            if next.id.0 != expected {
                return Err(AnalysisMutationError::ResetIsNotNext);
            }
            Ok(())
        }
        AnalysisDelta::RowsUpserted { generation, rows } => {
            let current = match &state.current {
                Some(current) if current.id == *generation => current,
                _ => return Err(AnalysisMutationError::StaleGeneration),
            };
            match &current.activity {
                AnalysisActivity::Discovering | AnalysisActivity::BasicScanning => Ok(()),
                AnalysisActivity::Discovered | AnalysisActivity::Ready => {
                    if !all_rows_known(&current.rows, rows) {
                        return Err(AnalysisMutationError::UnknownRow);
                    }
                    Ok(())
                }
                AnalysisActivity::Cancelled | AnalysisActivity::Failed { .. } => {
                    Err(AnalysisMutationError::InvalidActivityTransition)
                }
            }
        }
        AnalysisDelta::ActivityChanged { generation, activity } => {
            let current = match &state.current {
                Some(current) if current.id == *generation => current,
                _ => return Err(AnalysisMutationError::StaleGeneration),
            };
            if !activity_transition_allowed(&current.activity, activity) {
                return Err(AnalysisMutationError::InvalidActivityTransition);
            }
            Ok(())
        }
    }
}

/// Check a delta, then fold it; a refused delta leaves the snapshot as it
/// was.
pub fn apply_analysis_mutation(state: &mut AnalysisSnapshot, delta: &AnalysisDelta) -> (result: Result<(), AnalysisMutationError>)
    ensures
        result == validate_mutation(old(state)@, delta@),
        final(state)@ == (if result is Ok { fold_analysis_spec(old(state)@, delta@) } else { old(state)@ }),
{
    validate_analysis_mutation(state, delta)?;
    fold_analysis(state, delta);
    Ok(())
}

/// Which read of the identity first differed, if any.
pub open spec fn stability(
    before_probe: DestructiveIdentity,
    after_probe: DestructiveIdentity,
    after_sampling: DestructiveIdentity,
) -> ObservationStability {
    if before_probe != after_probe {
        ObservationStability::ChangedAfterProbe
    } else if after_probe != after_sampling {
        ObservationStability::ChangedDuringSampling
    } else {
        ObservationStability::Stable
    }
}

/// Result of the three identity reads bracketing probe and content
/// sampling. A changed file never publishes a successful observation.
pub fn observation_stability(
    before_probe: &DestructiveIdentity,
    after_probe: &DestructiveIdentity,
    after_sampling: &DestructiveIdentity,
) -> (result: ObservationStability)
    ensures
        result == stability(*before_probe, *after_probe, *after_sampling),
{
    if *before_probe != *after_probe {
        ObservationStability::ChangedAfterProbe
    } else if *after_probe != *after_sampling {
        ObservationStability::ChangedDuringSampling
    } else {
        ObservationStability::Stable
    }
}

/// The metadata fast path: exact settled-output identity outranks a stale
/// source binding, but only once timestamp reliability admits a shortcut;
/// unknown, coarse, or recent timestamps never become size-only cache hits.
pub open spec fn freshness(
    current: CurrentFileIdentity,
    cached: Option<DestructiveIdentity>,
    settled_output: Option<DestructiveIdentity>,
    reliability: TimestampReliability,
) -> FreshnessDecision {
    match current {
        CurrentFileIdentity::Missing => FreshnessDecision::Missing,
        CurrentFileIdentity::Unavailable => FreshnessDecision::Unavailable,
        CurrentFileIdentity::Present(current) => {
            if reliability == TimestampReliability::CoarseOrRecent {
                FreshnessDecision::Reobserve(FreshnessReason::CoarseOrRecentTimestamp)
            } else if reliability == TimestampReliability::Unknown || current.modified_ns is None {
                FreshnessDecision::Reobserve(FreshnessReason::UnknownTimestamp)
            } else if settled_output == Some(current) {
                FreshnessDecision::RecognizeSettledOutput
            } else {
                match cached {
                    None => FreshnessDecision::Reobserve(FreshnessReason::NoBinding),
                    Some(cached) => if current.file_id != cached.file_id {
                        FreshnessDecision::Reobserve(FreshnessReason::FileIdentityChanged)
                    } else if current.size != cached.size {
                        FreshnessDecision::Reobserve(FreshnessReason::SizeChanged)
                    } else if cached.modified_ns is None {
                        FreshnessDecision::Reobserve(FreshnessReason::UnknownTimestamp)
                    } else if current.modified_ns != cached.modified_ns {
                        FreshnessDecision::Reobserve(FreshnessReason::ModifiedTimeChanged)
                    } else {
                        FreshnessDecision::ReuseObservation
                    },
                }
            }
        },
    }
}

/// Decide the metadata fast path before ordinary path rebinding.
pub fn decide_freshness(
    current: &CurrentFileIdentity,
    cached: Option<&DestructiveIdentity>,
    settled_output: Option<&DestructiveIdentity>,
    timestamp_reliability: TimestampReliability,
) -> (decision: FreshnessDecision)
    ensures
        decision == freshness(
            *current,
            match cached { Some(c) => Some(*c), None => None },
            match settled_output { Some(o) => Some(*o), None => None },
            timestamp_reliability,
        ),
{
    let current = match current {
        CurrentFileIdentity::Missing => return FreshnessDecision::Missing,
        CurrentFileIdentity::Unavailable => return FreshnessDecision::Unavailable,
        CurrentFileIdentity::Present(identity) => identity,
    };
    match timestamp_reliability {
        TimestampReliability::CoarseOrRecent => {
            return FreshnessDecision::Reobserve(FreshnessReason::CoarseOrRecentTimestamp);
        }
        TimestampReliability::Unknown => {
            return FreshnessDecision::Reobserve(FreshnessReason::UnknownTimestamp);
        }
        TimestampReliability::Reliable => {
            if current.modified_ns.is_none() {
                return FreshnessDecision::Reobserve(FreshnessReason::UnknownTimestamp);
            }
        }
    }
    if let Some(settled) = settled_output {
        if *settled == *current {
            return FreshnessDecision::RecognizeSettledOutput;
        }
    }
    let cached = match cached {
        None => return FreshnessDecision::Reobserve(FreshnessReason::NoBinding),
        Some(cached) => cached,
    };
    if current.file_id != cached.file_id {
        return FreshnessDecision::Reobserve(FreshnessReason::FileIdentityChanged);
    }
    if current.size != cached.size {
        return FreshnessDecision::Reobserve(FreshnessReason::SizeChanged);
    }
    if cached.modified_ns.is_none() {
        return FreshnessDecision::Reobserve(FreshnessReason::UnknownTimestamp);
    }
    if current.modified_ns != cached.modified_ns {
        return FreshnessDecision::Reobserve(FreshnessReason::ModifiedTimeChanged);
    }
    FreshnessDecision::ReuseObservation
}

/// An accepted Reset installs exactly the next generation: its id is one
/// past the previous generation's, or 1 when there was none.
pub proof fn lemma_accepted_reset_installs_next_generation(
    state: AnalysisSnapshotView,
    delta: AnalysisDeltaView,
)
    requires
        validate_mutation(state, delta) is Ok,
        delta is Reset,
    ensures
        fold_analysis_spec(state, delta).current is Some,
        Some(fold_analysis_spec(state, delta).current->0.id.0) == next_generation_id(state),
        state.current is Some ==> fold_analysis_spec(state, delta).current->0.id.0 > state.current->0.id.0,
{
}

/// A cancelled or failed generation is left exactly as it ended: every
/// live delta naming it is refused.
pub proof fn lemma_terminal_generation_is_frozen(state: AnalysisSnapshotView, delta: AnalysisDeltaView)
    requires
        state.current is Some,
        !state.current->0.activity.is_live(),
        !(delta is Reset),
    ensures
        validate_mutation(state, delta) is Err,
{
}

/// An accepted live delta keeps the generation's identity and roots.
pub proof fn lemma_live_delta_keeps_generation(state: AnalysisSnapshotView, delta: AnalysisDeltaView)
    requires
        validate_mutation(state, delta) is Ok,
        !(delta is Reset),
    ensures
        fold_analysis_spec(state, delta).current is Some,
        fold_analysis_spec(state, delta).current->0.id == state.current->0.id,
        fold_analysis_spec(state, delta).current->0.roots == state.current->0.roots,
{
}

/// After a row is upserted, looking its id up gives back that row, and
/// every other id finds what it found before.
pub proof fn lemma_upserted_row_reads_back(rows: Seq<AnalysisRowView>, row: AnalysisRowView, other: AnalysisRowId)
    ensures
        has_row(upsert_row(rows, row), row.id),
        upsert_row(rows, row)[first_index(upsert_row(rows, row), |r: AnalysisRowView| r.id == row.id)] == row,
        other != row.id ==> first_index(upsert_row(rows, row), |r: AnalysisRowView| r.id == other)
            == first_index(rows, |r: AnalysisRowView| r.id == other),
{
    let same = |r: AnalysisRowView| r.id == row.id;
    let others = |r: AnalysisRowView| r.id == other;
    lemma_first_index(rows, same);
    let index = first_index(rows, same);
    let updated = upsert_row(rows, row);
    if index >= 0 {
        assert(updated == rows.update(index, row));
        lemma_first_index_is(updated, same, index);
        if other != row.id {
            lemma_first_index(rows, others);
            let found = first_index(rows, others);
            if found >= 0 {
                assert(found != index);
                lemma_first_index_is(updated, others, found);
            } else {
                assert forall|k: int| 0 <= k < updated.len() implies !others(#[trigger] updated[k]) by {
                    if k != index {
                        assert(updated[k] == rows[k]);
                    }
                }
                lemma_first_index_none(updated, others);
            }
        }
    } else {
        assert(updated == rows.push(row));
        assert forall|k: int| 0 <= k < rows.len() implies !same(#[trigger] updated[k]) by {
            assert(updated[k] == rows[k]);
        }
        lemma_first_index_is(updated, same, rows.len() as int);
        if other != row.id {
            lemma_first_index(rows, others);
            let found = first_index(rows, others);
            if found >= 0 {
                assert forall|k: int| 0 <= k < found implies !others(#[trigger] updated[k]) by {
                    assert(updated[k] == rows[k]);
                }
                assert(updated[found] == rows[found]);
                lemma_first_index_is(updated, others, found);
            } else {
                assert forall|k: int| 0 <= k < updated.len() implies !others(#[trigger] updated[k]) by {
                    if k < rows.len() {
                        assert(updated[k] == rows[k]);
                    }
                }
                lemma_first_index_none(updated, others);
            }
        }
    }
}


impl Default for AnalysisSnapshot {
    /// No Analysis generation stands yet.
    fn default() -> (snapshot: Self)
        ensures
            snapshot@.current is None,
    {
        AnalysisSnapshot { current: None }
    }
}

/// A generation's activity changes only along its lifecycle: discovery
/// ends discovered, cancelled or failed; a discovered generation starts its
/// basic scan or is cancelled; a scan ends ready, cancelled or failed; a
/// ready generation rescans or is cancelled. Any other change of the
/// current generation is refused as an invalid transition.
pub proof fn lemma_activity_follows_the_lifecycle(
    state: AnalysisSnapshotView,
    generation: AnalysisGenerationId,
    activity: AnalysisActivityView,
)
    requires
        state.current is Some,
        state.current->0.id == generation,
    ensures
        ({
            let from = state.current->0.activity;
            let edge = {
                ||| from is Discovering && (activity is Discovered || activity is Cancelled || activity is Failed)
                ||| from is Discovered && (activity is BasicScanning || activity is Cancelled)
                ||| from is BasicScanning && (activity is Ready || activity is Cancelled || activity is Failed)
                ||| from is Ready && (activity is BasicScanning || activity is Cancelled)
            };
            &&& edge ==> validate_mutation(state, AnalysisDeltaView::ActivityChanged { generation, activity }) is Ok
            &&& !edge ==> validate_mutation(state, AnalysisDeltaView::ActivityChanged { generation, activity })
                == Err::<(), AnalysisMutationError>(AnalysisMutationError::InvalidActivityTransition)
        }),
{
}

} // verus!
