//! Row status: what a claim on the file behind an Analysis row would do and
//! reuse. A status is projected from the same execution composition and job
//! policy a claim runs (`compose_execution`, `select_job_action`), so a row
//! never reports a result that a claim would not reproduce. Nothing here is
//! persisted.

use vstd::prelude::*;

use crate::analysis::{fold_analysis, fold_analysis_spec};
use crate::execution::{composed_execution, compose_execution};
use crate::lookup::{find_key, first_index, lemma_first_index_is, lemma_first_index_none, lookup};
use crate::model::{contains_view, views, Duplicate};
use crate::state::{find_run, run_of, run_record};
use crate::policy::{job_action, select_job_action};
use crate::{
    AnalysisFileScan, AnalysisFileScanView, AnalysisIntent, AnalysisResult, AnalysisResultView,
    AnalysisRowStatus, AppState, AppStateView, ApplicableLevel, ContentKey, ContentKeyView,
    ConversionSummary, DurableState, ExecutionSettings, ExecutionSettingsView, FileRecord,
    FileRecordView, HistoricalLevel, ImportedProvenanceView, JobAction, JobActionView, Operation,
    OverwriteDecision, ParkedStatus, ReuseStanding, RowEligibility, SearchPrediction,
    SettingsView, ToolAvailabilityView, Verdict, VerdictKind, VerdictKindView, VerdictView,
    VideoMeta, VideoMetaView, Applied, AppliedView, DurableDelta, DurableDeltaView, EphemeralDelta,
    EphemeralDeltaView, AnalysisDelta, AnalysisDeltaView, AnalysisGenerationId, AnalysisRow,
    AnalysisRowEntry, AnalysisRowEntryView, AnalysisRowId, AnalysisRowView, AnalysisSnapshotView,
};

verus! {

/// The observed facts a row's status derives from, borrowed from its scan.
#[derive(Clone, Copy, Debug)]
pub enum ScanFacts<'a> {
    Scanned { content_key: &'a ContentKey, metadata: &'a VideoMeta },
    /// The file is the settled output of a conversion of
    /// `source_content_key`: the level reports that conversion, the
    /// eligibility is the output file's own.
    SettledOutput {
        source_content_key: &'a ContentKey,
        output_content_key: &'a ContentKey,
        metadata: Option<&'a VideoMeta>,
    },
}

/// The mathematical value of [`ScanFacts`].
pub enum ScanFactsView {
    Scanned { content_key: ContentKeyView, metadata: VideoMetaView },
    SettledOutput {
        source_content_key: ContentKeyView,
        output_content_key: ContentKeyView,
        metadata: Option<VideoMetaView>,
    },
}

impl<'a> View for ScanFacts<'a> {
    type V = ScanFactsView;

    open spec fn view(&self) -> ScanFactsView {
        match *self {
            ScanFacts::Scanned { content_key, metadata } => ScanFactsView::Scanned {
                content_key: content_key@,
                metadata: metadata@,
            },
            ScanFacts::SettledOutput { source_content_key, output_content_key, metadata } => ScanFactsView::SettledOutput {
                source_content_key: source_content_key@,
                output_content_key: output_content_key@,
                metadata: match metadata { Some(m) => Some(m@), None => None },
            },
        }
    }
}

/// The facts of an observed scan; a merely discovered or failed file has
/// none.
pub open spec fn scan_facts(scan: AnalysisFileScanView) -> Option<ScanFactsView> {
    match scan {
        AnalysisFileScanView::Scanned { content_key, metadata, .. } => Some(ScanFactsView::Scanned { content_key, metadata }),
        AnalysisFileScanView::SettledOutput { source_content_key, output_content_key, metadata, .. } => Some(
            ScanFactsView::SettledOutput { source_content_key, output_content_key, metadata },
        ),
        AnalysisFileScanView::Discovered | AnalysisFileScanView::Failed { .. } => None,
    }
}

/// The status a scan carries, if it is observed.
pub open spec fn scan_status(scan: AnalysisFileScanView) -> Option<AnalysisRowStatus> {
    match scan {
        AnalysisFileScanView::Scanned { status, .. } => Some(status),
        AnalysisFileScanView::SettledOutput { status, .. } => Some(status),
        AnalysisFileScanView::Discovered | AnalysisFileScanView::Failed { .. } => None,
    }
}

/// The scan with its status replaced; an unobserved scan has none to
/// replace.
pub open spec fn scan_with_status(scan: AnalysisFileScanView, status: AnalysisRowStatus) -> AnalysisFileScanView {
    match scan {
        AnalysisFileScanView::Scanned { content_key, metadata, refresh_failure, .. } => AnalysisFileScanView::Scanned {
            content_key,
            metadata,
            refresh_failure,
            status,
        },
        AnalysisFileScanView::SettledOutput { source_content_key, output_content_key, metadata, refresh_failure, .. } => AnalysisFileScanView::SettledOutput {
            source_content_key,
            output_content_key,
            metadata,
            refresh_failure,
            status,
        },
        AnalysisFileScanView::Discovered | AnalysisFileScanView::Failed { .. } => scan,
    }
}

impl AnalysisFileScan {
    /// The observed facts of this scan, if any.
    pub fn facts(&self) -> (facts: Option<ScanFacts<'_>>)
        ensures
            (match facts { Some(f) => Some(f@), None => None }) == scan_facts(self@),
    {
        match self {
            AnalysisFileScan::Scanned { content_key, metadata, .. } => Some(ScanFacts::Scanned { content_key, metadata }),
            AnalysisFileScan::SettledOutput { source_content_key, output_content_key, metadata, .. } => Some(
                ScanFacts::SettledOutput {
                    source_content_key,
                    output_content_key,
                    metadata: match metadata {
                        Some(m) => Some(m),
                        None => None,
                    },
                },
            ),
            AnalysisFileScan::Discovered | AnalysisFileScan::Failed { .. } => None,
        }
    }

    /// The status this scan carries, if it is observed.
    pub fn status(&self) -> (status: Option<&AnalysisRowStatus>)
        ensures
            (match status { Some(s) => Some(*s), None => None }) == scan_status(self@),
    {
        match self {
            AnalysisFileScan::Scanned { status, .. } => Some(&(*(*status))),
            AnalysisFileScan::SettledOutput { status, .. } => Some(&(*(*status))),
            AnalysisFileScan::Discovered | AnalysisFileScan::Failed { .. } => None,
        }
    }

    /// This scan with its status replaced.
    pub fn with_status(&self, status: AnalysisRowStatus) -> (scan: Self)
        ensures
            scan@ == scan_with_status(self@, status),
    {
        match self {
            AnalysisFileScan::Scanned { content_key, metadata, refresh_failure, .. } => AnalysisFileScan::Scanned {
                content_key: content_key.duplicate(),
                metadata: metadata.duplicate(),
                refresh_failure: match refresh_failure {
                    Some(failure) => Some(Box::new((*(*failure)).duplicate())),
                    None => None,
                },
                status: Box::new(status),
            },
            AnalysisFileScan::SettledOutput { source_content_key, output_content_key, metadata, refresh_failure, .. } => AnalysisFileScan::SettledOutput {
                source_content_key: source_content_key.duplicate(),
                output_content_key: output_content_key.duplicate(),
                metadata: match metadata {
                    Some(m) => Some(m.duplicate()),
                    None => None,
                },
                refresh_failure: match refresh_failure {
                    Some(failure) => Some(Box::new((*(*failure)).duplicate())),
                    None => None,
                },
                status: Box::new(status),
            },
            AnalysisFileScan::Discovered => AnalysisFileScan::Discovered,
            AnalysisFileScan::Failed { failure } => AnalysisFileScan::Failed { failure: failure.duplicate() },
        }
    }
}

/// The prediction of the search a claim would reuse.
pub open spec fn prediction_of(result: AnalysisResultView) -> SearchPrediction {
    SearchPrediction {
        crf: result.measurement.crf,
        score: result.measurement.score,
        predicted_size: result.measurement.predicted_size,
        predicted_percent_basis_points: result.measurement.predicted_percent_basis_points,
        predicted_duration_ms: result.measurement.predicted_duration_ms,
        requested_target: result.requested_target,
        successful_target: result.successful_target,
    }
}

impl SearchPrediction {
    /// The prediction the search `result` made.
    pub fn from_result(result: &AnalysisResult) -> (prediction: Self)
        ensures
            prediction == prediction_of(result@),
    {
        SearchPrediction {
            crf: result.measurement.crf,
            score: result.measurement.score,
            predicted_size: result.measurement.predicted_size,
            predicted_percent_basis_points: result.measurement.predicted_percent_basis_points,
            predicted_duration_ms: result.measurement.predicted_duration_ms,
            requested_target: result.requested_target,
            successful_target: result.successful_target,
        }
    }
}

/// The measured summary of the conversion that decided a content; a
/// not-worthwhile verdict has none.
pub open spec fn summary_of(verdict: VerdictView) -> Option<ConversionSummary> {
    match verdict.kind {
        VerdictKindView::Converted { input_size, output_size, encoding_time, crf, vmaf, target, .. } => Some(
            ConversionSummary::Encoded {
                input_size,
                output_size,
                encoding_time,
                crf,
                vmaf,
                target,
                decided_at: verdict.decided_at,
                source_run: verdict.source_run,
            },
        ),
        VerdictKindView::Remuxed { input_size, output_size, .. } => Some(ConversionSummary::Remuxed {
            input_size,
            output_size,
            decided_at: verdict.decided_at,
            source_run: verdict.source_run,
        }),
        VerdictKindView::NotWorthwhile { .. } => None,
    }
}

impl ConversionSummary {
    /// The summary of the conversion behind `verdict`, if it converted.
    pub fn from_verdict(verdict: &Verdict) -> (summary: Option<Self>)
        ensures
            summary == summary_of(verdict@),
    {
        match &verdict.kind {
            VerdictKind::Converted { input_size, output_size, encoding_time, crf, vmaf, target, .. } => Some(
                ConversionSummary::Encoded {
                    input_size: *input_size,
                    output_size: *output_size,
                    encoding_time: *encoding_time,
                    crf: *crf,
                    vmaf: *vmaf,
                    target: *target,
                    decided_at: verdict.decided_at,
                    source_run: verdict.source_run,
                },
            ),
            VerdictKind::Remuxed { input_size, output_size, .. } => Some(ConversionSummary::Remuxed {
                input_size: *input_size,
                output_size: *output_size,
                decided_at: verdict.decided_at,
                source_run: verdict.source_run,
            }),
            VerdictKind::NotWorthwhile { .. } => None,
        }
    }
}

/// What a job action means for a row: work, a remux, or a skip.
pub open spec fn eligibility_of(action: JobActionView) -> RowEligibility {
    match action {
        JobActionView::Skip { reason } => RowEligibility::Skip { reason },
        JobActionView::Remux => RowEligibility::Remux,
        JobActionView::Analyze { .. } | JobActionView::Encode { .. } => RowEligibility::Eligible,
    }
}

/// What a job action means for a row.
pub fn eligibility(action: &JobAction) -> (eligibility: RowEligibility)
    ensures
        eligibility == eligibility_of(action@),
{
    match action {
        JobAction::Skip { reason } => RowEligibility::Skip { reason: *reason },
        JobAction::Remux => RowEligibility::Remux,
        JobAction::Analyze { .. } | JobAction::Encode { .. } => RowEligibility::Eligible,
    }
}

/// The position of a level in the order Scanned < Analyzed < Converted.
pub open spec fn level_rank(level: HistoricalLevel) -> int {
    match level {
        HistoricalLevel::Scanned => 0,
        HistoricalLevel::Analyzed => 1,
        HistoricalLevel::Converted => 2,
    }
}

/// The higher of two levels.
pub open spec fn higher(a: HistoricalLevel, b: HistoricalLevel) -> HistoricalLevel {
    if level_rank(a) >= level_rank(b) { a } else { b }
}

fn raise(level: HistoricalLevel, to: HistoricalLevel) -> (raised: HistoricalLevel)
    ensures
        raised == higher(level, to),
{
    match (level, to) {
        (HistoricalLevel::Converted, _) => HistoricalLevel::Converted,
        (_, HistoricalLevel::Converted) => HistoricalLevel::Converted,
        (HistoricalLevel::Analyzed, _) => HistoricalLevel::Analyzed,
        (_, HistoricalLevel::Analyzed) => HistoricalLevel::Analyzed,
        _ => HistoricalLevel::Scanned,
    }
}

/// The level an imported record reached.
pub open spec fn imported_level(status: ParkedStatus) -> HistoricalLevel {
    match status {
        ParkedStatus::Scanned => HistoricalLevel::Scanned,
        ParkedStatus::Analyzed | ParkedStatus::NotWorthwhile => HistoricalLevel::Analyzed,
        ParkedStatus::Converted => HistoricalLevel::Converted,
    }
}

/// The level a verdict stands for.
pub open spec fn verdict_level(kind: VerdictKindView) -> HistoricalLevel {
    match kind {
        VerdictKindView::Converted { .. } | VerdictKindView::Remuxed { .. } => HistoricalLevel::Converted,
        VerdictKindView::NotWorthwhile { .. } => HistoricalLevel::Analyzed,
    }
}

/// The highest level a content is known to have reached, from its recorded
/// searches, its imported provenance and its verdict alike.
pub open spec fn historical_of(record: Option<FileRecordView>) -> HistoricalLevel {
    match record {
        None => HistoricalLevel::Scanned,
        Some(record) => {
            let searched = if record.analyses.len() > 0 { HistoricalLevel::Analyzed } else { HistoricalLevel::Scanned };
            let imported = match record.imported {
                Some(provenance) => higher(searched, imported_level(provenance.record.status)),
                None => searched,
            };
            match record.verdict {
                Some(verdict) => higher(imported, verdict_level(verdict.kind)),
                None => imported,
            }
        },
    }
}

/// The highest level a content is known to have reached.
pub fn historical_level(record: Option<&FileRecord>) -> (level: HistoricalLevel)
    ensures
        level == historical_of(match record { Some(r) => Some(r@), None => None }),
{
    let mut level = HistoricalLevel::Scanned;
    let record = match record {
        Some(record) => record,
        None => return level,
    };
    if record.analyses.len() > 0 {
        level = raise(level, HistoricalLevel::Analyzed);
    }
    if let Some(imported) = &record.imported {
        let reached = match imported.record.status {
            ParkedStatus::Scanned => HistoricalLevel::Scanned,
            ParkedStatus::Analyzed | ParkedStatus::NotWorthwhile => HistoricalLevel::Analyzed,
            ParkedStatus::Converted => HistoricalLevel::Converted,
        };
        level = raise(level, reached);
    }
    if let Some(verdict) = &record.verdict {
        let reached = match verdict.kind {
            VerdictKind::Converted { .. } | VerdictKind::Remuxed { .. } => HistoricalLevel::Converted,
            VerdictKind::NotWorthwhile { .. } => HistoricalLevel::Analyzed,
        };
        level = raise(level, reached);
    }
    level
}

/// The record that the status of a row reads its level from, the metadata
/// a claim would see, and the record the claim would act on.
pub open spec fn status_inputs(
    records: Seq<(ContentKeyView, FileRecordView)>,
    facts: ScanFactsView,
) -> (Option<FileRecordView>, Option<VideoMetaView>, Option<FileRecordView>) {
    match facts {
        ScanFactsView::Scanned { content_key, metadata } => {
            let record = lookup(records, content_key);
            (record, Some(metadata), record)
        },
        ScanFactsView::SettledOutput { source_content_key, output_content_key, metadata } => (
            lookup(records, source_content_key),
            metadata,
            lookup(records, output_content_key),
        ),
    }
}

/// Whether searches are recorded for the content.
pub open spec fn searched(record: Option<FileRecordView>) -> bool {
    match record {
        Some(record) => record.analyses.len() > 0,
        None => false,
    }
}

/// A row's status from its inputs. Eligibility reads only the fallback
/// floor from the execution, which the base already carries, so unverified
/// tools never hide a skip; reuse needs the composed profile and reports
/// `ToolchainUnverified` until it exists. A standing conversion verdict
/// wins over any search.
pub open spec fn status_from(
    content_record: Option<FileRecordView>,
    metadata: Option<VideoMetaView>,
    file_record: Option<FileRecordView>,
    tools: ToolAvailabilityView,
    settings: SettingsView,
    base: ExecutionSettingsView,
) -> AnalysisRowStatus {
    let composed = composed_execution(
        base,
        tools,
        settings,
        OverwriteDecision::FollowSettings,
        match metadata { Some(m) => Some(m.codec), None => None },
    );
    let execution = match composed {
        Ok(execution) => execution,
        Err(_) => base,
    };
    let analyze = job_action(metadata, file_record, Operation::Analyze, AnalysisIntent::ReuseIfFresh, execution);
    let convert = job_action(metadata, file_record, Operation::Convert, AnalysisIntent::ReuseIfFresh, execution);
    let summary = match content_record {
        Some(record) => match record.verdict {
            Some(verdict) => summary_of(verdict),
            None => None,
        },
        None => None,
    };
    let applicable = match summary {
        Some(summary) => ApplicableLevel::Converted { summary },
        None => match composed {
            Err(reason) => ApplicableLevel::Scanned { reuse: ReuseStanding::ToolchainUnverified { reason } },
            Ok(_) => match analyze {
                JobActionView::Analyze { selected_analysis: Some(result) } => ApplicableLevel::Analyzed {
                    prediction: prediction_of(result),
                },
                _ => ApplicableLevel::Scanned {
                    reuse: if searched(content_record) {
                        ReuseStanding::Inapplicable
                    } else {
                        ReuseStanding::Unanalyzed
                    },
                },
            },
        },
    };
    AnalysisRowStatus {
        applicable,
        historical: historical_of(content_record),
        analyze: eligibility_of(analyze),
        convert: eligibility_of(convert),
    }
}

/// The status of a row with `facts`, projected from the state and the base
/// execution that claims start from.
pub open spec fn row_status(state: AppStateView, base: ExecutionSettingsView, facts: ScanFactsView) -> AnalysisRowStatus {
    let (content_record, metadata, file_record) = status_inputs(state.durable.records, facts);
    status_from(content_record, metadata, file_record, state.tools.availability, state.settings, base)
}

/// The record stored under `key`.
pub fn record_of<'a>(durable: &'a DurableState, key: &ContentKey) -> (record: Option<&'a FileRecord>)
    ensures
        (match record { Some(r) => Some(r@), None => None }) == lookup(durable@.records, key@),
{
    proof {
        crate::state::lemma_durable_views(*durable);
    }
    match find_key(&durable.records, key) {
        Some(index) => {
            assert(durable@.records[index as int] == durable.records@[index as int]@);
            Some(&durable.records[index].1)
        },
        None => None,
    }
}

/// Project one row's status from the current state and the base execution
/// that claims start from.
pub fn project_row_status(state: &AppState, base: &ExecutionSettings, facts: ScanFacts<'_>) -> (status: AnalysisRowStatus)
    ensures
        status == row_status(state@, base@, facts@),
{
    let (content_record, metadata, file_record): (Option<&FileRecord>, Option<&VideoMeta>, Option<&FileRecord>) = match facts {
        ScanFacts::Scanned { content_key, metadata } => {
            let record = record_of(&state.durable, content_key);
            (record, Some(metadata), record)
        },
        ScanFacts::SettledOutput { source_content_key, output_content_key, metadata } => (
            record_of(&state.durable, source_content_key),
            metadata,
            record_of(&state.durable, output_content_key),
        ),
    };
    let codec = match metadata {
        Some(m) => Some(&m.codec),
        None => None,
    };
    let composed = compose_execution(
        base,
        &state.tools.availability,
        &state.settings,
        OverwriteDecision::FollowSettings,
        codec,
    );
    let execution = match &composed {
        Ok(execution) => execution,
        Err(_) => base,
    };
    let analyze = select_job_action(metadata, file_record, Operation::Analyze, AnalysisIntent::ReuseIfFresh, execution);
    let convert = select_job_action(metadata, file_record, Operation::Convert, AnalysisIntent::ReuseIfFresh, execution);
    let summary = match content_record {
        Some(record) => match &record.verdict {
            Some(verdict) => ConversionSummary::from_verdict(verdict),
            None => None,
        },
        None => None,
    };
    let applicable = match summary {
        Some(summary) => ApplicableLevel::Converted { summary },
        None => match &composed {
            Err(reason) => ApplicableLevel::Scanned { reuse: ReuseStanding::ToolchainUnverified { reason: *reason } },
            Ok(_) => match &analyze {
                JobAction::Analyze { selected_analysis: Some(result) } => ApplicableLevel::Analyzed {
                    prediction: SearchPrediction::from_result(result),
                },
                _ => {
                    let searched = match content_record {
                        Some(record) => record.analyses.len() > 0,
                        None => false,
                    };
                    ApplicableLevel::Scanned {
                        reuse: if searched { ReuseStanding::Inapplicable } else { ReuseStanding::Unanalyzed },
                    }
                },
            },
        },
    };
    AnalysisRowStatus {
        applicable,
        historical: historical_level(content_record),
        analyze: eligibility(&analyze),
        convert: eligibility(&convert),
    }
}

/// The rank of an applicable level on the historical scale.
pub open spec fn applicable_rank(level: ApplicableLevel) -> int {
    match level {
        ApplicableLevel::Scanned { .. } => 0,
        ApplicableLevel::Analyzed { .. } => 1,
        ApplicableLevel::Converted { .. } => 2,
    }
}

/// A row observing a file directly never claims a higher applicable level
/// than the content is known to have reached: a reusable search is a
/// recorded search, and a conversion summary comes from a conversion
/// verdict.
pub proof fn lemma_applicable_never_exceeds_historical(
    state: AppStateView,
    base: ExecutionSettingsView,
    content_key: ContentKeyView,
    metadata: VideoMetaView,
)
    ensures
        applicable_rank(row_status(state, base, ScanFactsView::Scanned { content_key, metadata }).applicable)
            <= level_rank(row_status(state, base, ScanFactsView::Scanned { content_key, metadata }).historical),
{
    let facts = ScanFactsView::Scanned { content_key, metadata };
    let record = lookup(state.durable.records, content_key);
    let status = row_status(state, base, facts);
    lemma_historical_bounds(record);
    match status.applicable {
        ApplicableLevel::Analyzed { .. } => {
            let composed = composed_execution(
                base,
                state.tools.availability,
                state.settings,
                OverwriteDecision::FollowSettings,
                Some(metadata.codec),
            );
            let execution = match composed {
                Ok(execution) => execution,
                Err(_) => base,
            };
            let analyses = record->0.analyses;
            assert(analyses.len() > 0);
        },
        _ => {},
    }
}

/// Lower bounds of the historical level that its sources establish.
proof fn lemma_historical_bounds(record: Option<FileRecordView>)
    ensures
        record is Some && record->0.analyses.len() > 0 ==> level_rank(historical_of(record)) >= 1,
        record is Some && record->0.verdict is Some ==> level_rank(historical_of(record))
            >= level_rank(verdict_level(record->0.verdict->0.kind)),
{
}

/// The record with its imported provenance replaced.
pub open spec fn with_imported(
    record: Option<FileRecordView>,
    imported: Option<ImportedProvenanceView>,
) -> Option<FileRecordView> {
    match record {
        Some(record) => Some(FileRecordView { imported, ..record }),
        None => None,
    }
}

/// Imported provenance raises only the historical level: what a claim
/// would reuse and whether it would work are the same with any imported
/// provenance, or none, on either record.
pub proof fn lemma_imports_never_raise_applicable(
    content_record: Option<FileRecordView>,
    metadata: Option<VideoMetaView>,
    file_record: Option<FileRecordView>,
    tools: ToolAvailabilityView,
    settings: SettingsView,
    base: ExecutionSettingsView,
    content_imported: Option<ImportedProvenanceView>,
    file_imported: Option<ImportedProvenanceView>,
)
    ensures
        status_from(
            with_imported(content_record, content_imported),
            metadata,
            with_imported(file_record, file_imported),
            tools,
            settings,
            base,
        ).applicable == status_from(content_record, metadata, file_record, tools, settings, base).applicable,
        status_from(
            with_imported(content_record, content_imported),
            metadata,
            with_imported(file_record, file_imported),
            tools,
            settings,
            base,
        ).analyze == status_from(content_record, metadata, file_record, tools, settings, base).analyze,
        status_from(
            with_imported(content_record, content_imported),
            metadata,
            with_imported(file_record, file_imported),
            tools,
            settings,
            base,
        ).convert == status_from(content_record, metadata, file_record, tools, settings, base).convert,
{
}

/// The records with the imported provenance of the record stored under
/// `key` replaced.
pub open spec fn reimported(
    records: Seq<(ContentKeyView, FileRecordView)>,
    key: ContentKeyView,
    imported: Option<ImportedProvenanceView>,
) -> Seq<(ContentKeyView, FileRecordView)> {
    let index = first_index(records, crate::lookup::keyed(key));
    if index >= 0 {
        records.update(index, (records[index].0, FileRecordView { imported, ..records[index].1 }))
    } else {
        records
    }
}

/// The content a row's facts are about: the scanned content, or the source
/// of a settled output.
pub open spec fn row_content(facts: ScanFactsView) -> ContentKeyView {
    match facts {
        ScanFactsView::Scanned { content_key, .. } => content_key,
        ScanFactsView::SettledOutput { source_content_key, .. } => source_content_key,
    }
}

/// Two sequences whose elements agree on a predicate find the same first
/// match.
proof fn lemma_first_index_agrees<T>(a: Seq<T>, b: Seq<T>, matches: spec_fn(T) -> bool)
    requires
        a.len() == b.len(),
        forall|k: int| 0 <= k < a.len() ==> matches(#[trigger] a[k]) == matches(b[k]),
    ensures
        first_index(a, matches) == first_index(b, matches),
    decreases a.len(),
{
    if a.len() > 0 {
        assert forall|k: int| 0 <= k < a.drop_last().len() implies matches(#[trigger] a.drop_last()[k]) == matches(
            b.drop_last()[k],
        ) by {
            assert(a.drop_last()[k] == a[k] && b.drop_last()[k] == b[k]);
        }
        lemma_first_index_agrees(a.drop_last(), b.drop_last(), matches);
        assert(matches(a.last()) == matches(b.last()));
    }
}

/// Looking a record up after its imported provenance is replaced.
proof fn lemma_lookup_reimported(
    records: Seq<(ContentKeyView, FileRecordView)>,
    key: ContentKeyView,
    imported: Option<ImportedProvenanceView>,
    other: ContentKeyView,
)
    ensures
        lookup(reimported(records, key, imported), other) == if other == key {
            with_imported(lookup(records, key), imported)
        } else {
            lookup(records, other)
        },
{
    let index = first_index(records, crate::lookup::keyed(key));
    crate::lookup::lemma_first_index(records, crate::lookup::keyed(key));
    if index >= 0 {
        let changed = reimported(records, key, imported);
        assert forall|k: int| 0 <= k < records.len() implies crate::lookup::keyed::<ContentKeyView, FileRecordView>(other)(
            #[trigger] records[k],
        ) == crate::lookup::keyed::<ContentKeyView, FileRecordView>(other)(changed[k]) by {
            assert(changed[k].0 == records[k].0);
        }
        lemma_first_index_agrees(records, changed, crate::lookup::keyed(other));
        crate::lookup::lemma_first_index(records, crate::lookup::keyed(other));
        if other == key {
            assert(first_index(records, crate::lookup::keyed(other)) == index);
        } else {
            let found = first_index(records, crate::lookup::keyed(other));
            if found >= 0 {
                assert(found != index);
                assert(changed[found] == records[found]);
            }
        }
    }
}

/// Imported provenance raises only the historical level of a row, for
/// every kind of row: replacing the imported provenance of the row's
/// content leaves what it may apply, what an analysis would do and what a
/// conversion would do unchanged.
pub proof fn lemma_imports_never_raise_row_status(
    state: AppStateView,
    base: ExecutionSettingsView,
    facts: ScanFactsView,
    imported: Option<ImportedProvenanceView>,
)
    ensures
        ({
            let changed = AppStateView {
                durable: crate::DurableStateView {
                    records: reimported(state.durable.records, row_content(facts), imported),
                    ..state.durable
                },
                ..state
            };
            &&& row_status(changed, base, facts).applicable == row_status(state, base, facts).applicable
            &&& row_status(changed, base, facts).analyze == row_status(state, base, facts).analyze
            &&& row_status(changed, base, facts).convert == row_status(state, base, facts).convert
        }),
{
    let records = state.durable.records;
    let key = row_content(facts);
    let (content_record, metadata, file_record) = status_inputs(records, facts);
    lemma_lookup_reimported(records, key, imported, key);
    let file_key = match facts {
        ScanFactsView::Scanned { content_key, .. } => content_key,
        ScanFactsView::SettledOutput { output_content_key, .. } => output_content_key,
    };
    lemma_lookup_reimported(records, key, imported, file_key);
    let file_imported = if file_key == key {
        imported
    } else {
        match file_record {
            Some(record) => record.imported,
            None => None,
        }
    };
    if file_key != key {
        assert(with_imported(file_record, file_imported) == file_record);
    }
    lemma_imports_never_raise_applicable(
        content_record,
        metadata,
        file_record,
        state.tools.availability,
        state.settings,
        base,
        imported,
        file_imported,
    );
}

/// Which rows one applied command may have changed the status of.
#[derive(Clone, Debug, PartialEq, Eq)]
pub enum RefreshScope {
    Nothing,
    /// The rows observing any of these contents; no content twice.
    Content(Vec<ContentKey>),
    Everything,
}

/// The mathematical value of [`RefreshScope`].
pub enum RefreshScopeView {
    Nothing,
    Content(Seq<ContentKeyView>),
    Everything,
}

impl View for RefreshScope {
    type V = RefreshScopeView;

    open spec fn view(&self) -> RefreshScopeView {
        match self {
            RefreshScope::Nothing => RefreshScopeView::Nothing,
            RefreshScope::Content(keys) => RefreshScopeView::Content(views(keys@)),
            RefreshScope::Everything => RefreshScopeView::Everything,
        }
    }
}

/// Whether a row with `facts` lies in `scope`: a settled output lies in it
/// through either of its contents.
pub open spec fn scope_covers(scope: RefreshScopeView, facts: ScanFactsView) -> bool {
    match scope {
        RefreshScopeView::Nothing => false,
        RefreshScopeView::Everything => true,
        RefreshScopeView::Content(keys) => match facts {
            ScanFactsView::Scanned { content_key, .. } => keys.contains(content_key),
            ScanFactsView::SettledOutput { source_content_key, output_content_key, .. } => keys.contains(
                source_content_key,
            ) || keys.contains(output_content_key),
        },
    }
}

impl RefreshScope {
    /// Whether a row with `facts` lies in this scope.
    pub fn covers(&self, facts: &ScanFacts<'_>) -> (covered: bool)
        ensures
            covered == scope_covers(self@, facts@),
    {
        match self {
            RefreshScope::Nothing => false,
            RefreshScope::Everything => true,
            RefreshScope::Content(keys) => match facts {
                ScanFacts::Scanned { content_key, .. } => contains_view(keys, content_key),
                ScanFacts::SettledOutput { source_content_key, output_content_key, .. } => {
                    contains_view(keys, source_content_key) || contains_view(keys, output_content_key)
                },
            },
        }
    }
}

/// Whether some delta replaced the tool picture.
pub open spec fn tools_changed(ephemeral: Seq<EphemeralDeltaView>) -> bool {
    exists|index: int| 0 <= index < ephemeral.len() && #[trigger] ephemeral[index] is ToolsChanged
}

/// The content a durable delta reports new facts about: an observation's
/// content, the content of the run a search or an outcome was recorded for,
/// and an adopted import's content.
pub open spec fn touched_content(state: AppStateView, delta: DurableDeltaView) -> Option<ContentKeyView> {
    match delta {
        DurableDeltaView::MediaObserved { observation } => Some(observation.binding.content_key),
        DurableDeltaView::AnalysisRecorded { run_id, .. } => match run_of(state.durable.conversion_runs, run_id) {
            Some(run) => run.spec.content_key,
            None => None,
        },
        DurableDeltaView::ItemFinished { run_id, .. } => match run_of(state.durable.conversion_runs, run_id) {
            Some(run) => run.spec.content_key,
            None => None,
        },
        DurableDeltaView::ParkedAdopted { content_key, .. } => Some(content_key),
        _ => None,
    }
}

/// The contents the deltas touch, in first-touched order, each once.
pub open spec fn touched_contents(state: AppStateView, deltas: Seq<DurableDeltaView>) -> Seq<ContentKeyView>
    decreases deltas.len(),
{
    if deltas.len() == 0 {
        Seq::empty()
    } else {
        let earlier = touched_contents(state, deltas.drop_last());
        match touched_content(state, deltas.last()) {
            Some(key) => if earlier.contains(key) { earlier } else { earlier.push(key) },
            None => earlier,
        }
    }
}

/// The refresh scope after a command's deltas have folded into `state`:
/// tool changes, and the command-level triggers the caller reports through
/// `everything`, touch every row; durable content facts touch the rows
/// observing that content.
pub open spec fn scope_of(state: AppStateView, applied: AppliedView, everything: bool) -> RefreshScopeView {
    if everything || tools_changed(applied.ephemeral) {
        RefreshScopeView::Everything
    } else {
        let keys = touched_contents(state, applied.durable);
        if keys.len() == 0 {
            RefreshScopeView::Nothing
        } else {
            RefreshScopeView::Content(keys)
        }
    }
}

fn content_touched(state: &AppState, delta: &DurableDelta) -> (touched: Option<ContentKey>)
    ensures
        (match touched { Some(k) => Some(k@), None => None }) == touched_content(state@, delta@),
{
    let run_id = match delta {
        DurableDelta::MediaObserved { observation } => return Some(observation.binding.content_key.duplicate()),
        DurableDelta::ParkedAdopted { content_key, .. } => return Some(content_key.duplicate()),
        DurableDelta::AnalysisRecorded { run_id, .. } => *run_id,
        DurableDelta::ItemFinished { run_id, .. } => *run_id,
        _ => return None,
    };
    proof {
        crate::state::lemma_durable_views(state.durable);
        crate::lookup::lemma_first_index(state@.durable.conversion_runs, run_record(run_id));
    }
    match find_run(&state.durable.conversion_runs, run_id) {
        Some(index) => {
            assert(state@.durable.conversion_runs[index as int] == state.durable.conversion_runs@[index as int]@);
            match &state.durable.conversion_runs[index].spec.content_key {
                Some(key) => Some(key.duplicate()),
                None => None,
            }
        },
        None => None,
    }
}

/// Decide the refresh scope after a command's deltas have folded into
/// `state`. `everything` carries the command-level triggers a caller can
/// only see before folding, such as a change of the base execution.
pub fn refresh_scope(state: &AppState, applied: &Applied, everything: bool) -> (scope: RefreshScope)
    ensures
        scope@ == scope_of(state@, applied@, everything),
{
    let ghost ephemeral = applied@.ephemeral;
    if everything {
        return RefreshScope::Everything;
    }
    let mut index: usize = 0;
    while index < applied.ephemeral.len()
        invariant
            index <= applied.ephemeral.len(),
            ephemeral == applied@.ephemeral,
            forall|k: int| 0 <= k < index ==> !(#[trigger] ephemeral[k] is ToolsChanged),
        decreases applied.ephemeral.len() - index,
    {
        assert(ephemeral[index as int] == applied.ephemeral@[index as int]@);
        if let EphemeralDelta::ToolsChanged(_) = &applied.ephemeral[index] {
            assert(tools_changed(ephemeral));
            return RefreshScope::Everything;
        }
        index += 1;
    }
    assert(!tools_changed(ephemeral));
    let ghost durable = applied@.durable;
    let mut keys: Vec<ContentKey> = Vec::new();
    let mut position: usize = 0;
    while position < applied.durable.len()
        invariant
            position <= applied.durable.len(),
            durable == applied@.durable,
            views(keys@) == touched_contents(state@, durable.take(position as int)),
        decreases applied.durable.len() - position,
    {
        assert(durable.take(position as int + 1).drop_last() =~= durable.take(position as int));
        assert(durable[position as int] == applied.durable@[position as int]@);
        match content_touched(state, &applied.durable[position]) {
            Some(key) => {
                if !contains_view(&keys, &key) {
                    let ghost before = keys@;
                    keys.push(key);
                    assert(views(keys@) =~= views(before).push(key@));
                }
            },
            None => {},
        }
        position += 1;
    }
    assert(durable.take(durable.len() as int) =~= durable);
    if keys.len() == 0 {
        RefreshScope::Nothing
    } else {
        RefreshScope::Content(keys)
    }
}

/// Rows refreshed by one command are published in batches of this size,
/// the bound discovery uses, so a whole-generation refresh never produces
/// one unbounded delta.
pub const ANALYSIS_REFRESH_BATCH_ROWS: usize = 128;

/// The row with a fresh status, if it is an observed file in `scope` whose
/// projected status differs from the one it carries.
pub open spec fn refreshed_row(
    state: AppStateView,
    base: ExecutionSettingsView,
    scope: RefreshScopeView,
    row: AnalysisRowView,
) -> Option<AnalysisRowView> {
    match row.entry {
        AnalysisRowEntryView::File { scan } => match scan_facts(scan) {
            Some(facts) => if scope_covers(scope, facts) && scan_status(scan) != Some(row_status(state, base, facts)) {
                Some(AnalysisRowView {
                    entry: AnalysisRowEntryView::File { scan: scan_with_status(scan, row_status(state, base, facts)) },
                    ..row
                })
            } else {
                None
            },
            None => None,
        },
        AnalysisRowEntryView::Folder { .. } => None,
    }
}

/// The refreshed versions of the rows whose status changed, in row order.
pub open spec fn refreshed_rows(
    state: AppStateView,
    base: ExecutionSettingsView,
    scope: RefreshScopeView,
    rows: Seq<AnalysisRowView>,
) -> Seq<AnalysisRowView>
    decreases rows.len(),
{
    if rows.len() == 0 {
        Seq::empty()
    } else {
        let earlier = refreshed_rows(state, base, scope, rows.drop_last());
        match refreshed_row(state, base, scope, rows.last()) {
            Some(row) => earlier.push(row),
            None => earlier,
        }
    }
}

/// Whether a row has id `id`.
pub open spec fn row_named(id: AnalysisRowId) -> spec_fn(AnalysisRowView) -> bool {
    |row: AnalysisRowView| row.id == id
}

/// The rows of a published delta with pending refreshed versions patched
/// in, each pending row used once; the rows still pending; and whether any
/// row was patched.
pub open spec fn patched_rows(
    rows: Seq<AnalysisRowView>,
    pending: Seq<AnalysisRowView>,
) -> (Seq<AnalysisRowView>, Seq<AnalysisRowView>, bool)
    decreases rows.len(),
{
    if rows.len() == 0 {
        (Seq::empty(), pending, false)
    } else {
        let (front, left, patched) = patched_rows(rows.drop_last(), pending);
        let index = first_index(left, row_named(rows.last().id));
        if index >= 0 {
            (front.push(left[index]), left.remove(index), true)
        } else {
            (front.push(rows.last()), left, patched)
        }
    }
}

/// One delta with pending rows patched in when it publishes rows of
/// `generation`; the rows still pending; and the patched rows, if any row
/// was patched.
pub open spec fn patched_delta(
    delta: EphemeralDeltaView,
    generation: AnalysisGenerationId,
    pending: Seq<AnalysisRowView>,
) -> (EphemeralDeltaView, Seq<AnalysisRowView>, Option<Seq<AnalysisRowView>>) {
    match delta {
        EphemeralDeltaView::Analysis(AnalysisDeltaView::RowsUpserted { generation: published, rows }) => {
            if published == generation {
                let (patched, left, any) = patched_rows(rows, pending);
                (
                    EphemeralDeltaView::Analysis(AnalysisDeltaView::RowsUpserted { generation, rows: patched }),
                    left,
                    if any { Some(patched) } else { None },
                )
            } else {
                (delta, pending, None)
            }
        },
        _ => (delta, pending, None),
    }
}

/// The published deltas with pending rows patched in, the rows still
/// pending, and the snapshot with every patched delta folded again.
pub open spec fn patched_deltas(
    deltas: Seq<EphemeralDeltaView>,
    generation: AnalysisGenerationId,
    pending: Seq<AnalysisRowView>,
    snapshot: AnalysisSnapshotView,
) -> (Seq<EphemeralDeltaView>, Seq<AnalysisRowView>, AnalysisSnapshotView)
    decreases deltas.len(),
{
    if deltas.len() == 0 {
        (Seq::empty(), pending, snapshot)
    } else {
        let (front, left, folded) = patched_deltas(deltas.drop_last(), generation, pending, snapshot);
        let (delta, rest, patched) = patched_delta(deltas.last(), generation, left);
        (
            front.push(delta),
            rest,
            match patched {
                Some(rows) => fold_analysis_spec(folded, AnalysisDeltaView::RowsUpserted { generation, rows }),
                None => folded,
            },
        )
    }
}

/// The size of the next batch of `rows`.
pub open spec fn batch_size(rows: Seq<AnalysisRowView>) -> int {
    if rows.len() < ANALYSIS_REFRESH_BATCH_ROWS { rows.len() as int } else { ANALYSIS_REFRESH_BATCH_ROWS as int }
}

/// The deltas that publish `rows` in bounded batches, in order.
pub open spec fn batch_deltas(generation: AnalysisGenerationId, rows: Seq<AnalysisRowView>) -> Seq<EphemeralDeltaView>
    decreases rows.len(),
{
    if rows.len() == 0 {
        Seq::empty()
    } else {
        seq![EphemeralDeltaView::Analysis(AnalysisDeltaView::RowsUpserted {
            generation,
            rows: rows.take(batch_size(rows)),
        })] + batch_deltas(generation, rows.skip(batch_size(rows)))
    }
}

/// The snapshot after folding the batches of `rows`, in order.
pub open spec fn folded_batches(
    snapshot: AnalysisSnapshotView,
    generation: AnalysisGenerationId,
    rows: Seq<AnalysisRowView>,
) -> AnalysisSnapshotView
    decreases rows.len(),
{
    if rows.len() == 0 {
        snapshot
    } else {
        folded_batches(
            fold_analysis_spec(
                snapshot,
                AnalysisDeltaView::RowsUpserted { generation, rows: rows.take(batch_size(rows)) },
            ),
            generation,
            rows.skip(batch_size(rows)),
        )
    }
}

/// The state and the applied command after refreshing the statuses of the
/// rows in `scope`. Rows the command already published are patched in
/// place, so one command never carries two versions of a row; the rest go
/// out in bounded batches after it. A generation that has ended is left as
/// it ended.
pub open spec fn refreshed(
    state: AppStateView,
    applied: AppliedView,
    scope: RefreshScopeView,
    base: ExecutionSettingsView,
) -> (AppStateView, AppliedView) {
    match scope {
        RefreshScopeView::Nothing => (state, applied),
        _ => match state.analysis.current {
            None => (state, applied),
            Some(current) => if !current.activity.is_live() {
                (state, applied)
            } else {
                let updates = refreshed_rows(state, base, scope, current.rows);
                if updates.len() == 0 {
                    (state, applied)
                } else {
                    let (deltas, left, snapshot) = patched_deltas(applied.ephemeral, current.id, updates, state.analysis);
                    (
                        AppStateView { analysis: folded_batches(snapshot, current.id, left), ..state },
                        AppliedView { ephemeral: deltas + batch_deltas(current.id, left), ..applied },
                    )
                }
            },
        },
    }
}

fn collect_refreshed(
    state: &AppState,
    rows: &Vec<AnalysisRow>,
    scope: &RefreshScope,
    base: &ExecutionSettings,
) -> (updates: Vec<AnalysisRow>)
    ensures
        views(updates@) == refreshed_rows(state@, base@, scope@, views(rows@)),
{
    let ghost all = views(rows@);
    let mut updates: Vec<AnalysisRow> = Vec::new();
    let mut index: usize = 0;
    while index < rows.len()
        invariant
            index <= rows.len(),
            all == views(rows@),
            views(updates@) == refreshed_rows(state@, base@, scope@, all.take(index as int)),
        decreases rows.len() - index,
    {
        assert(all.take(index as int + 1).drop_last() =~= all.take(index as int));
        assert(all[index as int] == rows@[index as int]@);
        let row = &rows[index];
        if let AnalysisRowEntry::File { scan } = &row.entry {
            if let Some(facts) = scan.facts() {
                if scope.covers(&facts) {
                    let status = project_row_status(state, base, facts);
                    let changed = match scan.status() {
                        Some(current) => *current != status,
                        None => true,
                    };
                    if changed {
                        let ghost before = updates@;
                        updates.push(AnalysisRow {
                            id: row.id,
                            parent: row.parent,
                            entry: AnalysisRowEntry::File { scan: scan.with_status(status) },
                            display_name: row.display_name.duplicate(),
                            display_path: row.display_path.duplicate(),
                        });
                        assert(views(updates@) =~= views(before).push(updates@.last()@));
                    }
                }
            }
        }
        index += 1;
    }
    assert(all.take(rows.len() as int) =~= all);
    updates
}

fn pending_position(pending: &Vec<AnalysisRow>, id: AnalysisRowId) -> (position: Option<usize>)
    ensures
        match position {
            Some(index) => index < pending.len() && index as int == first_index(views(pending@), row_named(id)),
            None => first_index(views(pending@), row_named(id)) == -1,
        },
{
    let ghost rows = views(pending@);
    let mut index: usize = 0;
    while index < pending.len()
        invariant
            index <= pending.len(),
            rows == views(pending@),
            forall|k: int| 0 <= k < index ==> !(#[trigger] row_named(id)(rows[k])),
        decreases pending.len() - index,
    {
        assert(rows[index as int] == pending@[index as int]@);
        if pending[index].id == id {
            proof {
                lemma_first_index_is(rows, row_named(id), index as int);
            }
            return Some(index);
        }
        index += 1;
    }
    proof {
        lemma_first_index_none(rows, row_named(id));
    }
    None
}

fn patch_rows(rows: &Vec<AnalysisRow>, pending: &mut Vec<AnalysisRow>) -> (result: (Vec<AnalysisRow>, bool))
    ensures
        (views(result.0@), views(final(pending)@), result.1) == patched_rows(views(rows@), views(old(pending)@)),
{
    let ghost all = views(rows@);
    let ghost start = views(pending@);
    let mut patched: Vec<AnalysisRow> = Vec::new();
    let mut any = false;
    let mut index: usize = 0;
    while index < rows.len()
        invariant
            index <= rows.len(),
            all == views(rows@),
            (views(patched@), views(pending@), any) == patched_rows(all.take(index as int), start),
        decreases rows.len() - index,
    {
        assert(all.take(index as int + 1).drop_last() =~= all.take(index as int));
        assert(all[index as int] == rows@[index as int]@);
        let ghost before = patched@;
        let ghost waiting = pending@;
        match pending_position(pending, rows[index].id) {
            Some(position) => {
                let update = pending.remove(position);
                assert(views(pending@) =~= views(waiting).remove(position as int));
                patched.push(update);
                any = true;
            },
            None => {
                patched.push(rows[index].duplicate());
            },
        }
        assert(views(patched@) =~= views(before).push(patched@.last()@));
        index += 1;
    }
    assert(all.take(rows.len() as int) =~= all);
    (patched, any)
}

fn patch_published(
    state: &mut AppState,
    applied: &mut Applied,
    generation: AnalysisGenerationId,
    pending: &mut Vec<AnalysisRow>,
)
    ensures
        ({
            let (deltas, left, snapshot) = patched_deltas(old(applied)@.ephemeral, generation, views(old(pending)@), old(state)@.analysis);
            &&& final(applied)@ == (AppliedView { ephemeral: deltas, ..old(applied)@ })
            &&& views(final(pending)@) == left
            &&& final(state)@ == (AppStateView { analysis: snapshot, ..old(state)@ })
        }),
{
    let ghost published = old(applied)@.ephemeral;
    let ghost start = views(pending@);
    let ghost initial = state@;
    let mut deltas: Vec<EphemeralDelta> = Vec::new();
    let mut index: usize = 0;
    while index < applied.ephemeral.len()
        invariant
            index <= applied.ephemeral.len(),
            published == applied@.ephemeral,
            ({
                let (front, left, snapshot) = patched_deltas(published.take(index as int), generation, start, initial.analysis);
                &&& views(deltas@) == front
                &&& views(pending@) == left
                &&& state@ == (AppStateView { analysis: snapshot, ..initial })
            }),
        decreases applied.ephemeral.len() - index,
    {
        assert(published.take(index as int + 1).drop_last() =~= published.take(index as int));
        assert(published[index as int] == applied.ephemeral@[index as int]@);
        let ghost before = deltas@;
        let delta = &applied.ephemeral[index];
        let mut handled = false;
        if let EphemeralDelta::Analysis(AnalysisDelta::RowsUpserted { generation: current, rows }) = delta {
            if *current == generation {
                let (patched, any) = patch_rows(rows, pending);
                let upserted = AnalysisDelta::RowsUpserted { generation, rows: patched };
                if any {
                    fold_analysis(&mut state.analysis, &upserted);
                }
                deltas.push(EphemeralDelta::Analysis(upserted));
                handled = true;
            }
        }
        if !handled {
            deltas.push(delta.duplicate());
        }
        assert(views(deltas@) =~= views(before).push(deltas@.last()@));
        index += 1;
    }
    assert(published.take(published.len() as int) =~= published);
    applied.ephemeral = deltas;
}

fn publish_batches(
    state: &mut AppState,
    applied: &mut Applied,
    generation: AnalysisGenerationId,
    pending: Vec<AnalysisRow>,
)
    ensures
        final(applied)@ == (AppliedView {
            ephemeral: old(applied)@.ephemeral + batch_deltas(generation, views(pending@)),
            ..old(applied)@
        }),
        final(state)@ == (AppStateView {
            analysis: folded_batches(old(state)@.analysis, generation, views(pending@)),
            ..old(state)@
        }),
{
    let ghost all = views(pending@);
    let ghost target_deltas = old(applied)@.ephemeral + batch_deltas(generation, all);
    let ghost target_analysis = folded_batches(old(state)@.analysis, generation, all);
    let ghost initial_state = state@;
    let ghost initial_applied = applied@;
    assert(all.skip(0) =~= all);
    assert(views(applied.ephemeral@) =~= applied@.ephemeral);
    let mut start: usize = 0;
    while start < pending.len()
        invariant
            start <= pending.len(),
            all == views(pending@),
            views(applied.ephemeral@) + batch_deltas(generation, all.skip(start as int)) == target_deltas,
            folded_batches(state@.analysis, generation, all.skip(start as int)) == target_analysis,
            applied@ == (AppliedView { ephemeral: applied@.ephemeral, ..initial_applied }),
            state@ == (AppStateView { analysis: state@.analysis, ..initial_state }),
        decreases pending.len() - start,
    {
        let remaining = pending.len() - start;
        let size = if remaining < ANALYSIS_REFRESH_BATCH_ROWS { remaining } else { ANALYSIS_REFRESH_BATCH_ROWS };
        let ghost rest = all.skip(start as int);
        assert(batch_size(rest) == size);
        let mut rows: Vec<AnalysisRow> = Vec::new();
        let mut offset: usize = 0;
        while offset < size
            invariant
                offset <= size,
                start + size <= pending.len(),
                all == views(pending@),
                views(rows@) == all.subrange(start as int, start + offset),
            decreases size - offset,
        {
            let ghost before = rows@;
            rows.push(pending[start + offset].duplicate());
            assert(views(rows@) =~= views(before).push(all[start + offset]));
            assert(all.subrange(start as int, start + offset + 1) =~= all.subrange(start as int, start + offset).push(all[start + offset]));
            offset += 1;
        }
        assert(rest.take(size as int) =~= all.subrange(start as int, start + size));
        assert(rest.skip(size as int) =~= all.skip(start + size));
        let delta = AnalysisDelta::RowsUpserted { generation, rows };
        fold_analysis(&mut state.analysis, &delta);
        let ghost before = applied.ephemeral@;
        applied.ephemeral.push(EphemeralDelta::Analysis(delta));
        assert(views(applied.ephemeral@) =~= views(before).push(applied.ephemeral@.last()@));
        assert(batch_deltas(generation, rest) =~= seq![applied.ephemeral@.last()@] + batch_deltas(generation, all.skip(start + size)));
        start = start + size;
    }
    assert(all.skip(pending.len() as int) =~= Seq::<AnalysisRowView>::empty());
}

/// Re-project every row of a live generation that `scope` covers, from the
/// state and the base execution claims start from, and publish the rows
/// whose status changed. A row this command already published is patched
/// in place, so one command never carries two versions of a row; the rest
/// go out in bounded batches after it. A generation that has ended is left
/// as it ended.
pub fn refresh_analysis_rows(
    state: &mut AppState,
    applied: &mut Applied,
    scope: &RefreshScope,
    base: &ExecutionSettings,
)
    ensures
        (final(state)@, final(applied)@) == refreshed(old(state)@, old(applied)@, scope@, base@),
{
    if let RefreshScope::Nothing = scope {
        return;
    }
    let (generation, mut updates) = {
        let current = match &state.analysis.current {
            Some(current) => current,
            None => return,
        };
        if !current.activity.is_live() {
            return;
        }
        (current.id, collect_refreshed(state, &current.rows, scope, base))
    };
    if updates.len() == 0 {
        return;
    }
    patch_published(state, applied, generation, &mut updates);
    publish_batches(state, applied, generation, updates);
}

} // verus!
