//! Read-model projections over the durable state: the flattened facts per
//! decided content, the calendar day of an instant, and the History rows.

use vstd::prelude::*;

use crate::key_order::{parked_by_path, parked_in_path_order, records_by_key, records_in_key_order};

use crate::constants::{DEFAULT_VMAF_TARGET, MIN_VMAF_FALLBACK_TARGET};
use crate::lookup::{entry_views, find_key, lookup};
use crate::model::{views, Duplicate, SameView};
use crate::observation::phase_total;
use crate::output::{find_output, transaction_of};
use crate::state::{find_run, lemma_durable_views, live_sizes, run_of};
use crate::{
    AnalysisResult, AnalysisResultView, AudioCodec, AudioCodecView, AudioStreamMeta,
    AudioStreamMetaView, CompletionEvidence, ContentKey, ContentKeyView, ConversionRun,
    ConversionRunView, DurableState, DurableStateView, FileRecord, FileRecordView, HistoryRow,
    HistoryRowKey, HistoryRowKeyView, HistoryRowView, HistoryStatus, HistoryStatusView, ImportPath,
    ImportPathView, ItemOutcome, ItemOutcomeView, JobPhase, ParkedRecord, ParkedRecordView,
    ParkedStatus, RunId, StatFact, StatFactKind, StatFactView, UnixMillis, Verdict, VerdictKind,
    VerdictKindView, VerdictView, VmafTarget, RunTotals,
};

verus! {

impl StatFact {
    /// Savings in bytes when both sizes are known; negative when the output
    /// grew.
    pub fn saved_bytes(&self) -> (saved: Option<i128>)
        ensures
            saved == match (self.input_size_bytes, self.output_size_bytes) {
                (Some(input), Some(output)) => Some((input - output) as i128),
                _ => None,
            },
    {
        match (self.input_size_bytes, self.output_size_bytes) {
            (Some(input), Some(output)) => Some(input as i128 - output as i128),
            _ => None,
        }
    }
}

/// The sizes live evidence of the verdict's run measured.
pub open spec fn evidence_sizes_of(run: Option<ConversionRunView>) -> Option<(u64, u64)> {
    match run {
        Some(found) => match found.outcome {
            Some(ItemOutcomeView::Converted(evidence)) => live_sizes(evidence),
            Some(ItemOutcomeView::Remuxed(evidence)) => live_sizes(evidence),
            _ => None,
        },
        None => None,
    }
}

/// The sizes the settled transaction of the verdict's run records.
pub open spec fn settled_sizes(state: DurableStateView, verdict: VerdictView) -> Option<(u64, u64)> {
    match verdict.source_run {
        Some(run_id) => match transaction_of(state.outputs, run_id) {
            Some(transaction) => match transaction.promoted() {
                Some(artifact) => Some((transaction.input_identity.destructive.size, artifact.destructive.size)),
                None => None,
            },
            None => None,
        },
        None => None,
    }
}

/// The sizes a verdict itself carries.
pub open spec fn carried_sizes(verdict: VerdictView) -> (Option<u64>, Option<u64>) {
    match verdict.kind {
        VerdictKindView::Converted { input_size, output_size, .. } => (input_size, output_size),
        VerdictKindView::Remuxed { input_size, output_size, .. } => (input_size, output_size),
        VerdictKindView::NotWorthwhile { .. } => (None, None),
    }
}

/// The input and output sizes of a verdict, taken from the run's evidence
/// when it has any, else from the settled output transaction, else from
/// the verdict itself with the record's inspected size for a missing input.
pub open spec fn joined(
    verdict: VerdictView,
    run: Option<ConversionRunView>,
    state: DurableStateView,
    record: FileRecordView,
) -> (Option<u64>, Option<u64>) {
    match evidence_sizes_of(run) {
        Some((input, output)) => (Some(input), Some(output)),
        None => match settled_sizes(state, verdict) {
            Some((input, output)) => (Some(input), Some(output)),
            None => {
                let (input, output) = carried_sizes(verdict);
                (
                    if input is Some {
                        input
                    } else {
                        Some(record.metadata.size_bytes)
                    },
                    output,
                )
            },
        },
    }
}

fn joined_sizes(
    verdict: &Verdict,
    run: Option<&ConversionRun>,
    state: &DurableState,
    record: &FileRecord,
) -> (sizes: (Option<u64>, Option<u64>))
    ensures
        sizes == joined(verdict@, match run { Some(r) => Some(r@), None => None }, state@, record@),
{
    proof {
        lemma_durable_views(*state);
    }
    if let Some(found) = run {
        let evidence = match &found.outcome {
            Some(ItemOutcome::Converted(evidence)) | Some(ItemOutcome::Remuxed(evidence)) => Some(*evidence),
            _ => None,
        };
        if let Some(evidence) = evidence {
            match evidence {
                CompletionEvidence::LiveEncode { input_size, output_size, .. }
                | CompletionEvidence::LiveRemux { input_size, output_size } => {
                    return (Some(input_size), Some(output_size));
                },
                CompletionEvidence::RecoveredAtStartup => {},
            }
        }
    }
    if let Some(run_id) = verdict.source_run {
        if let Some(index) = find_output(&state.outputs, run_id) {
            assert(state@.outputs[index as int] == state.outputs@[index as int]@);
            let transaction = &state.outputs[index];
            if let Some(artifact) = transaction.promoted_identity() {
                return (Some(transaction.input_identity.destructive.size), Some(artifact.destructive.size));
            }
        }
    }
    let (input, output) = match &verdict.kind {
        VerdictKind::Converted { input_size, output_size, .. } | VerdictKind::Remuxed { input_size, output_size, .. } => (
            *input_size,
            *output_size,
        ),
        VerdictKind::NotWorthwhile { .. } => (None, None),
    };
    (
        match input {
            Some(size) => Some(size),
            None => Some(record.metadata.size_bytes),
        },
        output,
    )
}

/// Measured analysis and encoding time of a run, zero without one.
pub open spec fn phase_totals_of(run: Option<ConversionRunView>) -> (u64, u64) {
    match run {
        Some(found) => (phase_total(found.phase_spans, JobPhase::Analyzing), phase_total(found.phase_spans, JobPhase::Encoding)),
        None => (0, 0),
    }
}

/// Measured analysis and encoding time of a run, zero without one.
pub fn phase_totals(run: Option<&ConversionRun>) -> (totals: (u64, u64))
    ensures
        totals == phase_totals_of(match run { Some(r) => Some(r@), None => None }),
{
    let found = match run {
        Some(found) => found,
        None => {
            return (0, 0);
        },
    };
    let spans = &found.phase_spans;
    let mut analyzing: u64 = 0;
    let mut encoding: u64 = 0;
    let mut index: usize = 0;
    while index < spans.len()
        invariant
            index <= spans.len(),
            analyzing == phase_total(spans@.subrange(0, index as int), JobPhase::Analyzing),
            encoding == phase_total(spans@.subrange(0, index as int), JobPhase::Encoding),
        decreases spans.len() - index,
    {
        assert(spans@.subrange(0, index as int + 1).drop_last() =~= spans@.subrange(0, index as int));
        match spans[index].phase {
            JobPhase::Analyzing => {
                analyzing = analyzing.saturating_add(spans[index].duration.0);
            },
            JobPhase::Encoding => {
                encoding = encoding.saturating_add(spans[index].duration.0);
            },
            _ => {},
        }
        index += 1;
    }
    assert(spans@.subrange(0, spans.len() as int) =~= spans@);
    (analyzing, encoding)
}

/// The run a verdict names, when it still exists.
pub open spec fn verdict_run(state: DurableStateView, verdict: VerdictView) -> Option<ConversionRunView> {
    match verdict.source_run {
        Some(run_id) => run_of(state.conversion_runs, run_id),
        None => None,
    }
}

/// The measured summary a converted verdict carries.
pub open spec fn carried_summary(verdict: VerdictView) -> (Option<crate::DurationMs>, Option<crate::Crf>, Option<crate::VmafScore>) {
    match verdict.kind {
        VerdictKindView::Converted { encoding_time, crf, vmaf, .. } => (encoding_time, crf, vmaf),
        _ => (None, None, None),
    }
}

/// The flattened fact of a decided content.
pub open spec fn stat_fact_of(state: DurableStateView, key: ContentKeyView, record: FileRecordView) -> Option<StatFactView> {
    match record.verdict {
        None => None,
        Some(verdict) => {
            let run = verdict_run(state, verdict);
            let sizes = joined(verdict, run, state, record);
            let totals = phase_totals_of(run);
            let (carried_time, carried_crf, carried_vmaf) = carried_summary(verdict);
            let kind = match verdict.kind {
                VerdictKindView::Converted { .. } => StatFactKind::Converted,
                VerdictKindView::Remuxed { .. } => StatFactKind::Remuxed,
                VerdictKindView::NotWorthwhile { requested, floor } => StatFactKind::NotWorthwhile { requested, floor },
            };
            let measurement = match run {
                Some(found) => match found.analysis {
                    Some(analysis) => if kind == StatFactKind::Converted {
                        Some(analysis.measurement)
                    } else {
                        None
                    },
                    None => None,
                },
                None => None,
            };
            Some(
                StatFactView {
                    content_key: key,
                    kind,
                    source_run: verdict.source_run,
                    finished_at: match run {
                        Some(found) => match found.finished_at {
                            Some(at) => at,
                            None => verdict.decided_at,
                        },
                        None => verdict.decided_at,
                    },
                    codec: record.metadata.codec,
                    width: record.metadata.width,
                    height: record.metadata.height,
                    duration_ms: record.metadata.duration_ms,
                    input_size_bytes: sizes.0,
                    output_size_bytes: sizes.1,
                    analyzing_ms: totals.0,
                    encoding_ms: if run is None {
                        match carried_time {
                            Some(time) => time.0,
                            None => totals.1,
                        }
                    } else {
                        totals.1
                    },
                    vmaf: match measurement {
                        Some(found) => Some(found.score),
                        None => carried_vmaf,
                    },
                    crf: match measurement {
                        Some(found) => Some(found.crf),
                        None => carried_crf,
                    },
                },
            )
        },
    }
}

/// The flattened facts of the decided contents, in record order.
pub open spec fn stat_facts_of(state: DurableStateView, records: Seq<(ContentKeyView, FileRecordView)>) -> Seq<StatFactView>
    decreases records.len(),
{
    if records.len() == 0 {
        Seq::empty()
    } else {
        let earlier = stat_facts_of(state, records.drop_last());
        match stat_fact_of(state, records.last().0, records.last().1) {
            Some(fact) => earlier.push(fact),
            None => earlier,
        }
    }
}

fn run_named<'a>(state: &'a DurableState, verdict: &Verdict) -> (run: Option<&'a ConversionRun>)
    ensures
        match run {
            Some(found) => verdict_run(state@, verdict@) == Some(found@),
            None => verdict_run(state@, verdict@) is None,
        },
{
    proof {
        lemma_durable_views(*state);
    }
    match verdict.source_run {
        Some(run_id) => match find_run(&state.conversion_runs, run_id) {
            Some(index) => {
                assert(state@.conversion_runs[index as int] == state.conversion_runs@[index as int]@);
                Some(&state.conversion_runs[index])
            },
            None => None,
        },
        None => None,
    }
}

fn stat_fact(state: &DurableState, key: &ContentKey, record: &FileRecord) -> (fact: Option<StatFact>)
    ensures
        match fact {
            Some(found) => stat_fact_of(state@, key@, record@) == Some(found@),
            None => stat_fact_of(state@, key@, record@) is None,
        },
{
    let verdict = match &record.verdict {
        Some(verdict) => verdict,
        None => {
            return None;
        },
    };
    let run = run_named(state, verdict);
    let (input_size_bytes, output_size_bytes) = joined_sizes(verdict, run, state, record);
    let (analyzing_ms, encoding_ms) = phase_totals(run);
    let (carried_time, carried_crf, carried_vmaf) = match &verdict.kind {
        VerdictKind::Converted { encoding_time, crf, vmaf, .. } => (*encoding_time, *crf, *vmaf),
        _ => (None, None, None),
    };
    let kind = match &verdict.kind {
        VerdictKind::Converted { .. } => StatFactKind::Converted,
        VerdictKind::Remuxed { .. } => StatFactKind::Remuxed,
        VerdictKind::NotWorthwhile { requested, floor } => StatFactKind::NotWorthwhile { requested: *requested, floor: *floor },
    };
    let converted = match kind {
        StatFactKind::Converted => true,
        _ => false,
    };
    let measurement = match run {
        Some(found) => match &found.analysis {
            Some(analysis) => if converted {
                Some(analysis.measurement)
            } else {
                None
            },
            None => None,
        },
        None => None,
    };
    let finished_at = match run {
        Some(found) => match found.finished_at {
            Some(at) => at,
            None => verdict.decided_at,
        },
        None => verdict.decided_at,
    };
    let encoding_ms = if run.is_none() {
        match carried_time {
            Some(time) => time.0,
            None => encoding_ms,
        }
    } else {
        encoding_ms
    };
    Some(
        StatFact {
            content_key: key.duplicate(),
            kind,
            source_run: verdict.source_run,
            finished_at,
            codec: record.metadata.codec.duplicate(),
            width: record.metadata.width,
            height: record.metadata.height,
            duration_ms: record.metadata.duration_ms,
            input_size_bytes,
            output_size_bytes,
            analyzing_ms,
            encoding_ms,
            vmaf: match measurement {
                Some(found) => Some(found.score),
                None => carried_vmaf,
            },
            crf: match measurement {
                Some(found) => Some(found.crf),
                None => carried_crf,
            },
        },
    )
}

/// Flatten every content with a standing verdict into one fact, in
/// ascending content-key order, joining sizes in evidence,
/// settled-transaction, metadata order.
#[verifier::loop_isolation(false)]
pub fn collect_stat_facts(state: &DurableState) -> (facts: Vec<StatFact>)
    ensures
        views(facts@) == stat_facts_of(state@, records_by_key(state@.records)),
{
    proof {
        lemma_durable_views(*state);
    }
    let order = records_in_key_order(&state.records);
    let ghost records = state@.records;
    let ghost sorted = records_by_key(records);
    assert(sorted.len() == order.len());
    let mut facts: Vec<StatFact> = Vec::new();
    let mut index: usize = 0;
    while index < order.len()
        invariant
            index <= order.len(),
            records == state@.records,
            records == entry_views(state.records@),
            sorted == records_by_key(records),
            views(facts@) == stat_facts_of(state@, sorted.subrange(0, index as int)),
        decreases order.len() - index,
    {
        assert(sorted.subrange(0, index as int + 1).drop_last() =~= sorted.subrange(0, index as int));
        let at = order[index];
        assert(sorted[index as int] == records[at as int]);
        assert(records[at as int] == state.records@[at as int]@);
        if let Some(fact) = stat_fact(state, &state.records[at].0, &state.records[at].1) {
            let ghost prior = views(facts@);
            facts.push(fact);
            assert(views(facts@) =~= prior.push(fact@));
        }
        index += 1;
    }
    assert(sorted.subrange(0, sorted.len() as int) =~= sorted);
    facts
}

/// Milliseconds in a day.
pub const MILLIS_PER_DAY: i128 = 86_400_000i128;

/// Milliseconds in a minute.
pub const MILLIS_PER_MINUTE: i128 = 60_000i128;

/// The calendar day, counted from the Unix epoch, of an instant in the
/// timezone `utc_offset_minutes` east of UTC.
pub open spec fn epoch_day(at: UnixMillis, utc_offset_minutes: i32) -> int {
    (at.0 + utc_offset_minutes * MILLIS_PER_MINUTE) / (MILLIS_PER_DAY as int)
}

/// Calendar day of an instant in the timezone `utc_offset_minutes` east of
/// UTC.
pub fn local_epoch_day(at: UnixMillis, utc_offset_minutes: i32) -> (day: i64)
    ensures
        day == epoch_day(at, utc_offset_minutes),
{
    let offset: i128 = utc_offset_minutes as i128 * MILLIS_PER_MINUTE;
    let local: i128 = at.0 as i128 + offset;
    let ghost exact = local as int / MILLIS_PER_DAY as int;
    if local >= 0 {
        let quotient: u128 = local as u128 / 86_400_000u128;
        assert(quotient == exact) by (nonlinear_arith)
            requires
                local >= 0,
                quotient == local as u128 / 86_400_000u128,
                exact == local as int / 86_400_000int,
        {
        }
        assert(local <= 18_446_744_073_709_551_615 + 2_147_483_647 * 60_000);
        proof {
            vstd::arithmetic::div_mod::lemma_fundamental_div_mod(local as int, 86_400_000int);
        }
        assert(quotient <= 300_000_000_000u128);
        quotient as i64
    } else {
        let magnitude: u128 = (0 - local) as u128;
        let ceiling: u128 = (magnitude + 86_399_999u128) / 86_400_000u128;
        assert(0 - (ceiling as int) == exact) by (nonlinear_arith)
            requires
                local < 0,
                magnitude == 0 - local,
                ceiling == (magnitude + 86_399_999) / 86_400_000,
                exact == local as int / 86_400_000int,
        {
        }
        assert(magnitude <= 2_147_483_648 * 60_000);
        assert(ceiling <= 2_000_000u128) by (nonlinear_arith)
            requires
                magnitude <= 2_147_483_648 * 60_000,
                ceiling == (magnitude + 86_399_999) / 86_400_000,
        {
        }
        0i64 - ceiling as i64
    }
}

/// The status an imported record reports, if any: a scanned record has
/// nothing to report.
pub open spec fn import_status(imported: ParkedRecordView) -> Option<HistoryStatusView> {
    match imported.status {
        ParkedStatus::Converted => Some(HistoryStatusView::Converted),
        ParkedStatus::NotWorthwhile => Some(
            HistoryStatusView::NotWorthwhile {
                requested: match imported.requested_target {
                    Some(target) => target,
                    None => VmafTarget(DEFAULT_VMAF_TARGET),
                },
                floor: match imported.floor_target {
                    Some(target) => target,
                    None => VmafTarget(MIN_VMAF_FALLBACK_TARGET),
                },
            },
        ),
        ParkedStatus::Analyzed => Some(HistoryStatusView::Analyzed),
        ParkedStatus::Scanned => None,
    }
}

fn imported_status(imported: &ParkedRecord) -> (status: Option<HistoryStatus>)
    ensures
        match status {
            Some(found) => import_status(imported@) == Some(found@),
            None => import_status(imported@) is None,
        },
{
    match imported.status {
        ParkedStatus::Converted => Some(HistoryStatus::Converted),
        ParkedStatus::NotWorthwhile => Some(
            HistoryStatus::NotWorthwhile {
                requested: match imported.requested_target {
                    Some(target) => target,
                    None => VmafTarget(DEFAULT_VMAF_TARGET),
                },
                floor: match imported.floor_target {
                    Some(target) => target,
                    None => VmafTarget(MIN_VMAF_FALLBACK_TARGET),
                },
            },
        ),
        ParkedStatus::Analyzed => Some(HistoryStatus::Analyzed),
        ParkedStatus::Scanned => None,
    }
}

/// The row of an imported record: only the facts it carried.
pub open spec fn imported_row_of(key: HistoryRowKeyView, imported: ParkedRecordView, status: HistoryStatusView) -> HistoryRowView {
    HistoryRowView {
        key,
        status,
        source_run: None,
        happened_at: Some(imported.decided_at),
        codec: imported.video_codec,
        container: None,
        width: imported.width,
        height: imported.height,
        duration_ms: imported.duration_ms,
        audio: None,
        input_size_bytes: imported.size,
        output_size_bytes: imported.output_size,
        encoding_time_ms: match imported.encoding_time {
            Some(time) => Some(time.0),
            None => None,
        },
        vmaf: imported.vmaf,
        crf: imported.crf,
    }
}

fn imported_row(key: HistoryRowKey, imported: &ParkedRecord, status: HistoryStatus) -> (row: HistoryRow)
    ensures
        row@ == imported_row_of(key@, imported@, status@),
{
    HistoryRow {
        key,
        status,
        source_run: None,
        happened_at: Some(imported.decided_at),
        codec: match &imported.video_codec {
            Some(codec) => Some(codec.duplicate()),
            None => None,
        },
        container: None,
        width: imported.width,
        height: imported.height,
        duration_ms: imported.duration_ms,
        audio: None,
        input_size_bytes: imported.size,
        output_size_bytes: imported.output_size,
        encoding_time_ms: match imported.encoding_time {
            Some(time) => Some(time.0),
            None => None,
        },
        vmaf: imported.vmaf,
        crf: imported.crf,
    }
}

/// The audio codecs of a file's streams, in order.
pub open spec fn audio_codecs(audio: Seq<crate::AudioStreamMetaView>) -> Seq<AudioCodecView> {
    audio.map_values(|stream: crate::AudioStreamMetaView| stream.codec)
}

/// The row of a content with the record's own media facts.
pub open spec fn base_row_of(key: ContentKeyView, record: FileRecordView, status: HistoryStatusView) -> HistoryRowView {
    HistoryRowView {
        key: HistoryRowKeyView::Content(key),
        status,
        source_run: None,
        happened_at: None,
        codec: Some(record.metadata.codec),
        container: Some(record.metadata.container),
        width: Some(record.metadata.displayed_dimensions().0),
        height: Some(record.metadata.displayed_dimensions().1),
        duration_ms: Some(record.metadata.duration_ms),
        audio: Some(audio_codecs(record.metadata.audio)),
        input_size_bytes: Some(record.metadata.size_bytes),
        output_size_bytes: None,
        encoding_time_ms: None,
        vmaf: None,
        crf: None,
    }
}

fn base_row(key: &ContentKey, record: &FileRecord, status: HistoryStatus) -> (row: HistoryRow)
    ensures
        row@ == base_row_of(key@, record@, status@),
{
    let (width, height) = record.metadata.post_rotation_dimensions();
    let ghost streams = views(record.metadata.audio@);
    let mut audio: Vec<AudioCodec> = Vec::new();
    let mut index: usize = 0;
    while index < record.metadata.audio.len()
        invariant
            index <= record.metadata.audio.len(),
            streams == views(record.metadata.audio@),
            views(audio@) == audio_codecs(streams.subrange(0, index as int)),
        decreases record.metadata.audio.len() - index,
    {
        assert(streams[index as int] == record.metadata.audio@[index as int]@);
        let ghost prior = views(audio@);
        let codec = record.metadata.audio[index].codec.duplicate();
        audio.push(codec);
        assert(views(audio@) =~= prior.push(streams[index as int].codec));
        assert(audio_codecs(streams.subrange(0, index as int + 1)) =~= audio_codecs(streams.subrange(0, index as int)).push(
            streams[index as int].codec,
        ));
        index += 1;
    }
    assert(streams.subrange(0, streams.len() as int) =~= streams);
    assert(record@.metadata.audio =~= streams);
    HistoryRow {
        key: HistoryRowKey::Content(key.duplicate()),
        status,
        source_run: None,
        happened_at: None,
        codec: Some(record.metadata.codec.duplicate()),
        container: Some(record.metadata.container.duplicate()),
        width: Some(width),
        height: Some(height),
        duration_ms: Some(record.metadata.duration_ms),
        audio: Some(audio),
        input_size_bytes: Some(record.metadata.size_bytes),
        output_size_bytes: None,
        encoding_time_ms: None,
        vmaf: None,
        crf: None,
    }
}

/// The row of a content with a standing verdict.
pub open spec fn verdict_row_of(state: DurableStateView, key: ContentKeyView, record: FileRecordView, verdict: VerdictView) -> HistoryRowView {
    let status = match verdict.kind {
        VerdictKindView::Converted { .. } => HistoryStatusView::Converted,
        VerdictKindView::Remuxed { .. } => HistoryStatusView::Remuxed,
        VerdictKindView::NotWorthwhile { requested, floor } => HistoryStatusView::NotWorthwhile { requested, floor },
    };
    let run = verdict_run(state, verdict);
    let sizes = joined(verdict, run, state, record);
    let measurement = match run {
        Some(found) => match found.analysis {
            Some(analysis) => if status == HistoryStatusView::Converted {
                Some(analysis.measurement)
            } else {
                None
            },
            None => None,
        },
        None => None,
    };
    let (carried_time, carried_crf, carried_vmaf) = carried_summary(verdict);
    HistoryRowView {
        source_run: verdict.source_run,
        happened_at: Some(
            match run {
                Some(found) => match found.finished_at {
                    Some(at) => at,
                    None => verdict.decided_at,
                },
                None => verdict.decided_at,
            },
        ),
        input_size_bytes: sizes.0,
        output_size_bytes: sizes.1,
        encoding_time_ms: match run {
            Some(found) => Some(phase_totals_of(Some(found)).1),
            None => match carried_time {
                Some(time) => Some(time.0),
                None => None,
            },
        },
        vmaf: match measurement {
            Some(found) => Some(found.score),
            None => carried_vmaf,
        },
        crf: match measurement {
            Some(found) => Some(found.crf),
            None => carried_crf,
        },
        ..base_row_of(key, record, status)
    }
}

fn verdict_row(state: &DurableState, key: &ContentKey, record: &FileRecord, verdict: &Verdict) -> (row: HistoryRow)
    ensures
        row@ == verdict_row_of(state@, key@, record@, verdict@),
{
    let status = match &verdict.kind {
        VerdictKind::Converted { .. } => HistoryStatus::Converted,
        VerdictKind::Remuxed { .. } => HistoryStatus::Remuxed,
        VerdictKind::NotWorthwhile { requested, floor } => HistoryStatus::NotWorthwhile { requested: *requested, floor: *floor },
    };
    let converted = match status {
        HistoryStatus::Converted => true,
        _ => false,
    };
    let run = run_named(state, verdict);
    let (input_size, output_size) = joined_sizes(verdict, run, state, record);
    let measurement = match run {
        Some(found) => match &found.analysis {
            Some(analysis) => if converted {
                Some(analysis.measurement)
            } else {
                None
            },
            None => None,
        },
        None => None,
    };
    let (carried_time, carried_crf, carried_vmaf) = match &verdict.kind {
        VerdictKind::Converted { encoding_time, crf, vmaf, .. } => (*encoding_time, *crf, *vmaf),
        _ => (None, None, None),
    };
    let mut row = base_row(key, record, status);
    row.source_run = verdict.source_run;
    row.happened_at = Some(
        match run {
            Some(found) => match found.finished_at {
                Some(at) => at,
                None => verdict.decided_at,
            },
            None => verdict.decided_at,
        },
    );
    row.input_size_bytes = input_size;
    row.output_size_bytes = output_size;
    row.encoding_time_ms = match run {
        Some(found) => Some(phase_totals(Some(found)).1),
        None => match carried_time {
            Some(time) => Some(time.0),
            None => None,
        },
    };
    row.vmaf = match measurement {
        Some(found) => Some(found.score),
        None => carried_vmaf,
    };
    row.crf = match measurement {
        Some(found) => Some(found.crf),
        None => carried_crf,
    };
    row
}

/// Whether a run of `key` was interrupted: failed or stopped.
pub open spec fn interrupted_run_of(key: ContentKeyView) -> spec_fn(ConversionRunView) -> bool {
    |run: ConversionRunView| run.spec.content_key == Some(key) && (run.outcome == Some(ItemOutcomeView::Stopped) || (
    run.outcome is Some && run.outcome->0 is Failed))
}

/// Whether a run of `key` recorded a search.
pub open spec fn analyzed_run_of(key: ContentKeyView) -> spec_fn(ConversionRunView) -> bool {
    |run: ConversionRunView| run.spec.content_key == Some(key) && run.analysis is Some
}

/// The last run satisfying `wanted`.
pub open spec fn last_run(runs: Seq<ConversionRunView>, wanted: spec_fn(ConversionRunView) -> bool) -> Option<ConversionRunView>
    decreases runs.len(),
{
    if runs.len() == 0 {
        None
    } else if wanted(runs.last()) {
        Some(runs.last())
    } else {
        last_run(runs.drop_last(), wanted)
    }
}

/// The row of a content whose latest interrupted run reports its reason.
pub open spec fn interruption_row_of(key: ContentKeyView, record: FileRecordView, run: ConversionRunView) -> HistoryRowView {
    let status = match run.outcome {
        Some(ItemOutcomeView::Failed(facts)) => HistoryStatusView::Failed { kind: facts.kind, message: facts.message },
        _ => HistoryStatusView::Stopped,
    };
    HistoryRowView { source_run: Some(run.spec.run_id), happened_at: run.finished_at, ..base_row_of(key, record, status) }
}

/// The row of an analyzed content: the latest run's search, or the last
/// stored search when no run survives.
pub open spec fn analyzed_row_of(key: ContentKeyView, record: FileRecordView, latest: Option<ConversionRunView>) -> HistoryRowView {
    let analysis = match latest {
        Some(run) => run.analysis,
        None => if record.analyses.len() > 0 {
            Some(record.analyses.last())
        } else {
            None
        },
    };
    HistoryRowView {
        source_run: match latest {
            Some(run) => Some(run.spec.run_id),
            None => None,
        },
        vmaf: match analysis {
            Some(found) => Some(found.measurement.score),
            None => None,
        },
        crf: match analysis {
            Some(found) => Some(found.measurement.crf),
            None => None,
        },
        ..base_row_of(key, record, HistoryStatusView::Analyzed)
    }
}

/// The row a content reports, if any: a standing verdict wins (an adopted
/// one reports the import), then the latest interrupted run, then a
/// completed analysis, then the import alone.
pub open spec fn content_row(state: DurableStateView, key: ContentKeyView, record: FileRecordView) -> Option<HistoryRowView> {
    let runs = state.conversion_runs;
    let imported_report = match record.imported {
        Some(imported) => match import_status(imported.record) {
            Some(status) => Some(imported_row_of(HistoryRowKeyView::Content(key), imported.record, status)),
            None => None,
        },
        None => None,
    };
    match record.verdict {
        Some(verdict) => if verdict.source_run is None && imported_report is Some {
            imported_report
        } else {
            Some(verdict_row_of(state, key, record, verdict))
        },
        None => match last_run(runs, interrupted_run_of(key)) {
            Some(run) => Some(interruption_row_of(key, record, run)),
            None => if record.analyses.len() > 0 {
                Some(analyzed_row_of(key, record, last_run(runs, analyzed_run_of(key))))
            } else {
                imported_report
            },
        },
    }
}

/// The rows of the contents, in record order.
pub open spec fn content_rows(state: DurableStateView, records: Seq<(ContentKeyView, FileRecordView)>) -> Seq<HistoryRowView>
    decreases records.len(),
{
    if records.len() == 0 {
        Seq::empty()
    } else {
        let earlier = content_rows(state, records.drop_last());
        match content_row(state, records.last().0, records.last().1) {
            Some(row) => earlier.push(row),
            None => earlier,
        }
    }
}

/// The rows of the parked imports that report something, in inbox order.
pub open spec fn parked_rows(parked: Seq<(ImportPathView, ParkedRecordView)>) -> Seq<HistoryRowView>
    decreases parked.len(),
{
    if parked.len() == 0 {
        Seq::empty()
    } else {
        let earlier = parked_rows(parked.drop_last());
        match import_status(parked.last().1) {
            Some(status) => earlier.push(imported_row_of(HistoryRowKeyView::Parked(parked.last().0), parked.last().1, status)),
            None => earlier,
        }
    }
}

/// Every History row: contents, then reportable parked imports.
pub open spec fn history(state: DurableStateView) -> Seq<HistoryRowView> {
    content_rows(state, records_by_key(state.records)) + parked_rows(parked_by_path(state.parked))
}

/// Find the last run of `key`: interrupted ones when `interrupted`, else
/// those that recorded a search.
fn last_run_of<'a>(state: &'a DurableState, key: &ContentKey, interrupted: bool) -> (run: Option<&'a ConversionRun>)
    ensures
        match run {
            Some(found) => last_run(
                state@.conversion_runs,
                if interrupted { interrupted_run_of(key@) } else { analyzed_run_of(key@) },
            ) == Some(found@),
            None => last_run(
                state@.conversion_runs,
                if interrupted { interrupted_run_of(key@) } else { analyzed_run_of(key@) },
            ) is None,
        },
{
    proof {
        lemma_durable_views(*state);
    }
    let ghost runs = state@.conversion_runs;
    let ghost wanted = if interrupted { interrupted_run_of(key@) } else { analyzed_run_of(key@) };
    let mut remaining: usize = state.conversion_runs.len();
    assert(runs.subrange(0, remaining as int) =~= runs);
    while remaining > 0
        invariant
            remaining <= state.conversion_runs.len(),
            runs == state@.conversion_runs,
            runs == views(state.conversion_runs@),
            wanted == (if interrupted { interrupted_run_of(key@) } else { analyzed_run_of(key@) }),
            last_run(runs, wanted) == last_run(runs.subrange(0, remaining as int), wanted),
        decreases remaining,
    {
        let index = remaining - 1;
        assert(runs.subrange(0, remaining as int).drop_last() =~= runs.subrange(0, index as int));
        assert(runs[index as int] == state.conversion_runs@[index as int]@);
        let run = &state.conversion_runs[index];
        let same_content = match &run.spec.content_key {
            Some(found) => found.same_view(key),
            None => false,
        };
        let matches = if interrupted {
            match &run.outcome {
                Some(ItemOutcome::Failed(_)) | Some(ItemOutcome::Stopped) => same_content,
                _ => false,
            }
        } else {
            same_content && run.analysis.is_some()
        };
        if matches {
            assert(wanted(runs[index as int]));
            return Some(run);
        }
        assert(!wanted(runs[index as int]));
        remaining = index;
    }
    None
}

fn interruption_row(key: &ContentKey, record: &FileRecord, run: &ConversionRun) -> (row: HistoryRow)
    ensures
        row@ == interruption_row_of(key@, record@, run@),
{
    let status = match &run.outcome {
        Some(ItemOutcome::Failed(facts)) => HistoryStatus::Failed { kind: facts.kind, message: facts.message.duplicate() },
        _ => HistoryStatus::Stopped,
    };
    let mut row = base_row(key, record, status);
    row.source_run = Some(run.spec.run_id);
    row.happened_at = run.finished_at;
    row
}

fn analyzed_row(key: &ContentKey, record: &FileRecord, latest: Option<&ConversionRun>) -> (row: HistoryRow)
    ensures
        row@ == analyzed_row_of(key@, record@, match latest { Some(r) => Some(r@), None => None }),
{
    let measurement = match latest {
        Some(run) => match &run.analysis {
            Some(analysis) => Some(analysis.measurement),
            None => None,
        },
        None => if record.analyses.len() > 0 {
            assert(record@.analyses.last() == record.analyses@[record.analyses.len() - 1]@);
            Some(record.analyses[record.analyses.len() - 1].measurement)
        } else {
            None
        },
    };
    let mut row = base_row(key, record, HistoryStatus::Analyzed);
    row.source_run = match latest {
        Some(run) => Some(run.spec.run_id),
        None => None,
    };
    row.vmaf = match measurement {
        Some(found) => Some(found.score),
        None => None,
    };
    row.crf = match measurement {
        Some(found) => Some(found.crf),
        None => None,
    };
    row
}

fn content_history_row(state: &DurableState, key: &ContentKey, record: &FileRecord) -> (row: Option<HistoryRow>)
    ensures
        match row {
            Some(found) => content_row(state@, key@, record@) == Some(found@),
            None => content_row(state@, key@, record@) is None,
        },
{
    let imported_report = match &record.imported {
        Some(imported) => match imported_status(&imported.record) {
            Some(status) => Some(imported_row(HistoryRowKey::Content(key.duplicate()), &imported.record, status)),
            None => None,
        },
        None => None,
    };
    match &record.verdict {
        Some(verdict) => {
            if verdict.source_run.is_none() && imported_report.is_some() {
                imported_report
            } else {
                Some(verdict_row(state, key, record, verdict))
            }
        },
        None => match last_run_of(state, key, true) {
            Some(run) => Some(interruption_row(key, record, run)),
            None => {
                if record.analyses.len() > 0 {
                    Some(analyzed_row(key, record, last_run_of(state, key, false)))
                } else {
                    imported_report
                }
            },
        },
    }
}

/// Project one History row per content worth reporting, in ascending
/// content-key order, then one per reportable parked import, in ascending
/// import-path order. A standing verdict wins; without one, the latest
/// failed or stopped run reports its reason; without that, completed
/// analyses report as analyzed. Content that was only scanned gets no row.
#[verifier::loop_isolation(false)]
pub fn history_rows(state: &DurableState) -> (rows: Vec<HistoryRow>)
    ensures
        views(rows@) == history(state@),
{
    proof {
        lemma_durable_views(*state);
    }
    let order = records_in_key_order(&state.records);
    let ghost records = state@.records;
    let ghost sorted = records_by_key(records);
    assert(sorted.len() == order.len());
    let mut rows: Vec<HistoryRow> = Vec::new();
    let mut index: usize = 0;
    while index < order.len()
        invariant
            index <= order.len(),
            records == state@.records,
            records == entry_views(state.records@),
            sorted == records_by_key(records),
            views(rows@) == content_rows(state@, sorted.subrange(0, index as int)),
        decreases order.len() - index,
    {
        assert(sorted.subrange(0, index as int + 1).drop_last() =~= sorted.subrange(0, index as int));
        let at = order[index];
        assert(sorted[index as int] == records[at as int]);
        assert(records[at as int] == state.records@[at as int]@);
        if let Some(row) = content_history_row(state, &state.records[at].0, &state.records[at].1) {
            let ghost prior = views(rows@);
            rows.push(row);
            assert(views(rows@) =~= prior.push(row@));
        }
        index += 1;
    }
    assert(sorted.subrange(0, sorted.len() as int) =~= sorted);
    let ghost contents = views(rows@);
    let places = parked_in_path_order(&state.parked);
    let ghost parked = state@.parked;
    let ghost ordered = parked_by_path(parked);
    assert(ordered.len() == places.len());
    let mut position: usize = 0;
    while position < places.len()
        invariant
            position <= places.len(),
            parked == state@.parked,
            parked == entry_views(state.parked@),
            ordered == parked_by_path(parked),
            views(rows@) == contents + parked_rows(ordered.subrange(0, position as int)),
        decreases places.len() - position,
    {
        assert(ordered.subrange(0, position as int + 1).drop_last() =~= ordered.subrange(0, position as int));
        let at = places[position];
        assert(ordered[position as int] == parked[at as int]);
        assert(parked[at as int] == state.parked@[at as int]@);
        if let Some(status) = imported_status(&state.parked[at].1) {
            let row = imported_row(HistoryRowKey::Parked(state.parked[at].0.duplicate()), &state.parked[at].1, status);
            let ghost prior = views(rows@);
            rows.push(row);
            assert(views(rows@) =~= prior.push(row@));
            assert(contents + parked_rows(ordered.subrange(0, position as int + 1)) =~= (contents + parked_rows(
                ordered.subrange(0, position as int),
            )).push(row@));
        } else {
            assert(contents + parked_rows(ordered.subrange(0, position as int + 1)) =~= contents + parked_rows(
                ordered.subrange(0, position as int),
            ));
        }
        position += 1;
    }
    assert(ordered.subrange(0, ordered.len() as int) =~= ordered);
    rows
}


/// No run counted yet.
pub open spec fn no_runs() -> RunTotals {
    RunTotals { analyzed: 0, converted: 0, remuxed: 0, not_worthwhile: 0, stopped: 0, skipped: 0, failed: 0 }
}

impl Default for RunTotals {
    fn default() -> (totals: Self)
        ensures
            totals == no_runs(),
    {
        RunTotals { analyzed: 0, converted: 0, remuxed: 0, not_worthwhile: 0, stopped: 0, skipped: 0, failed: 0 }
    }
}

/// One more, saturating at the counter's maximum.
pub open spec fn one_more(count: u32) -> u32 {
    if count < u32::MAX { (count + 1) as u32 } else { count }
}

/// The totals after counting one run by its terminal outcome; an unfinished
/// run counts nowhere.
pub open spec fn counted_run(totals: RunTotals, outcome: Option<ItemOutcomeView>) -> RunTotals {
    match outcome {
        None => totals,
        Some(ItemOutcomeView::Analyzed) => RunTotals { analyzed: one_more(totals.analyzed), ..totals },
        Some(ItemOutcomeView::Converted(_)) => RunTotals { converted: one_more(totals.converted), ..totals },
        Some(ItemOutcomeView::Remuxed(_)) => RunTotals { remuxed: one_more(totals.remuxed), ..totals },
        Some(ItemOutcomeView::NotWorthwhile { .. }) => RunTotals { not_worthwhile: one_more(totals.not_worthwhile), ..totals },
        Some(ItemOutcomeView::Stopped) => RunTotals { stopped: one_more(totals.stopped), ..totals },
        Some(ItemOutcomeView::Skipped { .. }) => RunTotals { skipped: one_more(totals.skipped), ..totals },
        Some(ItemOutcomeView::Failed(_)) => RunTotals { failed: one_more(totals.failed), ..totals },
    }
}

/// The terminal outcomes of the runs, counted.
pub open spec fn run_totals_of(runs: Seq<ConversionRunView>) -> RunTotals
    decreases runs.len(),
{
    if runs.len() == 0 {
        no_runs()
    } else {
        counted_run(run_totals_of(runs.drop_last()), runs.last().outcome)
    }
}

fn saturating_increment(count: u32) -> (next: u32)
    ensures
        next == one_more(count),
{
    if count < u32::MAX { count + 1 } else { count }
}

/// Terminal run outcomes counted across every run, each counter saturating.
pub fn run_totals(state: &DurableState) -> (totals: RunTotals)
    ensures
        totals == run_totals_of(state@.conversion_runs),
{
    let mut totals = RunTotals::default();
    let mut index: usize = 0;
    while index < state.conversion_runs.len()
        invariant
            index <= state.conversion_runs.len(),
            totals == run_totals_of(state@.conversion_runs.subrange(0, index as int)),
        decreases state.conversion_runs.len() - index,
    {
        proof {
            lemma_durable_views(*state);
            assert(state@.conversion_runs.subrange(0, index as int + 1).drop_last()
                =~= state@.conversion_runs.subrange(0, index as int));
        }
        match &state.conversion_runs[index].outcome {
            None => {},
            Some(ItemOutcome::Analyzed) => totals.analyzed = saturating_increment(totals.analyzed),
            Some(ItemOutcome::Converted(_)) => totals.converted = saturating_increment(totals.converted),
            Some(ItemOutcome::Remuxed(_)) => totals.remuxed = saturating_increment(totals.remuxed),
            Some(ItemOutcome::NotWorthwhile { .. }) => {
                totals.not_worthwhile = saturating_increment(totals.not_worthwhile);
            },
            Some(ItemOutcome::Stopped) => totals.stopped = saturating_increment(totals.stopped),
            Some(ItemOutcome::Skipped { .. }) => totals.skipped = saturating_increment(totals.skipped),
            Some(ItemOutcome::Failed(_)) => totals.failed = saturating_increment(totals.failed),
        }
        index += 1;
    }
    proof {
        lemma_durable_views(*state);
        assert(state@.conversion_runs.subrange(0, state@.conversion_runs.len() as int) =~= state@.conversion_runs);
    }
    totals
}

/// How many runs have an outcome that `counted` accepts.
pub open spec fn runs_ending(runs: Seq<ConversionRunView>, counted: spec_fn(ItemOutcomeView) -> bool) -> nat
    decreases runs.len(),
{
    if runs.len() == 0 {
        0
    } else {
        runs_ending(runs.drop_last(), counted) + match runs.last().outcome {
            Some(outcome) => if counted(outcome) {
                1nat
            } else {
                0nat
            },
            None => 0nat,
        }
    }
}

/// A count as a saturating `u32` counter holds it.
pub open spec fn capped(count: nat) -> u32 {
    if count > u32::MAX { u32::MAX } else { count as u32 }
}

/// Each run total counts exactly the runs that ended that way, up to the
/// counter's maximum: a stopped run counts as stopped and nowhere else, a
/// failed run as failed, and so on; an unfinished run counts nowhere.
pub proof fn lemma_run_totals_count_outcomes(runs: Seq<ConversionRunView>)
    ensures
        run_totals_of(runs).analyzed == capped(runs_ending(runs, |o: ItemOutcomeView| o is Analyzed)),
        run_totals_of(runs).converted == capped(runs_ending(runs, |o: ItemOutcomeView| o is Converted)),
        run_totals_of(runs).remuxed == capped(runs_ending(runs, |o: ItemOutcomeView| o is Remuxed)),
        run_totals_of(runs).not_worthwhile == capped(runs_ending(runs, |o: ItemOutcomeView| o is NotWorthwhile)),
        run_totals_of(runs).stopped == capped(runs_ending(runs, |o: ItemOutcomeView| o is Stopped)),
        run_totals_of(runs).skipped == capped(runs_ending(runs, |o: ItemOutcomeView| o is Skipped)),
        run_totals_of(runs).failed == capped(runs_ending(runs, |o: ItemOutcomeView| o is Failed)),
    decreases runs.len(),
{
    if runs.len() > 0 {
        lemma_run_totals_count_outcomes(runs.drop_last());
    }
}

/// The last run `wanted` accepts is the one at `index` when no later run
/// is accepted.
proof fn lemma_last_run_at(runs: Seq<ConversionRunView>, wanted: spec_fn(ConversionRunView) -> bool, index: int)
    requires
        0 <= index < runs.len(),
        wanted(runs[index]),
        forall|j: int| index < j < runs.len() ==> !wanted(#[trigger] runs[j]),
    ensures
        last_run(runs, wanted) == Some(runs[index]),
    decreases runs.len(),
{
    if index < runs.len() - 1 {
        assert(!wanted(runs[runs.len() - 1]));
        assert forall|j: int| index < j < runs.len() - 1 implies !wanted(#[trigger] runs.drop_last()[j]) by {
            assert(runs.drop_last()[j] == runs[j]);
        }
        lemma_last_run_at(runs.drop_last(), wanted, index);
        assert(runs.drop_last()[index] == runs[index]);
    }
}

/// A content without a verdict whose latest interruption was a stop
/// reports a Stopped row naming that run and its finish.
pub proof fn lemma_stopped_content_row(state: DurableStateView, key: ContentKeyView, record: FileRecordView, index: int)
    requires
        record.verdict is None,
        0 <= index < state.conversion_runs.len(),
        state.conversion_runs[index].spec.content_key == Some(key),
        state.conversion_runs[index].outcome == Some(ItemOutcomeView::Stopped),
        forall|j: int|
            index < j < state.conversion_runs.len() && (#[trigger] state.conversion_runs[j]).spec.content_key == Some(key)
                ==> match state.conversion_runs[j].outcome {
                Some(outcome) => !(outcome is Stopped) && !(outcome is Failed),
                None => true,
            },
    ensures
        content_row(state, key, record) is Some,
        content_row(state, key, record)->0.key == HistoryRowKeyView::Content(key),
        content_row(state, key, record)->0.status == HistoryStatusView::Stopped,
        content_row(state, key, record)->0.source_run == Some(state.conversion_runs[index].spec.run_id),
        content_row(state, key, record)->0.happened_at == state.conversion_runs[index].finished_at,
{
    let runs = state.conversion_runs;
    assert forall|j: int| index < j < runs.len() implies !interrupted_run_of(key)(#[trigger] runs[j]) by {
        if runs[j].spec.content_key == Some(key) {
            assert(runs[j].outcome is None || !(runs[j].outcome->0 is Stopped) && !(runs[j].outcome->0 is Failed));
        }
    }
    lemma_last_run_at(runs, interrupted_run_of(key), index);
}

/// A row of any visited content is among the content rows.
proof fn lemma_content_rows_cover(state: DurableStateView, records: Seq<(ContentKeyView, FileRecordView)>, index: int)
    requires
        0 <= index < records.len(),
        content_row(state, records[index].0, records[index].1) is Some,
    ensures
        content_rows(state, records).contains(content_row(state, records[index].0, records[index].1)->0),
    decreases records.len(),
{
    let rows = content_rows(state, records);
    if index == records.len() - 1 {
        assert(rows[rows.len() - 1] == content_row(state, records[index].0, records[index].1)->0);
    } else {
        assert(records.drop_last()[index] == records[index]);
        lemma_content_rows_cover(state, records.drop_last(), index);
        let earlier = content_rows(state, records.drop_last());
        let k = choose|k: int| 0 <= k < earlier.len() && earlier[k] == content_row(state, records[index].0, records[index].1)->0;
        assert(rows[k] == earlier[k]);
    }
}

/// A stopped conversion stays in History: a content without a verdict
/// whose latest interruption was a stop has a Stopped row naming that run
/// and its finish.
pub proof fn lemma_stopped_content_in_history(state: DurableStateView, record_index: int, run_index: int)
    requires
        0 <= record_index < state.records.len(),
        state.records.len() <= usize::MAX,
        state.records[record_index].1.verdict is None,
        0 <= run_index < state.conversion_runs.len(),
        state.conversion_runs[run_index].spec.content_key == Some(state.records[record_index].0),
        state.conversion_runs[run_index].outcome == Some(ItemOutcomeView::Stopped),
        forall|j: int|
            run_index < j < state.conversion_runs.len() && (#[trigger] state.conversion_runs[j]).spec.content_key == Some(
                state.records[record_index].0,
            ) ==> match state.conversion_runs[j].outcome {
                Some(outcome) => !(outcome is Stopped) && !(outcome is Failed),
                None => true,
            },
    ensures
        exists|k: int|
            0 <= k < history(state).len() && (#[trigger] history(state)[k]).key == HistoryRowKeyView::Content(
                state.records[record_index].0,
            ) && history(state)[k].status == HistoryStatusView::Stopped && history(state)[k].source_run == Some(
                state.conversion_runs[run_index].spec.run_id,
            ) && history(state)[k].happened_at == state.conversion_runs[run_index].finished_at,
{
    let (key, record) = state.records[record_index];
    lemma_stopped_content_row(state, key, record, run_index);
    let ordered = records_by_key(state.records);
    crate::key_order::lemma_records_by_key_cover(state.records, record_index);
    let m = choose|m: int| 0 <= m < ordered.len() && ordered[m] == state.records[record_index];
    lemma_content_rows_cover(state, ordered, m);
    let rows = content_rows(state, ordered);
    let row = content_row(state, key, record)->0;
    let k = choose|k: int| 0 <= k < rows.len() && rows[k] == row;
    assert(history(state)[k] == rows[k]);
}

/// A content without a verdict whose latest interruption was a failure
/// reports a Failed row with the failure's kind and message, naming that
/// run and its finish.
pub proof fn lemma_failed_content_row(state: DurableStateView, key: ContentKeyView, record: FileRecordView, index: int)
    requires
        record.verdict is None,
        0 <= index < state.conversion_runs.len(),
        state.conversion_runs[index].spec.content_key == Some(key),
        state.conversion_runs[index].outcome is Some,
        state.conversion_runs[index].outcome->0 is Failed,
        forall|j: int|
            index < j < state.conversion_runs.len() && (#[trigger] state.conversion_runs[j]).spec.content_key == Some(key)
                ==> match state.conversion_runs[j].outcome {
                Some(outcome) => !(outcome is Stopped) && !(outcome is Failed),
                None => true,
            },
    ensures
        content_row(state, key, record) is Some,
        content_row(state, key, record)->0.key == HistoryRowKeyView::Content(key),
        content_row(state, key, record)->0.status == (HistoryStatusView::Failed {
            kind: state.conversion_runs[index].outcome->0->Failed_0.kind,
            message: state.conversion_runs[index].outcome->0->Failed_0.message,
        }),
        content_row(state, key, record)->0.source_run == Some(state.conversion_runs[index].spec.run_id),
        content_row(state, key, record)->0.happened_at == state.conversion_runs[index].finished_at,
{
    let runs = state.conversion_runs;
    assert forall|j: int| index < j < runs.len() implies !interrupted_run_of(key)(#[trigger] runs[j]) by {
        if runs[j].spec.content_key == Some(key) {
            assert(runs[j].outcome is None || !(runs[j].outcome->0 is Stopped) && !(runs[j].outcome->0 is Failed));
        }
    }
    lemma_last_run_at(runs, interrupted_run_of(key), index);
}

} // verus!
