//! Job policy: which files are worth working on, which stored search a claim
//! reuses, when a recorded verdict still answers for a file, and how parked
//! import records resolve once their file is observed.

use vstd::prelude::*;

use crate::constants::{DEFAULT_VMAF_TARGET, IMPORT_MTIME_TOLERANCE_NS, MIN_VMAF_FALLBACK_TARGET};
use crate::job::{reuse_validation, same_fallback_request};
use crate::lookup::{entry_views, find_key, first_index, keyed, lookup};
use crate::model::{copied, views, Duplicate};
use crate::output::{find_output, of_run, transaction_of};
use crate::{
    AnalysisIntent, AnalysisResult, DurableState, DurableStateView, OutputState, OutputStateView, OutputTransactionView,
    PathBindingView, PathHash, PathHashView, AnalysisResultView, DestructiveIdentity, Eligibility,
    ExecutionSettings, ExecutionSettingsView, FileRecord, FileRecordView, JobAction, JobActionView,
    MediaContainer, MediaContainerView, MediaObservation, MediaObservationView, Operation,
    ParkedRecord, ParkedRecordView, ParkedResolution, ParkedResolutionView, ParkedStatus, SkipReason,
    TimestampReliability, Verdict, VerdictKind, VerdictKindView, VerdictView, VideoCodec,
    VideoCodecView, VideoMeta, VideoMetaView, VmafTarget,
};

verus! {

/// Files below 1280x720 worth of pixels are not worth converting.
pub const MIN_VIDEO_PIXELS: u64 = 921_600u64;

/// What the media facts alone allow: too small is skipped, AV1 in Matroska
/// is already done, and AV1 elsewhere only needs a remux to convert.
pub open spec fn eligibility(metadata: VideoMetaView, operation: Operation) -> Eligibility {
    if metadata.displayed_pixels() < MIN_VIDEO_PIXELS {
        Eligibility::Skip(
            SkipReason::LowResolution {
                pixels: metadata.displayed_pixels() as u64,
                minimum: MIN_VIDEO_PIXELS,
            },
        )
    } else if metadata.codec == VideoCodecView::Av1 {
        if metadata.container == MediaContainerView::Matroska {
            Eligibility::Skip(SkipReason::AlreadyAv1Matroska)
        } else if operation == Operation::Convert {
            Eligibility::Remux
        } else {
            Eligibility::Process
        }
    } else {
        Eligibility::Process
    }
}

/// Decide what the media facts of a file allow for an operation.
pub fn evaluate_eligibility(metadata: &VideoMeta, operation: Operation) -> (decision: Eligibility)
    ensures
        decision == eligibility(metadata@, operation),
{
    let pixels = metadata.post_rotation_pixels();
    if pixels < MIN_VIDEO_PIXELS {
        return Eligibility::Skip(SkipReason::LowResolution { pixels, minimum: MIN_VIDEO_PIXELS });
    }
    if let VideoCodec::Av1 = metadata.codec {
        if let MediaContainer::Matroska = metadata.container {
            return Eligibility::Skip(SkipReason::AlreadyAv1Matroska);
        }
        if let Operation::Convert = operation {
            return Eligibility::Remux;
        }
    }
    Eligibility::Process
}

/// A reusable search that reached at least the requested target.
pub open spec fn reaches_request(result: AnalysisResultView, execution: ExecutionSettingsView) -> bool {
    &&& result.successful_target.0 >= execution.requested_target.0
    &&& reuse_validation(result, execution) is Ok
}

/// A reusable search that asked for the same target ladder.
pub open spec fn answers_request(result: AnalysisResultView, execution: ExecutionSettingsView) -> bool {
    &&& same_fallback_request(result, execution)
    &&& reuse_validation(result, execution) is Ok
}

/// `index` holds the search with the lowest target among those reaching
/// the request, the earliest of equals.
pub open spec fn is_least_reaching(
    analyses: Seq<AnalysisResultView>,
    execution: ExecutionSettingsView,
    index: int,
) -> bool {
    &&& 0 <= index < analyses.len()
    &&& reaches_request(analyses[index], execution)
    &&& forall|k: int|
        0 <= k < analyses.len() && reaches_request(#[trigger] analyses[k], execution) ==> {
            &&& analyses[index].successful_target.0 <= analyses[k].successful_target.0
            &&& analyses[index].successful_target.0 == analyses[k].successful_target.0 ==> index <= k
        }
}

/// `index` holds the search with the highest target among those answering
/// the request, the earliest of equals.
pub open spec fn is_highest_answering(
    analyses: Seq<AnalysisResultView>,
    execution: ExecutionSettingsView,
    index: int,
) -> bool {
    &&& 0 <= index < analyses.len()
    &&& answers_request(analyses[index], execution)
    &&& forall|k: int|
        0 <= k < analyses.len() && answers_request(#[trigger] analyses[k], execution) ==> {
            &&& analyses[k].successful_target.0 <= analyses[index].successful_target.0
            &&& analyses[index].successful_target.0 == analyses[k].successful_target.0 ==> index <= k
        }
}

/// The stored search a claim reuses: the lowest-target search that reaches
/// the requested target; failing that, the highest-target search that asked
/// for the same ladder.
pub open spec fn selected_analysis(
    analyses: Seq<AnalysisResultView>,
    execution: ExecutionSettingsView,
) -> Option<AnalysisResultView> {
    if exists|index: int| is_least_reaching(analyses, execution, index) {
        Some(analyses[choose|index: int| is_least_reaching(analyses, execution, index)])
    } else if exists|index: int| is_highest_answering(analyses, execution, index) {
        Some(analyses[choose|index: int| is_highest_answering(analyses, execution, index)])
    } else {
        None
    }
}

/// At most one index is the least reaching search.
pub proof fn lemma_least_reaching_unique(
    analyses: Seq<AnalysisResultView>,
    execution: ExecutionSettingsView,
    first: int,
    second: int,
)
    requires
        is_least_reaching(analyses, execution, first),
        is_least_reaching(analyses, execution, second),
    ensures
        first == second,
{
    assert(reaches_request(analyses[second], execution));
    assert(reaches_request(analyses[first], execution));
}

/// At most one index is the highest answering search.
pub proof fn lemma_highest_answering_unique(
    analyses: Seq<AnalysisResultView>,
    execution: ExecutionSettingsView,
    first: int,
    second: int,
)
    requires
        is_highest_answering(analyses, execution, first),
        is_highest_answering(analyses, execution, second),
    ensures
        first == second,
{
    assert(answers_request(analyses[second], execution));
    assert(answers_request(analyses[first], execution));
}

/// A claim only ever reuses a stored search that passes the reuse rules
/// for its execution.
pub proof fn lemma_selected_analysis_is_reusable(analyses: Seq<AnalysisResultView>, execution: ExecutionSettingsView)
    requires
        selected_analysis(analyses, execution) is Some,
    ensures
        analyses.contains(selected_analysis(analyses, execution)->0),
        reuse_validation(selected_analysis(analyses, execution)->0, execution) is Ok,
{
    if exists|index: int| is_least_reaching(analyses, execution, index) {
        let index = choose|index: int| is_least_reaching(analyses, execution, index);
        assert(analyses[index] == selected_analysis(analyses, execution)->0);
    } else {
        let index = choose|index: int| is_highest_answering(analyses, execution, index);
        assert(analyses[index] == selected_analysis(analyses, execution)->0);
    }
}

/// Pick the stored search a claim under `execution` reuses, if any.
#[verifier::loop_isolation(false)]
pub fn select_analysis(record: &FileRecord, execution: &ExecutionSettings) -> (selected: Option<AnalysisResult>)
    ensures
        match selected {
            Some(result) => selected_analysis(record@.analyses, execution@) == Some(result@),
            None => selected_analysis(record@.analyses, execution@) is None,
        },
{
    let ghost analyses = record@.analyses;
    let ghost e = execution@;
    let mut least: Option<usize> = None;
    let mut highest: Option<usize> = None;
    let mut index: usize = 0;
    while index < record.analyses.len()
        invariant
            index <= record.analyses.len(),
            analyses.len() == record.analyses.len(),
            match least {
                Some(i) => {
                    &&& i < index
                    &&& reaches_request(analyses[i as int], e)
                    &&& forall|k: int|
                        0 <= k < index && reaches_request(#[trigger] analyses[k], e) ==> {
                            &&& analyses[i as int].successful_target.0 <= analyses[k].successful_target.0
                            &&& analyses[i as int].successful_target.0 == analyses[k].successful_target.0 ==> i <= k
                        }
                },
                None => forall|k: int| 0 <= k < index ==> !reaches_request(#[trigger] analyses[k], e),
            },
            match highest {
                Some(i) => {
                    &&& i < index
                    &&& answers_request(analyses[i as int], e)
                    &&& forall|k: int|
                        0 <= k < index && answers_request(#[trigger] analyses[k], e) ==> {
                            &&& analyses[k].successful_target.0 <= analyses[i as int].successful_target.0
                            &&& analyses[i as int].successful_target.0 == analyses[k].successful_target.0 ==> i <= k
                        }
                },
                None => forall|k: int| 0 <= k < index ==> !answers_request(#[trigger] analyses[k], e),
            },
        decreases record.analyses.len() - index,
    {
        let candidate = &record.analyses[index];
        assert(analyses[index as int] == candidate@);
        let reusable = candidate.validate_reusable_for(execution).is_ok();
        if reusable && candidate.successful_target.0 >= execution.requested_target.0 {
            match least {
                Some(i) => {
                    if candidate.successful_target.0 < record.analyses[i].successful_target.0 {
                        least = Some(index);
                    }
                },
                None => {
                    least = Some(index);
                },
            }
        }
        let same_request = candidate.requested_target.0 == execution.requested_target.0
            && candidate.fallback_floor.0 == execution.fallback_floor.0
            && candidate.fallback_step == execution.fallback_step;
        if reusable && same_request {
            match highest {
                Some(i) => {
                    if candidate.successful_target.0 > record.analyses[i].successful_target.0 {
                        highest = Some(index);
                    }
                },
                None => {
                    highest = Some(index);
                },
            }
        }
        index += 1;
    }
    match least {
        Some(i) => {
            proof {
                assert(is_least_reaching(analyses, e, i as int));
                let chosen = choose|k: int| is_least_reaching(analyses, e, k);
                lemma_least_reaching_unique(analyses, e, i as int, chosen);
            }
            Some(record.analyses[i].duplicate())
        },
        None => {
            assert(!exists|k: int| is_least_reaching(analyses, e, k));
            match highest {
                Some(i) => {
                    proof {
                        assert(is_highest_answering(analyses, e, i as int));
                        let chosen = choose|k: int| is_highest_answering(analyses, e, k);
                        lemma_highest_answering_unique(analyses, e, i as int, chosen);
                    }
                    Some(record.analyses[i].duplicate())
                },
                None => {
                    assert(!exists|k: int| is_highest_answering(analyses, e, k));
                    None
                },
            }
        },
    }
}

/// Whether a decided verdict still answers for the file now at a path.
/// A conversion or remux answers while the file IS the settled output: the
/// full identity matches, a modification time is known, and timestamps are
/// reliable. A not-worthwhile verdict judges content and always answers.
pub open spec fn verdict_answers(
    verdict: VerdictView,
    settled_output: Option<DestructiveIdentity>,
    current: Option<DestructiveIdentity>,
    reliability: TimestampReliability,
) -> bool {
    match verdict.kind {
        VerdictKindView::NotWorthwhile { .. } => true,
        _ => {
            &&& reliability == TimestampReliability::Reliable
            &&& settled_output is Some
            &&& current == settled_output
            &&& settled_output->0.modified_ns is Some
        },
    }
}

/// Whether a decided verdict still describes the file that would be
/// enqueued, judged against the settled output identity of its run and a
/// stat of the file now at the path.
pub fn verdict_applies(
    verdict: &Verdict,
    settled_output: Option<&DestructiveIdentity>,
    current: Option<&DestructiveIdentity>,
    reliability: TimestampReliability,
) -> (applies: bool)
    ensures
        applies == verdict_answers(verdict@, copied(settled_output), copied(current), reliability),
{
    match &verdict.kind {
        VerdictKind::NotWorthwhile { .. } => true,
        VerdictKind::Converted { .. } | VerdictKind::Remuxed { .. } => {
            if let TimestampReliability::Reliable = reliability {
                match (settled_output, current) {
                    (Some(settled), Some(now)) => *settled == *now && settled.modified_ns.is_some(),
                    _ => false,
                }
            } else {
                false
            }
        },
    }
}

/// A parked record describes a file whose size is equal and whose
/// modification time is within the import tolerance; a record missing
/// either half never matches.
pub open spec fn stamp_matches(parked: ParkedRecordView, current: DestructiveIdentity) -> bool {
    match (parked.size, parked.modified_ns, current.modified_ns) {
        (Some(size), Some(then), Some(now)) => {
            &&& size == current.size
            &&& if now.0 >= then.0 {
                now.0 - then.0 <= IMPORT_MTIME_TOLERANCE_NS
            } else {
                then.0 - now.0 <= IMPORT_MTIME_TOLERANCE_NS
            }
        },
        _ => false,
    }
}

/// The conversion verdict an imported converted record stands for.
pub open spec fn adopted_conversion(parked: ParkedRecordView) -> VerdictView {
    VerdictView {
        kind: VerdictKindView::Converted {
            output_content_key: None,
            input_size: parked.size,
            output_size: parked.output_size,
            encoding_time: parked.encoding_time,
            crf: parked.crf,
            vmaf: parked.vmaf,
            target: parked.target,
        },
        source_run: None,
        decided_at: parked.decided_at,
    }
}

/// The not-worthwhile verdict an imported record stands for; missing
/// targets fall back to the product defaults.
pub open spec fn adopted_rejection(parked: ParkedRecordView) -> VerdictView {
    VerdictView {
        kind: VerdictKindView::NotWorthwhile {
            requested: match parked.requested_target {
                Some(target) => target,
                None => VmafTarget(DEFAULT_VMAF_TARGET),
            },
            floor: match parked.floor_target {
                Some(target) => target,
                None => VmafTarget(MIN_VMAF_FALLBACK_TARGET),
            },
        },
        source_run: None,
        decided_at: parked.decided_at,
    }
}

/// What becomes of a parked record against an observation of its file: a
/// stamp match adopts the record (with the verdict a decisive status stands
/// for); a converted record whose path now holds AV1 adopts onto the output;
/// anything else retires it.
pub open spec fn parked_resolution(parked: ParkedRecordView, observation: MediaObservationView) -> ParkedResolutionView {
    if stamp_matches(parked, observation.binding.identity) {
        ParkedResolutionView::Adopt {
            verdict: match parked.status {
                ParkedStatus::Converted => Some(adopted_conversion(parked)),
                ParkedStatus::NotWorthwhile => Some(adopted_rejection(parked)),
                ParkedStatus::Scanned | ParkedStatus::Analyzed => None,
            },
        }
    } else if parked.status == ParkedStatus::Converted && observation.metadata.codec == VideoCodecView::Av1 {
        ParkedResolutionView::Adopt { verdict: Some(adopted_conversion(parked)) }
    } else {
        ParkedResolutionView::Retire
    }
}

fn parked_stamp_matches(parked: &ParkedRecord, current: &DestructiveIdentity) -> (matches: bool)
    ensures
        matches == stamp_matches(parked@, *current),
{
    match (parked.size, parked.modified_ns, current.modified_ns) {
        (Some(size), Some(then), Some(now)) => {
            if size != current.size {
                return false;
            }
            let drift = if now.0 >= then.0 {
                now.0 - then.0
            } else {
                then.0 - now.0
            };
            drift <= IMPORT_MTIME_TOLERANCE_NS
        },
        _ => false,
    }
}

fn converted_verdict(parked: &ParkedRecord) -> (verdict: Verdict)
    ensures
        verdict@ == adopted_conversion(parked@),
{
    Verdict {
        kind: VerdictKind::Converted {
            output_content_key: None,
            input_size: parked.size,
            output_size: parked.output_size,
            encoding_time: parked.encoding_time,
            crf: parked.crf,
            vmaf: parked.vmaf,
            target: parked.target,
        },
        source_run: None,
        decided_at: parked.decided_at,
    }
}

fn not_worthwhile_verdict(parked: &ParkedRecord) -> (verdict: Verdict)
    ensures
        verdict@ == adopted_rejection(parked@),
{
    let requested = match parked.requested_target {
        Some(target) => target,
        None => VmafTarget(DEFAULT_VMAF_TARGET),
    };
    let floor = match parked.floor_target {
        Some(target) => target,
        None => VmafTarget(MIN_VMAF_FALLBACK_TARGET),
    };
    Verdict {
        kind: VerdictKind::NotWorthwhile { requested, floor },
        source_run: None,
        decided_at: parked.decided_at,
    }
}

/// Decide a parked import record against a fresh observation of the file
/// at the path the record was keyed under.
pub fn resolve_parked(parked: &ParkedRecord, observation: &MediaObservation) -> (resolution: ParkedResolution)
    ensures
        resolution@ == parked_resolution(parked@, observation@),
{
    if parked_stamp_matches(parked, &observation.binding.identity) {
        let verdict = match parked.status {
            ParkedStatus::Converted => Some(converted_verdict(parked)),
            ParkedStatus::NotWorthwhile => Some(not_worthwhile_verdict(parked)),
            ParkedStatus::Scanned | ParkedStatus::Analyzed => None,
        };
        return ParkedResolution::Adopt { verdict };
    }
    if let ParkedStatus::Converted = parked.status {
        if let VideoCodec::Av1 = observation.metadata.codec {
            return ParkedResolution::Adopt { verdict: Some(converted_verdict(parked)) };
        }
    }
    ParkedResolution::Retire
}

/// The skip a decided verdict imposes on a claim: converting processed
/// content again is duplicate work, and a not-worthwhile verdict stands
/// unless the ladder now reaches below the floor it was decided at. Only a
/// conversion that reuses knowledge is filtered.
pub open spec fn verdict_skip(
    record: Option<FileRecordView>,
    operation: Operation,
    intent: AnalysisIntent,
    execution: ExecutionSettingsView,
) -> Option<SkipReason> {
    if operation == Operation::Convert && intent == AnalysisIntent::ReuseIfFresh && record is Some
        && record->0.verdict is Some {
        let verdict = record->0.verdict->0;
        match verdict.kind {
            VerdictKindView::NotWorthwhile { floor, .. } => {
                if execution.fallback_floor.0 >= floor.0 {
                    Some(SkipReason::NotWorthwhile { source_run: verdict.source_run })
                } else {
                    None
                }
            },
            _ => Some(SkipReason::ProbableDuplicate { source_run: verdict.source_run }),
        }
    } else {
        None
    }
}

/// What a prepared job does: a media-fact skip first, then a verdict skip,
/// then a remux, and otherwise the operation itself with the search it
/// reuses.
pub open spec fn job_action(
    metadata: Option<VideoMetaView>,
    record: Option<FileRecordView>,
    operation: Operation,
    intent: AnalysisIntent,
    execution: ExecutionSettingsView,
) -> JobActionView {
    let media = match metadata {
        Some(meta) => eligibility(meta, operation),
        None => Eligibility::Process,
    };
    let selected = if intent == AnalysisIntent::ReuseIfFresh && record is Some {
        selected_analysis(record->0.analyses, execution)
    } else {
        None
    };
    if let Eligibility::Skip(reason) = media {
        JobActionView::Skip { reason }
    } else if let Some(reason) = verdict_skip(record, operation, intent, execution) {
        JobActionView::Skip { reason }
    } else if media == Eligibility::Remux {
        JobActionView::Remux
    } else if operation == Operation::Analyze {
        JobActionView::Analyze { selected_analysis: selected }
    } else {
        JobActionView::Encode { selected_analysis: selected }
    }
}

fn decided_skip(
    record: Option<&FileRecord>,
    operation: Operation,
    intent: AnalysisIntent,
    execution: &ExecutionSettings,
) -> (skip: Option<SkipReason>)
    ensures
        skip == verdict_skip(match record { Some(known) => Some(known@), None => None }, operation, intent, execution@),
{
    if let (Operation::Convert, AnalysisIntent::ReuseIfFresh) = (operation, intent) {
        if let Some(known) = record {
            if let Some(verdict) = &known.verdict {
                return match &verdict.kind {
                    VerdictKind::NotWorthwhile { floor, .. } => {
                        if execution.fallback_floor.0 >= floor.0 {
                            Some(SkipReason::NotWorthwhile { source_run: verdict.source_run })
                        } else {
                            None
                        }
                    },
                    VerdictKind::Converted { .. } | VerdictKind::Remuxed { .. } => {
                        Some(SkipReason::ProbableDuplicate { source_run: verdict.source_run })
                    },
                };
            }
        }
    }
    None
}

/// Decide what a claim does with a file.
pub fn select_job_action(
    metadata: Option<&VideoMeta>,
    record: Option<&FileRecord>,
    operation: Operation,
    intent: AnalysisIntent,
    execution: &ExecutionSettings,
) -> (action: JobAction)
    ensures
        action@ == job_action(
            match metadata { Some(meta) => Some(meta@), None => None },
            match record { Some(known) => Some(known@), None => None },
            operation,
            intent,
            execution@,
        ),
{
    let media = match metadata {
        Some(meta) => evaluate_eligibility(meta, operation),
        None => Eligibility::Process,
    };
    if let Eligibility::Skip(reason) = media {
        return JobAction::Skip { reason };
    }
    if let Some(reason) = decided_skip(record, operation, intent, execution) {
        return JobAction::Skip { reason };
    }
    if let Eligibility::Remux = media {
        return JobAction::Remux;
    }
    let selected = match (intent, record) {
        (AnalysisIntent::ReuseIfFresh, Some(known)) => match select_analysis(known, execution) {
            Some(result) => Some(Box::new(result)),
            None => None,
        },
        _ => None,
    };
    match operation {
        Operation::Analyze => JobAction::Analyze { selected_analysis: selected },
        Operation::Convert => JobAction::Encode { selected_analysis: selected },
    }
}

/// The cached facts about a path still describe the file there: the stat
/// matches the bound identity exactly, with a known modification time, and
/// timestamps can be trusted.
pub open spec fn binding_fresh(binding: PathBindingView, current: DestructiveIdentity, reliability: TimestampReliability) -> bool {
    &&& reliability == TimestampReliability::Reliable
    &&& binding.identity == current
    &&& current.modified_ns is Some
}

/// The identity of the file a settled transaction left at its final path.
pub open spec fn settled_output_identity(transaction: OutputTransactionView) -> Option<DestructiveIdentity> {
    match transaction.state {
        OutputStateView::Committed { final_identity } => Some(final_identity.destructive),
        OutputStateView::Retired { final_identity } => Some(final_identity.destructive),
        _ => None,
    }
}

/// The file now at a path is the settled output of the run that decided
/// the verdict.
pub open spec fn output_recognized(
    outputs: Seq<OutputTransactionView>,
    verdict: VerdictView,
    current: DestructiveIdentity,
    reliability: TimestampReliability,
) -> bool {
    &&& !(verdict.kind is NotWorthwhile)
    &&& verdict.source_run is Some
    &&& transaction_of(outputs, verdict.source_run->0) is Some
    &&& verdict_answers(
        verdict,
        settled_output_identity(transaction_of(outputs, verdict.source_run->0)->0),
        Some(current),
        reliability,
    )
}

/// The skip an enqueue request earns from cached facts alone. Without a
/// stat or a known path nothing is skipped. While the binding is fresh, the
/// cached media facts skip ineligible files for any intent, and a decided
/// verdict skips a conversion that reuses knowledge. A stale binding can
/// still recognize the settled output of the verdict's own run.
pub open spec fn enqueue_skip(
    durable: DurableStateView,
    path_hash: PathHashView,
    identity: Option<DestructiveIdentity>,
    reliability: TimestampReliability,
    operation: Operation,
    intent: AnalysisIntent,
) -> Option<SkipReason> {
    let bound = lookup(durable.paths, path_hash);
    if identity is None || bound is None {
        None
    } else {
        let current = identity->0;
        let binding = bound->0;
        let record = lookup(durable.records, binding.content_key);
        let reuses = operation == Operation::Convert && intent == AnalysisIntent::ReuseIfFresh;
        if record is None {
            None
        } else if binding_fresh(binding, current, reliability) {
            if let Eligibility::Skip(reason) = eligibility(record->0.metadata, operation) {
                Some(reason)
            } else if reuses && record->0.verdict is Some {
                let verdict = record->0.verdict->0;
                if verdict.kind is NotWorthwhile {
                    Some(SkipReason::NotWorthwhile { source_run: verdict.source_run })
                } else {
                    Some(SkipReason::ProbableDuplicate { source_run: verdict.source_run })
                }
            } else {
                None
            }
        } else if reuses && record->0.verdict is Some && output_recognized(
            durable.outputs,
            record->0.verdict->0,
            current,
            reliability,
        ) {
            Some(SkipReason::AlreadyConverted { source_run: record->0.verdict->0.source_run })
        } else {
            None
        }
    }
}

/// Judge an enqueue request against the durable state: the skip it earns,
/// or `None` when it should be queued.
pub fn evaluate_enqueue(
    durable: &DurableState,
    path_hash: &PathHash,
    identity: Option<&DestructiveIdentity>,
    reliability: TimestampReliability,
    operation: Operation,
    intent: AnalysisIntent,
) -> (skip: Option<SkipReason>)
    ensures
        skip == enqueue_skip(durable@, path_hash@, copied(identity), reliability, operation, intent),
{
    proof {
        assert(durable@.paths =~= entry_views(durable.paths@));
        assert(durable@.records =~= entry_views(durable.records@));
        assert(durable@.outputs =~= views(durable.outputs@));
    }
    let current = match identity {
        Some(stat) => *stat,
        None => {
            return None;
        },
    };
    let binding = match find_key(&durable.paths, path_hash) {
        Some(index) => &durable.paths[index].1,
        None => {
            return None;
        },
    };
    let record = match find_key(&durable.records, &binding.content_key) {
        Some(index) => &durable.records[index].1,
        None => {
            return None;
        },
    };
    let reuses = match (operation, intent) {
        (Operation::Convert, AnalysisIntent::ReuseIfFresh) => true,
        _ => false,
    };
    let fresh = match reliability {
        TimestampReliability::Reliable => binding.identity == current && current.modified_ns.is_some(),
        _ => false,
    };
    if fresh {
        if let Eligibility::Skip(reason) = evaluate_eligibility(&record.metadata, operation) {
            return Some(reason);
        }
        if reuses {
            if let Some(verdict) = &record.verdict {
                return match &verdict.kind {
                    VerdictKind::NotWorthwhile { .. } => Some(SkipReason::NotWorthwhile { source_run: verdict.source_run }),
                    VerdictKind::Converted { .. } | VerdictKind::Remuxed { .. } => {
                        Some(SkipReason::ProbableDuplicate { source_run: verdict.source_run })
                    },
                };
            }
        }
        return None;
    }
    if !reuses {
        return None;
    }
    let verdict = match &record.verdict {
        Some(verdict) => verdict,
        None => {
            return None;
        },
    };
    if let VerdictKind::NotWorthwhile { .. } = verdict.kind {
        return None;
    }
    let run_id = match verdict.source_run {
        Some(run_id) => run_id,
        None => {
            return None;
        },
    };
    let transaction = match find_output(&durable.outputs, run_id) {
        Some(index) => &durable.outputs[index],
        None => {
            return None;
        },
    };
    let settled = match &transaction.state {
        OutputState::Committed { final_identity } | OutputState::Retired { final_identity } => {
            Some(&final_identity.destructive)
        },
        _ => None,
    };
    if verdict_applies(verdict, settled, Some(&current), reliability) {
        Some(SkipReason::AlreadyConverted { source_run: verdict.source_run })
    } else {
        None
    }
}

} // verus!
