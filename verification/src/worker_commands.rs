//! Worker commands: reserving, preparing and running a claim, recording
//! its output steps and search, and judging its terminal outcome.

use vstd::prelude::*;

use crate::execution::resolved_overwrite;
use crate::failure::tail_validation;
use crate::history::{import_adoptions, prepare_import_adoptions};
use crate::job::{execution_validation, measurement_validation, recording_validation, reuse_validation};
use crate::lookup::{entry_views, find_key, first_match, lookup};
use crate::model::{views, Duplicate, SameView};
use crate::output::{output_delta_validation, transaction_of, find_output, validate_output_delta};
use crate::policy::{job_action, select_job_action};
use crate::queue_commands::pending_entry;
use crate::reducer::{accepted_view, active_run, active_run_of, announcing, rejected_view};
use crate::state::{absorbed, find_item, find_run, has_id, lemma_durable_views, run_of};
use crate::{
    AnalysisAttempt, AnalysisProfileView, AppState, AppStateView, Applied, AppliedView, ClaimId,
    ClaimedJob, ClaimedJobView, CompletionEvidence, ConversionRun, ConversionRunView, DecodeMode,
    DecodePreference, DurableDelta, DurableDeltaView, Effect, EffectView, EphemeralDelta,
    EphemeralDeltaView, ExecutionSettings, ExecutionSettingsView, FailureKind, FileRecord,
    FileRecordView, ImportPath, ItemOutcome, ItemOutcomeView, JobAction, JobActionView, JobSpec,
    JobSpecView, MediaObservation, MediaObservationView, OutputState, OutputStateView,
    OutputTransaction, OutputTransactionView, OverwriteDecision, QueueItem, QueueItemId,
    QueueItemState, QueueItemStateView, QueueItemView, Replacement, Reply, ReplyView, ReservedJob,
    ReservedJobView, RunId, SessionState, SettingsView, SkipReason, WorkerCommand,
    WorkerCommandView,
};

verus! {

/// Whether a queue item state holds the claim `claim_id` for run `run_id`.
pub open spec fn holds_claim(state: QueueItemStateView, claim_id: ClaimId, run_id: RunId) -> bool {
    match state {
        QueueItemStateView::Reserved { claim_id: current_claim, run_id: current_run } => current_claim == claim_id
            && current_run == run_id,
        QueueItemStateView::Claimed { claim_id: current_claim, run_id: current_run } => current_claim == claim_id
            && current_run == run_id,
        QueueItemStateView::Running { claim_id: current_claim, run_id: current_run } => current_claim == claim_id
            && current_run == run_id,
        _ => false,
    }
}

/// Why a worker event for an item is stale, if it is.
pub open spec fn claim_problem(queue: Seq<QueueItemView>, item_id: QueueItemId, claim_id: ClaimId, run_id: RunId) -> Option<Seq<char>> {
    match first_match(queue, has_id(item_id)) {
        None => Some("queue item does not exist"@),
        Some(item) => if holds_claim(item.state, claim_id, run_id) {
            None
        } else {
            Some("worker event has a stale claim or run id"@)
        },
    }
}

/// The item as it will be reserved.
pub open spec fn reservation(item: QueueItemView, claim_id: ClaimId, run_id: RunId) -> ReservedJobView {
    ReservedJobView {
        item_id: item.id,
        claim_id,
        run_id,
        input: item.input,
        operation: item.operation,
        intent: item.intent,
        output_target: item.output_target,
    }
}

/// The execution a claim runs with: overwrite resolved from the item and
/// the settings, and hardware decode only when the settings allow it.
pub open spec fn claim_execution(execution: ExecutionSettingsView, overwrite: OverwriteDecision, settings: SettingsView) -> ExecutionSettingsView {
    ExecutionSettingsView {
        overwrite_existing: resolved_overwrite(overwrite, settings),
        decode_preference: if settings.hardware_decode {
            DecodePreference::HardwarePreferred
        } else {
            DecodePreference::SoftwareOnly
        },
        profile: if settings.hardware_decode {
            execution.profile
        } else {
            AnalysisProfileView { decode_mode: DecodeMode::Software, ..execution.profile }
        },
        ..execution
    }
}

/// Whether observing a file changes the durable facts about it.
pub open spec fn observation_changes(durable: crate::DurableStateView, observation: MediaObservationView) -> bool {
    lookup(durable.paths, observation.path_hash) != Some(observation.binding) || match lookup(
        durable.records,
        observation.binding.content_key,
    ) {
        Some(record) => record.metadata != observation.metadata,
        None => true,
    }
}

/// The content key of an observed file.
pub open spec fn observed_key(observation: Option<MediaObservationView>) -> Option<crate::ContentKeyView> {
    match observation {
        Some(observed) => Some(observed.binding.content_key),
        None => None,
    }
}

/// The stored record of the observed content.
pub open spec fn known_record(state: AppStateView, observation: Option<MediaObservationView>) -> Option<FileRecordView> {
    match observed_key(observation) {
        Some(key) => lookup(state.durable.records, key),
        None => None,
    }
}

/// The parked-import effects of a claim on the observed file.
pub open spec fn claim_adoptions(
    state: AppStateView,
    observation: Option<MediaObservationView>,
    import_paths: Seq<crate::ImportPathView>,
) -> crate::history::PreparedImportAdoptionsView {
    import_adoptions(state.durable.parked, observation, import_paths, observed_key(observation), known_record(state, observation))
}

/// The record the job policy observes: as it stands after the adoptions.
pub open spec fn action_record(
    state: AppStateView,
    observation: Option<MediaObservationView>,
    import_paths: Seq<crate::ImportPathView>,
) -> Option<FileRecordView> {
    match claim_adoptions(state, observation, import_paths).effective_record {
        Some(effective) => Some(effective),
        None => known_record(state, observation),
    }
}

/// The media facts the job policy observes: fresh ones, else the record's.
pub open spec fn action_metadata(
    state: AppStateView,
    observation: Option<MediaObservationView>,
    import_paths: Seq<crate::ImportPathView>,
) -> Option<crate::VideoMetaView> {
    match observation {
        Some(observed) => Some(observed.metadata),
        None => match action_record(state, observation, import_paths) {
            Some(known) => Some(known.metadata),
            None => None,
        },
    }
}

/// The action a claim takes.
pub open spec fn claim_action(
    state: AppStateView,
    observation: Option<MediaObservationView>,
    import_paths: Seq<crate::ImportPathView>,
    item: QueueItemView,
    execution: ExecutionSettingsView,
) -> JobActionView {
    job_action(
        action_metadata(state, observation, import_paths),
        action_record(state, observation, import_paths),
        item.operation,
        item.intent,
        execution,
    )
}

/// The durable deltas of a prepared claim: the observation when it
/// changes the facts, the import adoptions, then the prepared job.
pub open spec fn preparation_deltas(
    state: AppStateView,
    observation: Option<MediaObservationView>,
    import_paths: Seq<crate::ImportPathView>,
    spec: JobSpecView,
) -> Seq<DurableDeltaView> {
    let observed_deltas = match observation {
        Some(observed) => if observation_changes(state.durable, observed) {
            seq![DurableDeltaView::MediaObserved { observation: observed }]
        } else {
            Seq::empty()
        },
        None => Seq::empty(),
    };
    observed_deltas + claim_adoptions(state, observation, import_paths).deltas + seq![DurableDeltaView::ItemPrepared { spec }]
}

/// The outcome of preparing a reserved item: the execution is completed
/// and validated, parked imports resolve against the observation, and the
/// job action is chosen against the record as it will stand.
pub open spec fn preparation(
    state: AppStateView,
    item_id: QueueItemId,
    claim_id: ClaimId,
    run_id: RunId,
    observation: Option<MediaObservationView>,
    import_paths: Seq<crate::ImportPathView>,
    execution: ExecutionSettingsView,
) -> AppliedView {
    match first_match(state.durable.queue, has_id(item_id)) {
        None => rejected_view("queue item does not exist"@),
        Some(item) => if item.state != (QueueItemStateView::Reserved { claim_id, run_id }) {
            rejected_view("worker preparation has a stale reservation"@)
        } else {
            let execution = claim_execution(execution, item.overwrite, state.settings);
            match execution_validation(execution) {
                Err(reason) => rejected_view(reason@),
                Ok(_) => {
                    let action = claim_action(state, observation, import_paths, item, execution);
                    if action.selected() is Some && reuse_validation(action.selected()->0, execution) is Err {
                        rejected_view(reuse_validation(action.selected()->0, execution)->Err_0@)
                    } else {
                        let spec = JobSpecView {
                            item_id,
                            claim_id,
                            run_id,
                            input: item.input,
                            content_key: observed_key(observation),
                            operation: item.operation,
                            intent: item.intent,
                            output_target: item.output_target,
                            execution,
                            action,
                        };
                        AppliedView {
                            durable: preparation_deltas(state, observation, import_paths, spec),
                            reply: ReplyView::Claimed(Some(ClaimedJobView { spec })),
                            ..accepted_view()
                        }
                    }
                },
            }
        },
    }
}

/// Whether a transaction left its output standing as requested.
pub open spec fn successful_output(output: Option<OutputTransactionView>) -> bool {
    match output {
        Some(transaction) => match transaction.state {
            OutputStateView::Committed { .. } => transaction.replacement == Replacement::KeepOriginal,
            OutputStateView::Retired { .. } => transaction.replacement == Replacement::RetireOriginal,
            _ => false,
        },
        None => false,
    }
}

/// Whether a not-worthwhile attempt lies outside the claimed ladder or
/// carries an invalid measurement.
pub open spec fn stray_attempt(run: ConversionRunView, attempt: AnalysisAttempt) -> bool {
    ||| attempt.target.0 > run.spec.execution.requested_target.0
    ||| attempt.target.0 < run.spec.execution.fallback_floor.0
    ||| match attempt.last_measurement {
        Some(measurement) => measurement_validation(measurement) is Err,
        None => false,
    }
}

/// Whether a terminal outcome is consistent with the run and its output.
pub open spec fn terminal_validation(
    run: ConversionRunView,
    output: Option<OutputTransactionView>,
    outcome: ItemOutcomeView,
) -> Result<(), &'static str> {
    match outcome {
        ItemOutcomeView::Analyzed => {
            if !(run.spec.action is Analyze) || run.analysis is None || output is Some {
                Err("analyzed outcome is incompatible with the run state")
            } else {
                Ok(())
            }
        },
        ItemOutcomeView::Converted(evidence) => {
            if !(run.spec.action is Encode) || run.analysis is None {
                Err("converted outcome requires a converted run with durable analysis")
            } else if !successful_output(output) {
                Err("converted outcome requires a successfully settled output")
            } else if run.started_at is None {
                Err("successful outcome requires a started run")
            } else if evidence is LiveRemux {
                Err("converted outcome cannot carry remux evidence")
            } else {
                Ok(())
            }
        },
        ItemOutcomeView::Remuxed(evidence) => {
            if !(run.spec.action is Remux) || run.analysis is Some {
                Err("remuxed outcome requires a remux run without analysis")
            } else if !successful_output(output) {
                Err("remuxed outcome requires a successfully settled output")
            } else if run.started_at is None {
                Err("successful outcome requires a started run")
            } else if evidence is LiveEncode {
                Err("remuxed outcome cannot carry encode evidence")
            } else {
                Ok(())
            }
        },
        ItemOutcomeView::NotWorthwhile { attempts } => {
            if run.analysis is Some || output is Some {
                Err("not-worthwhile outcome cannot retain analysis or output state")
            } else if attempts.len() == 0 || exists|k: int| 0 <= k < attempts.len() && stray_attempt(run, #[trigger] attempts[k]) {
                Err("not-worthwhile attempts are inconsistent with the claimed job")
            } else {
                Ok(())
            }
        },
        ItemOutcomeView::Skipped { reason } => match reason {
            SkipReason::OutputExists => {
                if !run.spec.action.writes_output() || output is Some {
                    Err("output-exists skip is incompatible with the run state")
                } else {
                    Ok(())
                }
            },
            SkipReason::AlreadyConverted { .. } | SkipReason::AlreadyQueued => Err(
                "enqueue-time skip reasons are never terminal outcomes",
            ),
            _ => {
                if run.spec.action != (JobActionView::Skip { reason }) || run.analysis is Some || output is Some {
                    Err("policy skip does not match the prepared job")
                } else {
                    Ok(())
                }
            },
        },
        ItemOutcomeView::Failed(facts) => {
            if tail_validation(facts.diagnostic) is Err {
                tail_validation(facts.diagnostic)
            } else if facts.kind == FailureKind::OutputConflict && !(output is Some && output->0.state is Conflict) {
                Err("output-conflict failure requires a conflicted output transaction")
            } else {
                Ok(())
            }
        },
        ItemOutcomeView::Stopped => Ok(()),
    }
}

fn has_successful_output(output: Option<&OutputTransaction>) -> (successful: bool)
    ensures
        successful == successful_output(match output { Some(t) => Some(t@), None => None }),
{
    match output {
        Some(transaction) => match (&transaction.replacement, &transaction.state) {
            (Replacement::KeepOriginal, OutputState::Committed { .. }) => true,
            (Replacement::RetireOriginal, OutputState::Retired { .. }) => true,
            _ => false,
        },
        None => false,
    }
}

/// Check that a terminal outcome is consistent with the run and its output
/// transaction.
#[verifier::loop_isolation(false)]
pub fn validate_terminal(
    run: &ConversionRun,
    output: Option<&OutputTransaction>,
    outcome: &ItemOutcome,
) -> (result: Result<(), &'static str>)
    ensures
        result == terminal_validation(run@, match output { Some(t) => Some(t@), None => None }, outcome@),
{
    let has_output = output.is_some();
    match outcome {
        ItemOutcome::Analyzed => {
            let analyze = match run.spec.action {
                JobAction::Analyze { .. } => true,
                _ => false,
            };
            if !analyze || run.analysis.is_none() || has_output {
                return Err("analyzed outcome is incompatible with the run state");
            }
        },
        ItemOutcome::Converted(evidence) => {
            let encode = match run.spec.action {
                JobAction::Encode { .. } => true,
                _ => false,
            };
            if !encode || run.analysis.is_none() {
                return Err("converted outcome requires a converted run with durable analysis");
            }
            if !has_successful_output(output) {
                return Err("converted outcome requires a successfully settled output");
            }
            if run.started_at.is_none() {
                return Err("successful outcome requires a started run");
            }
            if let CompletionEvidence::LiveRemux { .. } = evidence {
                return Err("converted outcome cannot carry remux evidence");
            }
        },
        ItemOutcome::Remuxed(evidence) => {
            let remux = match run.spec.action {
                JobAction::Remux => true,
                _ => false,
            };
            if !remux || run.analysis.is_some() {
                return Err("remuxed outcome requires a remux run without analysis");
            }
            if !has_successful_output(output) {
                return Err("remuxed outcome requires a successfully settled output");
            }
            if run.started_at.is_none() {
                return Err("successful outcome requires a started run");
            }
            if let CompletionEvidence::LiveEncode { .. } = evidence {
                return Err("remuxed outcome cannot carry encode evidence");
            }
        },
        ItemOutcome::NotWorthwhile { attempts } => {
            if run.analysis.is_some() || has_output {
                return Err("not-worthwhile outcome cannot retain analysis or output state");
            }
            if attempts.len() == 0 {
                return Err("not-worthwhile attempts are inconsistent with the claimed job");
            }
            let mut index: usize = 0;
            while index < attempts.len()
                invariant
                    index <= attempts.len(),
                    forall|k: int| 0 <= k < index ==> !stray_attempt(run@, #[trigger] attempts@[k]),
                decreases attempts.len() - index,
            {
                let attempt = &attempts[index];
                let invalid = match &attempt.last_measurement {
                    Some(measurement) => measurement.validate().is_err(),
                    None => false,
                };
                if attempt.target.0 > run.spec.execution.requested_target.0
                    || attempt.target.0 < run.spec.execution.fallback_floor.0 || invalid {
                    assert(stray_attempt(run@, attempts@[index as int]));
                    return Err("not-worthwhile attempts are inconsistent with the claimed job");
                }
                index += 1;
            }
        },
        ItemOutcome::Skipped { reason } => match reason {
            SkipReason::OutputExists => {
                if !run.spec.action.produces_output() || has_output {
                    return Err("output-exists skip is incompatible with the run state");
                }
            },
            SkipReason::AlreadyConverted { .. } | SkipReason::AlreadyQueued => {
                return Err("enqueue-time skip reasons are never terminal outcomes");
            },
            _ => {
                let matches_action = match &run.spec.action {
                    JobAction::Skip { reason: expected } => *expected == *reason,
                    _ => false,
                };
                if !matches_action || run.analysis.is_some() || has_output {
                    return Err("policy skip does not match the prepared job");
                }
            },
        },
        ItemOutcome::Failed(facts) => {
            facts.diagnostic.validate()?;
            let conflicted = match output {
                Some(transaction) => match &transaction.state {
                    OutputState::Conflict { .. } => true,
                    _ => false,
                },
                None => false,
            };
            if let FailureKind::OutputConflict = facts.kind {
                if !conflicted {
                    return Err("output-conflict failure requires a conflicted output transaction");
                }
            }
        },
        ItemOutcome::Stopped => {},
    }
    Ok(())
}

/// The ephemeral deltas a terminal announces: the final telemetry sample
/// if any, the end of the run's telemetry, and the session aggregates.
pub open spec fn terminal_announcements(
    state: AppStateView,
    run_id: RunId,
    outcome: ItemOutcomeView,
    spans: Seq<crate::PhaseSpan>,
    final_telemetry: Option<crate::Telemetry>,
) -> Seq<EphemeralDeltaView> {
    let sample = match final_telemetry {
        Some(telemetry) => seq![EphemeralDeltaView::Telemetry(telemetry)],
        None => Seq::empty(),
    };
    sample + seq![
        EphemeralDeltaView::TelemetryCleared { run_id },
        EphemeralDeltaView::SessionAggregates(absorbed(state.aggregates, outcome, spans)),
    ]
}

/// The outcome of a worker command.
pub open spec fn worker_outcome(state: AppStateView, command: WorkerCommandView) -> AppliedView {
    let queue = state.durable.queue;
    match command {
        WorkerCommandView::ReserveNext { claim_id, run_id } => {
            if state.session != SessionState::Running {
                rejected_view("session is not accepting another claim"@)
            } else if active_run_of(queue) is Some {
                rejected_view("another queue item is active"@)
            } else {
                match first_match(queue, pending_entry()) {
                    None => AppliedView { reply: ReplyView::Reserved(None), ..accepted_view() },
                    Some(item) => AppliedView {
                        durable: seq![DurableDeltaView::ItemReserved { job: reservation(item, claim_id, run_id) }],
                        reply: ReplyView::Reserved(Some(reservation(item, claim_id, run_id))),
                        ..accepted_view()
                    },
                }
            }
        },
        WorkerCommandView::PrepareReserved { item_id, claim_id, run_id, observation, import_paths, execution } => preparation(
            state,
            item_id,
            claim_id,
            run_id,
            observation,
            import_paths,
            execution,
        ),
        WorkerCommandView::AbandonReservation { item_id, claim_id, run_id, at } => match first_match(queue, has_id(item_id)) {
            None => rejected_view("queue item does not exist"@),
            Some(item) => if item.state != (QueueItemStateView::Reserved { claim_id, run_id }) || run_of(
                state.durable.conversion_runs,
                run_id,
            ) is Some {
                rejected_view("reservation cannot be abandoned from its current state"@)
            } else {
                AppliedView {
                    durable: seq![
                        DurableDeltaView::ItemFinished {
                            item_id,
                            claim_id,
                            run_id,
                            outcome: ItemOutcomeView::Stopped,
                            at,
                            phase_spans: Seq::empty(),
                        },
                    ],
                    ephemeral: seq![
                        EphemeralDeltaView::SessionAggregates(
                            absorbed(state.aggregates, ItemOutcomeView::Stopped, Seq::empty()),
                        ),
                    ],
                    ..accepted_view()
                }
            },
        },
        WorkerCommandView::Started { item_id, claim_id, run_id, at } => match claim_problem(queue, item_id, claim_id, run_id) {
            Some(reason) => rejected_view(reason),
            None => AppliedView {
                durable: seq![DurableDeltaView::ItemRunning { item_id, claim_id, run_id, at }],
                ..accepted_view()
            },
        },
        WorkerCommandView::Output(delta) => {
            if active_run_of(queue) != Some(delta.run()) {
                rejected_view("output event does not belong to the active run"@)
            } else if output_delta_validation(state.durable.outputs, delta) is Err {
                rejected_view(output_delta_validation(state.durable.outputs, delta)->Err_0@)
            } else {
                AppliedView { durable: seq![DurableDeltaView::Output(delta)], ..accepted_view() }
            }
        },
        WorkerCommandView::RecordAnalysis { item_id, claim_id, run_id, result } => match claim_problem(
            queue,
            item_id,
            claim_id,
            run_id,
        ) {
            Some(reason) => rejected_view(reason),
            None => match run_of(state.durable.conversion_runs, run_id) {
                None => rejected_view("conversion run does not exist"@),
                Some(run) => if run.analysis is Some {
                    rejected_view("analysis is already recorded"@)
                } else if recording_validation(result, run.spec.execution) is Err {
                    rejected_view(recording_validation(result, run.spec.execution)->Err_0@)
                } else {
                    AppliedView {
                        durable: seq![DurableDeltaView::AnalysisRecorded { run_id, result }],
                        ..accepted_view()
                    }
                },
            },
        },
        WorkerCommandView::Terminal { item_id, claim_id, run_id, outcome, at, phase_spans, final_telemetry } => match claim_problem(
            queue,
            item_id,
            claim_id,
            run_id,
        ) {
            Some(reason) => rejected_view(reason),
            None => {
                let output = transaction_of(state.durable.outputs, run_id);
                if output is Some && !output->0.settled() {
                    rejected_view("output transaction is not settled"@)
                } else {
                    match run_of(state.durable.conversion_runs, run_id) {
                        None => rejected_view("conversion run does not exist"@),
                        Some(run) => match terminal_validation(run, output, outcome) {
                            Err(reason) => rejected_view(reason@),
                            Ok(_) => AppliedView {
                                durable: seq![
                                    DurableDeltaView::ItemFinished { item_id, claim_id, run_id, outcome, at, phase_spans },
                                ],
                                ephemeral: terminal_announcements(state, run_id, outcome, phase_spans, final_telemetry),
                                ..accepted_view()
                            },
                        },
                    }
                }
            },
        },
        WorkerCommandView::Crashed { message } => AppliedView {
            ephemeral: seq![EphemeralDeltaView::WorkerCrashed { message }],
            effects: seq![EffectView::StopDriver],
            ..accepted_view()
        },
        WorkerCommandView::Finished => {
            if active_run_of(queue) is Some {
                rejected_view("worker cannot finish while an item is active"@)
            } else if state.session == SessionState::Idle {
                accepted_view()
            } else {
                announcing(EphemeralDeltaView::SessionChanged(SessionState::Idle))
            }
        },
    }
}

/// Why a worker event for an item is stale, if it is.
fn stale_claim(state: &AppState, item_id: QueueItemId, claim_id: ClaimId, run_id: RunId) -> (problem: Option<&'static str>)
    ensures
        match problem {
            Some(reason) => claim_problem(state@.durable.queue, item_id, claim_id, run_id) == Some(reason@),
            None => claim_problem(state@.durable.queue, item_id, claim_id, run_id) is None,
        },
{
    proof {
        lemma_durable_views(state.durable);
    }
    match find_item(&state.durable.queue, item_id) {
        None => Some("queue item does not exist"),
        Some(index) => {
            assert(state@.durable.queue[index as int] == state.durable.queue@[index as int]@);
            let holds = match &state.durable.queue[index].state {
                QueueItemState::Reserved { claim_id: current_claim, run_id: current_run }
                | QueueItemState::Claimed { claim_id: current_claim, run_id: current_run }
                | QueueItemState::Running { claim_id: current_claim, run_id: current_run } => current_claim.0
                    == claim_id.0 && current_run.0 == run_id.0,
                _ => false,
            };
            if holds {
                None
            } else {
                Some("worker event has a stale claim or run id")
            }
        },
    }
}

fn reserved_for(item: &QueueItem, claim_id: ClaimId, run_id: RunId) -> (reserved: bool)
    ensures
        reserved == (item@.state == (QueueItemStateView::Reserved { claim_id, run_id })),
{
    match &item.state {
        QueueItemState::Reserved { claim_id: current_claim, run_id: current_run } => current_claim.0 == claim_id.0
            && current_run.0 == run_id.0,
        _ => false,
    }
}

fn item_at<'a>(state: &'a AppState, item_id: QueueItemId) -> (item: Option<&'a QueueItem>)
    ensures
        match item {
            Some(found) => first_match(state@.durable.queue, has_id(item_id)) == Some(found@),
            None => first_match(state@.durable.queue, has_id(item_id)) is None,
        },
{
    proof {
        lemma_durable_views(state.durable);
    }
    match find_item(&state.durable.queue, item_id) {
        Some(index) => {
            assert(state@.durable.queue[index as int] == state.durable.queue@[index as int]@);
            Some(&state.durable.queue[index])
        },
        None => None,
    }
}

fn run_at<'a>(state: &'a AppState, run_id: RunId) -> (run: Option<&'a ConversionRun>)
    ensures
        match run {
            Some(found) => run_of(state@.durable.conversion_runs, run_id) == Some(found@),
            None => run_of(state@.durable.conversion_runs, run_id) is None,
        },
{
    proof {
        lemma_durable_views(state.durable);
    }
    match find_run(&state.durable.conversion_runs, run_id) {
        Some(index) => {
            assert(state@.durable.conversion_runs[index as int] == state.durable.conversion_runs@[index as int]@);
            Some(&state.durable.conversion_runs[index])
        },
        None => None,
    }
}

fn output_at<'a>(state: &'a AppState, run_id: RunId) -> (output: Option<&'a OutputTransaction>)
    ensures
        match output {
            Some(found) => transaction_of(state@.durable.outputs, run_id) == Some(found@),
            None => transaction_of(state@.durable.outputs, run_id) is None,
        },
{
    proof {
        lemma_durable_views(state.durable);
    }
    match find_output(&state.durable.outputs, run_id) {
        Some(index) => {
            assert(state@.durable.outputs[index as int] == state.durable.outputs@[index as int]@);
            Some(&state.durable.outputs[index])
        },
        None => None,
    }
}

fn first_pending_item<'a>(state: &'a AppState) -> (item: Option<&'a QueueItem>)
    ensures
        match item {
            Some(found) => first_match(state@.durable.queue, pending_entry()) == Some(found@),
            None => first_match(state@.durable.queue, pending_entry()) is None,
        },
{
    proof {
        lemma_durable_views(state.durable);
    }
    let ghost items = state@.durable.queue;
    let mut index: usize = 0;
    while index < state.durable.queue.len()
        invariant
            index <= state.durable.queue.len(),
            items == state@.durable.queue,
            items == views(state.durable.queue@),
            forall|k: int| 0 <= k < index ==> !pending_entry()(#[trigger] items[k]),
        decreases state.durable.queue.len() - index,
    {
        assert(items[index as int] == state.durable.queue@[index as int]@);
        if let QueueItemState::Queued = state.durable.queue[index].state {
            proof {
                crate::lookup::lemma_first_index_is(items, pending_entry(), index as int);
            }
            return Some(&state.durable.queue[index]);
        }
        index += 1;
    }
    proof {
        crate::lookup::lemma_first_index_none(items, pending_entry());
    }
    None
}

fn complete_execution(state: &AppState, item: &QueueItem, execution: ExecutionSettings) -> (completed: ExecutionSettings)
    ensures
        completed@ == claim_execution(execution@, item@.overwrite, state@.settings),
{
    let mut execution = execution;
    execution.overwrite_existing = match item.overwrite {
        OverwriteDecision::FollowSettings => state.settings.output.overwrite_existing,
        OverwriteDecision::Allow => true,
        OverwriteDecision::Deny => false,
    };
    if state.settings.hardware_decode {
        execution.decode_preference = DecodePreference::HardwarePreferred;
    } else {
        execution.profile.decode_mode = DecodeMode::Software;
        execution.decode_preference = DecodePreference::SoftwareOnly;
    }
    execution
}

fn stored_record<'a>(state: &'a AppState, observed: Option<&MediaObservation>) -> (record: Option<&'a FileRecord>)
    ensures
        match record {
            Some(found) => known_record(state@, match observed { Some(o) => Some(o@), None => None }) == Some(found@),
            None => known_record(state@, match observed { Some(o) => Some(o@), None => None }) is None,
        },
{
    proof {
        lemma_durable_views(state.durable);
    }
    match observed {
        Some(found) => match find_key(&state.durable.records, &found.binding.content_key) {
            Some(index) => {
                assert(state@.durable.records[index as int] == state.durable.records@[index as int]@);
                Some(&state.durable.records[index].1)
            },
            None => None,
        },
        None => None,
    }
}

fn decide_claim(
    state: &AppState,
    observed: Option<&MediaObservation>,
    import_paths: &Vec<ImportPath>,
    item: &QueueItem,
    execution: &ExecutionSettings,
) -> (decided: (crate::history::PreparedImportAdoptions, JobAction))
    ensures
        decided.0@ == claim_adoptions(state@, match observed { Some(o) => Some(o@), None => None }, views(import_paths@)),
        decided.1@ == claim_action(
            state@,
            match observed { Some(o) => Some(o@), None => None },
            views(import_paths@),
            item@,
            execution@,
        ),
{
    let record = stored_record(state, observed);
    let key: Option<&crate::ContentKey> = match observed {
        Some(found) => Some(&found.binding.content_key),
        None => None,
    };
    let adoptions = prepare_import_adoptions(&state.durable, observed, import_paths, key, record);
    let record_for_action: Option<&FileRecord> = match &adoptions.effective_record {
        Some(effective) => Some(effective),
        None => record,
    };
    let metadata: Option<&crate::VideoMeta> = match observed {
        Some(found) => Some(&found.metadata),
        None => match record_for_action {
            Some(known) => Some(&known.metadata),
            None => None,
        },
    };
    let action = select_job_action(metadata, record_for_action, item.operation, item.intent, execution);
    (adoptions, action)
}

fn observation_is_news(state: &AppState, observation: &MediaObservation) -> (news: bool)
    ensures
        news == observation_changes(state@.durable, observation@),
{
    proof {
        lemma_durable_views(state.durable);
    }
    let path_changed = match find_key(&state.durable.paths, &observation.path_hash) {
        Some(index) => {
            assert(state@.durable.paths[index as int] == state.durable.paths@[index as int]@);
            !state.durable.paths[index].1.same_view(&observation.binding)
        },
        None => true,
    };
    let record_changed = match find_key(&state.durable.records, &observation.binding.content_key) {
        Some(index) => {
            assert(state@.durable.records[index as int] == state.durable.records@[index as int]@);
            !state.durable.records[index].1.metadata.same_view(&observation.metadata)
        },
        None => true,
    };
    path_changed || record_changed
}

fn record_all(applied: &mut Applied, deltas: &Vec<DurableDelta>)
    ensures
        final(applied)@ == (AppliedView { durable: old(applied)@.durable + views(deltas@), ..old(applied)@ }),
{
    let ghost start = applied@;
    let ghost adopted = views(deltas@);
    let mut index: usize = 0;
    while index < deltas.len()
        invariant
            index <= deltas.len(),
            adopted == views(deltas@),
            applied@ == (AppliedView { durable: start.durable + adopted.subrange(0, index as int), ..start }),
        decreases deltas.len() - index,
    {
        assert(adopted[index as int] == deltas@[index as int]@);
        applied.record(deltas[index].duplicate());
        assert(start.durable + adopted.subrange(0, index as int + 1) =~= (start.durable + adopted.subrange(0, index as int)).push(
            adopted[index as int],
        ));
        index += 1;
    }
    assert(adopted.subrange(0, adopted.len() as int) =~= adopted);
}

fn prepare_reserved(
    state: &AppState,
    item_id: QueueItemId,
    claim_id: ClaimId,
    run_id: RunId,
    observation: Option<Box<MediaObservation>>,
    import_paths: Vec<ImportPath>,
    execution: ExecutionSettings,
) -> (applied: Applied)
    ensures
        applied@ == preparation(
            state@,
            item_id,
            claim_id,
            run_id,
            match observation { Some(o) => Some((*o)@), None => None },
            views(import_paths@),
            execution@,
        ),
{
    let item = match item_at(state, item_id) {
        Some(item) => item,
        None => {
            return Applied::rejected("queue item does not exist");
        },
    };
    if !reserved_for(item, claim_id, run_id) {
        return Applied::rejected("worker preparation has a stale reservation");
    }
    let execution = complete_execution(state, item, execution);
    if let Err(reason) = execution.validate() {
        return Applied::rejected(reason);
    }
    let ghost observation_view = match &observation {
        Some(o) => Some((**o)@),
        None => None,
    };
    let observed: Option<&MediaObservation> = match &observation {
        Some(boxed) => Some(&**boxed),
        None => None,
    };
    let (adoptions, action) = decide_claim(state, observed, &import_paths, item, &execution);
    if let Some(selected) = action.selected_analysis() {
        if let Err(reason) = selected.validate_reusable_for(&execution) {
            return Applied::rejected(reason);
        }
    }
    let content_key = match observed {
        Some(found) => Some(found.binding.content_key.duplicate()),
        None => None,
    };
    let news = match observed {
        Some(found) => observation_is_news(state, found),
        None => false,
    };
    let spec = JobSpec {
        item_id,
        claim_id,
        run_id,
        input: item.input.duplicate(),
        content_key,
        operation: item.operation,
        intent: item.intent,
        output_target: item.output_target.duplicate(),
        execution,
        action,
    };
    let mut applied = Applied::accepted();
    if let Some(observation) = observation {
        if news {
            applied.record(DurableDelta::MediaObserved { observation });
        }
    }
    record_all(&mut applied, &adoptions.deltas);
    applied.record(DurableDelta::ItemPrepared { spec: Box::new(spec.duplicate()) });
    applied.reply = Reply::Claimed(Some(Box::new(ClaimedJob { spec })));
    proof {
        let goal = preparation_deltas(state@, observation_view, views(import_paths@), spec@);
        if observation_view is None {
            assert(claim_adoptions(state@, observation_view, views(import_paths@)).deltas =~= Seq::<DurableDeltaView>::empty());
        }
        assert(applied@.durable =~= goal);
    }
    applied
}

/// Apply a worker command.
pub fn apply_worker(state: &AppState, command: WorkerCommand) -> (applied: Applied)
    ensures
        applied@ == worker_outcome(state@, command@),
{
    proof {
        lemma_durable_views(state.durable);
    }
    match command {
        WorkerCommand::ReserveNext { claim_id, run_id } => {
            if state.session != SessionState::Running {
                return Applied::rejected("session is not accepting another claim");
            }
            if active_run(&state.durable.queue).is_some() {
                return Applied::rejected("another queue item is active");
            }
            let mut applied = Applied::accepted();
            match first_pending_item(state) {
                None => {
                    applied.reply = Reply::Reserved(None);
                },
                Some(item) => {
                    let job = ReservedJob {
                        item_id: item.id,
                        claim_id,
                        run_id,
                        input: item.input.duplicate(),
                        operation: item.operation,
                        intent: item.intent,
                        output_target: item.output_target.duplicate(),
                    };
                    applied.record(DurableDelta::ItemReserved { job: Box::new(job.duplicate()) });
                    applied.reply = Reply::Reserved(Some(Box::new(job)));
                },
            }
            applied
        },
        WorkerCommand::PrepareReserved { item_id, claim_id, run_id, observation, import_paths, execution } => {
            prepare_reserved(state, item_id, claim_id, run_id, observation, import_paths, execution)
        },
        WorkerCommand::AbandonReservation { item_id, claim_id, run_id, at } => {
            let item = match item_at(state, item_id) {
                Some(item) => item,
                None => {
                    return Applied::rejected("queue item does not exist");
                },
            };
            if !reserved_for(item, claim_id, run_id) || run_at(state, run_id).is_some() {
                return Applied::rejected("reservation cannot be abandoned from its current state");
            }
            let mut aggregates = state.aggregates;
            let no_spans: Vec<crate::PhaseSpan> = Vec::new();
            aggregates.absorb(&ItemOutcome::Stopped, &no_spans);
            let mut applied = Applied::accepted();
            applied.announce(EphemeralDelta::SessionAggregates(aggregates));
            applied.record(
                DurableDelta::ItemFinished {
                    item_id,
                    claim_id,
                    run_id,
                    outcome: ItemOutcome::Stopped,
                    at,
                    phase_spans: Vec::new(),
                },
            );
            proof {
                assert(no_spans@ =~= Seq::<crate::PhaseSpan>::empty());
            }
            applied
        },
        WorkerCommand::Started { item_id, claim_id, run_id, at } => {
            if let Some(reason) = stale_claim(state, item_id, claim_id, run_id) {
                return Applied::rejected(reason);
            }
            let mut applied = Applied::accepted();
            applied.record(DurableDelta::ItemRunning { item_id, claim_id, run_id, at });
            applied
        },
        WorkerCommand::Output(delta) => {
            let run_id = delta.run_id();
            let active = active_run(&state.durable.queue);
            let belongs = match active {
                Some(active_id) => active_id.0 == run_id.0,
                None => false,
            };
            if !belongs {
                return Applied::rejected("output event does not belong to the active run");
            }
            if let Err(reason) = validate_output_delta(&state.durable, &delta) {
                return Applied::rejected(reason);
            }
            let mut applied = Applied::accepted();
            applied.record(DurableDelta::Output(delta));
            applied
        },
        WorkerCommand::RecordAnalysis { item_id, claim_id, run_id, result } => {
            if let Some(reason) = stale_claim(state, item_id, claim_id, run_id) {
                return Applied::rejected(reason);
            }
            let run = match run_at(state, run_id) {
                Some(run) => run,
                None => {
                    return Applied::rejected("conversion run does not exist");
                },
            };
            if run.analysis.is_some() {
                return Applied::rejected("analysis is already recorded");
            }
            if let Err(reason) = result.validate_for(&run.spec.execution) {
                return Applied::rejected(reason);
            }
            let mut applied = Applied::accepted();
            applied.record(DurableDelta::AnalysisRecorded { run_id, result });
            applied
        },
        WorkerCommand::Terminal { item_id, claim_id, run_id, outcome, at, phase_spans, final_telemetry } => {
            if let Some(reason) = stale_claim(state, item_id, claim_id, run_id) {
                return Applied::rejected(reason);
            }
            let output = output_at(state, run_id);
            if let Some(transaction) = output {
                if !transaction.is_settled() {
                    return Applied::rejected("output transaction is not settled");
                }
            }
            let run = match run_at(state, run_id) {
                Some(run) => run,
                None => {
                    return Applied::rejected("conversion run does not exist");
                },
            };
            if let Err(reason) = validate_terminal(run, output, &outcome) {
                return Applied::rejected(reason);
            }
            let mut applied = Applied::accepted();
            if let Some(telemetry) = final_telemetry {
                applied.announce(EphemeralDelta::Telemetry(telemetry));
            }
            applied.announce(EphemeralDelta::TelemetryCleared { run_id });
            let mut aggregates = state.aggregates;
            aggregates.absorb(&outcome, &phase_spans);
            applied.announce(EphemeralDelta::SessionAggregates(aggregates));
            applied.record(DurableDelta::ItemFinished { item_id, claim_id, run_id, outcome, at, phase_spans });
            let ghost expected = terminal_announcements(state@, run_id, outcome@, phase_spans@, final_telemetry);
            assert(applied@.ephemeral =~= expected);
            applied
        },
        WorkerCommand::Crashed { message } => {
            let mut applied = Applied::accepted();
            applied.announce(EphemeralDelta::WorkerCrashed { message });
            applied.request(Effect::StopDriver);
            applied
        },
        WorkerCommand::Finished => {
            if active_run(&state.durable.queue).is_some() {
                return Applied::rejected("worker cannot finish while an item is active");
            }
            if state.session == SessionState::Idle {
                return Applied::accepted();
            }
            let mut applied = Applied::accepted();
            applied.announce(EphemeralDelta::SessionChanged(SessionState::Idle));
            applied
        },
    }
}

} // verus!
